//! The LSM6DS3 inertial unit's data: the packed IMU reading and the
//! gyroscope scale.
use vstd::prelude::*;

use crate::embedded::{SensorKind, SensorReading};

verus! {

/// Default I2C address of the sensor.
pub const LSM6DS3_ADDR: u8 = 0x6A;

/// The IMU reading of one burst of each axis triple: the six accelerometer
/// bytes, then the six gyroscope bytes, the rest zero.
pub fn pack_imu_reading(accel: [u8; 6], gyro: [u8; 6]) -> (r: SensorReading)
    ensures
        r.kind == SensorKind::Imu,
        r.len == 12,
        r.raw@ == accel@ + gyro@ + Seq::new(20, |i: int| 0u8),
{
    let mut raw = [0u8; 32];
    let mut i: usize = 0;
    while i < 6
        invariant
            i <= 6,
            raw@.len() == 32,
            forall|j: int| 0 <= j < i ==> raw@[j] == accel@[j],
            forall|j: int| i <= j < 32 ==> raw@[j] == 0u8,
        decreases 6 - i,
    {
        raw[i] = accel[i];
        i += 1;
    }
    let mut k: usize = 0;
    while k < 6
        invariant
            k <= 6,
            raw@.len() == 32,
            forall|j: int| 0 <= j < 6 ==> raw@[j] == accel@[j],
            forall|j: int| 0 <= j < k ==> raw@[6 + j] == gyro@[j],
            forall|j: int| 6 + k <= j < 32 ==> raw@[j] == 0u8,
        decreases 6 - k,
    {
        raw[6 + k] = gyro[k];
        k += 1;
    }
    let r = SensorReading { kind: SensorKind::Imu, raw, len: 12 };
    assert(r.raw@ =~= accel@ + gyro@ + Seq::new(20, |i: int| 0u8));
    r
}

/// `v` limited to the range of `i16`.
pub open spec fn saturate_i16(v: int) -> int {
    if v < -32768 {
        -32768
    } else if v > 32767 {
        32767
    } else {
        v
    }
}

/// A raw gyroscope sample in degrees per second × 10000 at the 2000 dps
/// range (70 mdps per digit), limited to the range of `i16`.
pub fn gyro_to_dps(raw: i16) -> (r: i16)
    ensures
        r == saturate_i16(raw * 700),
{
    let v = (raw as i32) * 700;
    if v < -32768 {
        -32768
    } else if v > 32767 {
        32767
    } else {
        v as i16
    }
}

} // verus!
