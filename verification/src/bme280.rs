//! The BME280 barometer's register data: calibration coefficients parsed
//! from the two calibration bursts, 20-bit raw samples, and the packed
//! barometer reading.
use vstd::prelude::*;

use crate::embedded::{SensorKind, SensorReading};

verus! {

/// Default I2C address of the sensor (SDO low).
pub const BME280_ADDR: u8 = 0x76;

/// Factory calibration coefficients.
#[derive(Debug, Clone, Copy, Default, PartialEq, Eq)]
pub struct Bme280Calib {
    /// Temperature T1.
    pub t1: u16,
    /// Temperature T2.
    pub t2: i16,
    /// Temperature T3.
    pub t3: i16,
    /// Pressure P1.
    pub p1: u16,
    /// Pressure P2.
    pub p2: i16,
    /// Pressure P3.
    pub p3: i16,
    /// Pressure P4.
    pub p4: i16,
    /// Pressure P5.
    pub p5: i16,
    /// Pressure P6.
    pub p6: i16,
    /// Pressure P7.
    pub p7: i16,
    /// Pressure P8.
    pub p8: i16,
    /// Pressure P9.
    pub p9: i16,
    /// Humidity H1.
    pub h1: u8,
    /// Humidity H2.
    pub h2: i16,
    /// Humidity H3.
    pub h3: u8,
    /// Humidity H4 (12 bits across two registers).
    pub h4: i16,
    /// Humidity H5 (12 bits across two registers).
    pub h5: i16,
    /// Humidity H6.
    pub h6: i8,
}

/// The unsigned little-endian 16-bit value of bytes `lo`, `hi`.
pub open spec fn le_u16(lo: u8, hi: u8) -> int {
    lo + 256 * hi
}

/// The two's-complement little-endian 16-bit value of bytes `lo`, `hi`.
pub open spec fn le_i16(lo: u8, hi: u8) -> int {
    let v = le_u16(lo, hi);
    if v < 32768 {
        v
    } else {
        v - 65536
    }
}

/// The two's-complement value of byte `b`.
pub open spec fn byte_i8(b: u8) -> int {
    if b < 128 {
        b as int
    } else {
        b - 256
    }
}

/// The unsigned little-endian 16-bit value of two bytes.
fn u16_le(lo: u8, hi: u8) -> (r: u16)
    ensures
        r == le_u16(lo, hi),
{
    let r = (lo as u16) | ((hi as u16) << 8u16);
    assert(r == (lo as u16) + 256 * (hi as u16)) by (bit_vector)
        requires
            r == (lo as u16) | ((hi as u16) << 8u16),
    ;
    r
}

/// The two's-complement little-endian 16-bit value of two bytes.
fn i16_le(lo: u8, hi: u8) -> (r: i16)
    ensures
        r == le_i16(lo, hi),
{
    let u = u16_le(lo, hi);
    let r = u as i16;
    assert(r == (if u < 32768 {
        u as int
    } else {
        u - 65536
    })) by (bit_vector)
        requires
            r == u as i16,
    ;
    r
}

/// The calibration a pair of register bursts encodes: twelve little-endian
/// words from the first burst (byte 24 unused, byte 25 is H1), H2 and H3
/// from the second, H4 and H5 as 12-bit values sharing byte 4 (H4 its low
/// nibble, H5 its high nibble), H6 a signed byte.
pub open spec fn calibration_of(b1: Seq<u8>, b2: Seq<u8>, c: Bme280Calib) -> bool {
    &&& c.t1 == le_u16(b1[0], b1[1])
    &&& c.t2 == le_i16(b1[2], b1[3])
    &&& c.t3 == le_i16(b1[4], b1[5])
    &&& c.p1 == le_u16(b1[6], b1[7])
    &&& c.p2 == le_i16(b1[8], b1[9])
    &&& c.p3 == le_i16(b1[10], b1[11])
    &&& c.p4 == le_i16(b1[12], b1[13])
    &&& c.p5 == le_i16(b1[14], b1[15])
    &&& c.p6 == le_i16(b1[16], b1[17])
    &&& c.p7 == le_i16(b1[18], b1[19])
    &&& c.p8 == le_i16(b1[20], b1[21])
    &&& c.p9 == le_i16(b1[22], b1[23])
    &&& c.h1 == b1[25]
    &&& c.h2 == le_i16(b2[0], b2[1])
    &&& c.h3 == b2[2]
    &&& c.h4 == 16 * b2[3] + b2[4] % 16
    &&& c.h5 == 16 * b2[5] + b2[4] / 16
    &&& c.h6 == byte_i8(b2[6])
}

/// Parses the calibration coefficients from the two register bursts.
pub fn parse_calibration(buf1: &[u8; 26], buf2: &[u8; 9]) -> (c: Bme280Calib)
    ensures
        calibration_of(buf1@, buf2@, c),
{
    let b3 = buf2[3];
    let b4 = buf2[4];
    let b5 = buf2[5];
    let h4 = ((b3 as i16) << 4i16) | ((b4 & 0x0F) as i16);
    assert(h4 == 16 * b3 + b4 % 16) by (bit_vector)
        requires
            h4 == ((b3 as i16) << 4i16) | ((b4 & 0x0F) as i16),
    ;
    let h5 = ((b5 as i16) << 4i16) | ((b4 >> 4u8) as i16);
    assert(h5 == 16 * b5 + b4 / 16) by (bit_vector)
        requires
            h5 == ((b5 as i16) << 4i16) | ((b4 >> 4u8) as i16),
    ;
    let b6 = buf2[6];
    let h6 = b6 as i8;
    assert(h6 == (if b6 < 128 {
        b6 as int
    } else {
        b6 - 256
    })) by (bit_vector)
        requires
            h6 == b6 as i8,
    ;
    Bme280Calib {
        t1: u16_le(buf1[0], buf1[1]),
        t2: i16_le(buf1[2], buf1[3]),
        t3: i16_le(buf1[4], buf1[5]),
        p1: u16_le(buf1[6], buf1[7]),
        p2: i16_le(buf1[8], buf1[9]),
        p3: i16_le(buf1[10], buf1[11]),
        p4: i16_le(buf1[12], buf1[13]),
        p5: i16_le(buf1[14], buf1[15]),
        p6: i16_le(buf1[16], buf1[17]),
        p7: i16_le(buf1[18], buf1[19]),
        p8: i16_le(buf1[20], buf1[21]),
        p9: i16_le(buf1[22], buf1[23]),
        h1: buf1[25],
        h2: i16_le(buf2[0], buf2[1]),
        h3: buf2[2],
        h4,
        h5,
        h6,
    }
}

/// The big-endian value of the three bytes of `buf` from `off`.
pub fn u32_from_3(buf: &[u8], off: usize) -> (r: u32)
    requires
        off + 2 < buf@.len(),
    ensures
        r == 65536 * buf@[off as int] + 256 * buf@[off + 1] + buf@[off + 2],
{
    let hi = buf[off] as u32;
    let mid = buf[off + 1] as u32;
    let lo = buf[off + 2] as u32;
    let r = (hi << 16u32) | (mid << 8u32) | lo;
    assert(r == 65536 * hi + 256 * mid + lo) by (bit_vector)
        requires
            hi < 256,
            mid < 256,
            lo < 256,
            r == (hi << 16u32) | (mid << 8u32) | lo,
    ;
    r
}

/// The four little-endian bytes of `v`'s two's complement.
pub open spec fn le_bytes_i32(v: i32) -> Seq<u8> {
    let u = v as u32;
    seq![(u & 0xff) as u8, ((u >> 8u32) & 0xff) as u8, ((u >> 16u32) & 0xff) as u8, (u >> 24u32) as u8]
}

/// The value of four little-endian two's-complement bytes.
pub open spec fn le_i32(b: Seq<u8>) -> i32 {
    ((b[0] as u32) | ((b[1] as u32) << 8u32) | ((b[2] as u32) << 16u32) | ((b[3] as u32)
        << 24u32)) as i32
}

/// Reading a packed value back gives the value.
pub proof fn lemma_le_i32_round_trip(v: i32)
    ensures
        le_i32(le_bytes_i32(v)) == v,
{
    let u = v as u32;
    let b0 = (u & 0xff) as u8;
    let b1 = ((u >> 8u32) & 0xff) as u8;
    let b2 = ((u >> 16u32) & 0xff) as u8;
    let b3 = (u >> 24u32) as u8;
    assert(((b0 as u32) | ((b1 as u32) << 8u32) | ((b2 as u32) << 16u32) | ((b3 as u32) << 24u32))
        as i32 == v) by (bit_vector)
        requires
            u == v as u32,
            b0 == (u & 0xff) as u8,
            b1 == ((u >> 8u32) & 0xff) as u8,
            b2 == ((u >> 16u32) & 0xff) as u8,
            b3 == (u >> 24u32) as u8,
    ;
}

/// Writes the little-endian bytes of `v` at `at`.
fn put_i32(raw: &mut [u8; 32], at: usize, v: i32)
    requires
        at + 4 <= 32,
    ensures
        final(raw)@ == old(raw)@.subrange(0, at as int) + le_bytes_i32(v) + old(raw)@.subrange(
            at + 4,
            32,
        ),
{
    let u = v as u32;
    raw[at] = (u & 0xff) as u8;
    raw[at + 1] = ((u >> 8u32) & 0xff) as u8;
    raw[at + 2] = ((u >> 16u32) & 0xff) as u8;
    raw[at + 3] = (u >> 24u32) as u8;
    assert(raw@ =~= old(raw)@.subrange(0, at as int) + le_bytes_i32(v) + old(raw)@.subrange(
        at + 4,
        32,
    ));
}

/// The barometer reading of compensated values: temperature (°C × 100),
/// pressure (Pa) and humidity (% × 100) as little-endian words in the
/// first 12 bytes, the rest zero.
pub fn pack_reading(temp_c100: i32, press_pa: i32, hum_c100: i32) -> (r: SensorReading)
    ensures
        r.kind == SensorKind::Barometer,
        r.len == 12,
        r.raw@ == le_bytes_i32(temp_c100) + le_bytes_i32(press_pa) + le_bytes_i32(hum_c100)
            + Seq::new(20, |i: int| 0u8),
        le_i32(r.raw@.subrange(0, 4)) == temp_c100,
        le_i32(r.raw@.subrange(4, 8)) == press_pa,
        le_i32(r.raw@.subrange(8, 12)) == hum_c100,
{
    let mut raw = [0u8; 32];
    put_i32(&mut raw, 0, temp_c100);
    put_i32(&mut raw, 4, press_pa);
    put_i32(&mut raw, 8, hum_c100);
    proof {
        assert(raw@ =~= le_bytes_i32(temp_c100) + le_bytes_i32(press_pa) + le_bytes_i32(hum_c100)
            + Seq::new(20, |i: int| 0u8));
        assert(raw@.subrange(0, 4) =~= le_bytes_i32(temp_c100));
        assert(raw@.subrange(4, 8) =~= le_bytes_i32(press_pa));
        assert(raw@.subrange(8, 12) =~= le_bytes_i32(hum_c100));
        lemma_le_i32_round_trip(temp_c100);
        lemma_le_i32_round_trip(press_pa);
        lemma_le_i32_round_trip(hum_c100);
    }
    SensorReading { kind: SensorKind::Barometer, raw, len: 12 }
}


// ===========================================================================
// Compensation (integer formulas)
// ===========================================================================

/// `x` fits in an `i32`.
pub open spec fn fits_i32(x: int) -> bool {
    i32::MIN <= x <= i32::MAX
}

/// `x` fits in an `i64`.
pub open spec fn fits_i64(x: int) -> bool {
    i64::MIN <= x <= i64::MAX
}

/// The floor of `x / d` is the `q` with `q d <= x < q d + d`.
proof fn lemma_floor_div(x: int, q: int, d: int)
    by (nonlinear_arith)
    requires
        d > 0,
        q * d <= x,
        x < q * d + d,
    ensures
        q == x / d,
{
}

proof fn lemma_shr32_1(x: i32)
    ensures
        (x >> 1i32) as int == (x as int) / 2,
{
    let q = (x >> 1i32) as int;
    assert(((x >> 1i32) as int) * 2 <= (x as int) && (x as int) < ((x >> 1i32) as int) * 2 + 2)
        by (bit_vector);
    lemma_floor_div(x as int, q, 2);
}

proof fn lemma_shr32_8(x: i32)
    ensures
        (x >> 8i32) as int == (x as int) / 256,
{
    let q = (x >> 8i32) as int;
    assert(((x >> 8i32) as int) * 256 <= (x as int) && (x as int) < ((x >> 8i32) as int) * 256
        + 256) by (bit_vector);
    lemma_floor_div(x as int, q, 256);
}

proof fn lemma_shr32_11(x: i32)
    ensures
        (x >> 11i32) as int == (x as int) / 2048,
{
    let q = (x >> 11i32) as int;
    assert(((x >> 11i32) as int) * 2048 <= (x as int) && (x as int) < ((x >> 11i32) as int)
        * 2048 + 2048) by (bit_vector);
    lemma_floor_div(x as int, q, 2048);
}

proof fn lemma_shr32_12(x: i32)
    ensures
        (x >> 12i32) as int == (x as int) / 4096,
{
    let q = (x >> 12i32) as int;
    assert(((x >> 12i32) as int) * 4096 <= (x as int) && (x as int) < ((x >> 12i32) as int)
        * 4096 + 4096) by (bit_vector);
    lemma_floor_div(x as int, q, 4096);
}

proof fn lemma_shr32_14(x: i32)
    ensures
        (x >> 14i32) as int == (x as int) / 16384,
{
    let q = (x >> 14i32) as int;
    assert(((x >> 14i32) as int) * 16384 <= (x as int) && (x as int) < ((x >> 14i32) as int)
        * 16384 + 16384) by (bit_vector);
    lemma_floor_div(x as int, q, 16384);
}

/// `var1` of the temperature formula.
pub open spec fn temp_var1(c: Bme280Calib, raw: int) -> int {
    raw / 8 - 2 * c.t1
}

/// The halved `var1` of the temperature formula.
pub open spec fn temp_half(c: Bme280Calib, raw: int) -> int {
    temp_var1(c, raw) / 2
}

/// The squared term of the temperature formula, before the T3 scaling.
pub open spec fn temp_square(c: Bme280Calib, raw: int) -> int {
    (temp_half(c, raw) * temp_half(c, raw)) / 4096
}

/// The fine temperature of raw sample `raw`, shared
/// with the pressure and humidity formulas.
pub open spec fn temp_fine(c: Bme280Calib, raw: int) -> int {
    (temp_var1(c, raw) * c.t2) / 2048 + (temp_square(c, raw) * c.t3) / 16384
}

/// Temperature in °C × 100 from the fine temperature.
pub open spec fn temp_c100(t_fine: int) -> int {
    (t_fine * 5 + 128) / 256
}

/// The temperature formula's 32-bit arithmetic does not overflow for
/// this 20-bit sample.
pub open spec fn temp_fits(c: Bme280Calib, raw: int) -> bool {
    &&& 0 <= raw < 0x100000
    &&& fits_i32(temp_var1(c, raw) * c.t2)
    &&& fits_i32(temp_half(c, raw) * temp_half(c, raw))
    &&& fits_i32(temp_square(c, raw) * c.t3)
    &&& fits_i32(temp_fine(c, raw))
    &&& fits_i32(temp_fine(c, raw) * 5 + 128)
}

proof fn lemma_shr64_1(x: i64)
    ensures
        (x >> 1i64) as int == (x as int) / 2,
{
    assert(((x >> 1i64) as int) * 2 <= (x as int) && (x as int) < ((x >> 1i64) as int) * 2 + 2)
        by (bit_vector);
    lemma_floor_div(x as int, (x >> 1i64) as int, 2);
}

proof fn lemma_shr64_2(x: i64)
    ensures
        (x >> 2i64) as int == (x as int) / 4,
{
    assert(((x >> 2i64) as int) * 4 <= (x as int) && (x as int) < ((x >> 2i64) as int) * 4 + 4)
        by (bit_vector);
    lemma_floor_div(x as int, (x >> 2i64) as int, 4);
}

proof fn lemma_shr64_3(x: i64)
    ensures
        (x >> 3i64) as int == (x as int) / 8,
{
    assert(((x >> 3i64) as int) * 8 <= (x as int) && (x as int) < ((x >> 3i64) as int) * 8 + 8)
        by (bit_vector);
    lemma_floor_div(x as int, (x >> 3i64) as int, 8);
}

proof fn lemma_shr64_4(x: i64)
    ensures
        (x >> 4i64) as int == (x as int) / 16,
{
    assert(((x >> 4i64) as int) * 16 <= (x as int) && (x as int) < ((x >> 4i64) as int) * 16
        + 16) by (bit_vector);
    lemma_floor_div(x as int, (x >> 4i64) as int, 16);
}

proof fn lemma_shr64_10(x: i64)
    ensures
        (x >> 10i64) as int == (x as int) / 1024,
{
    assert(((x >> 10i64) as int) * 1024 <= (x as int) && (x as int) < ((x >> 10i64) as int)
        * 1024 + 1024) by (bit_vector);
    lemma_floor_div(x as int, (x >> 10i64) as int, 1024);
}

proof fn lemma_shr64_11(x: i64)
    ensures
        (x >> 11i64) as int == (x as int) / 2048,
{
    assert(((x >> 11i64) as int) * 2048 <= (x as int) && (x as int) < ((x >> 11i64) as int)
        * 2048 + 2048) by (bit_vector);
    lemma_floor_div(x as int, (x >> 11i64) as int, 2048);
}

proof fn lemma_shr64_12(x: i64)
    ensures
        (x >> 12i64) as int == (x as int) / 4096,
{
    assert(((x >> 12i64) as int) * 4096 <= (x as int) && (x as int) < ((x >> 12i64) as int)
        * 4096 + 4096) by (bit_vector);
    lemma_floor_div(x as int, (x >> 12i64) as int, 4096);
}

proof fn lemma_shr64_13(x: i64)
    ensures
        (x >> 13i64) as int == (x as int) / 8192,
{
    assert(((x >> 13i64) as int) * 8192 <= (x as int) && (x as int) < ((x >> 13i64) as int)
        * 8192 + 8192) by (bit_vector);
    lemma_floor_div(x as int, (x >> 13i64) as int, 8192);
}

proof fn lemma_shr64_15(x: i64)
    ensures
        (x >> 15i64) as int == (x as int) / 32768,
{
    assert(((x >> 15i64) as int) * 32768 <= (x as int) && (x as int) < ((x >> 15i64) as int)
        * 32768 + 32768) by (bit_vector);
    lemma_floor_div(x as int, (x >> 15i64) as int, 32768);
}

proof fn lemma_shr64_18(x: i64)
    ensures
        (x >> 18i64) as int == (x as int) / 262144,
{
    assert(((x >> 18i64) as int) * 262144 <= (x as int) && (x as int) < ((x >> 18i64) as int)
        * 262144 + 262144) by (bit_vector);
    lemma_floor_div(x as int, (x >> 18i64) as int, 262144);
}

/// Division truncated toward zero, as Rust divides signed integers.
pub open spec fn trunc_div(a: int, b: int) -> int {
    let q = (if a >= 0 {
        a
    } else {
        -a
    }) / (if b >= 0 {
        b
    } else {
        -b
    });
    if (a >= 0) == (b > 0) {
        q
    } else {
        -q
    }
}

/// `var1` of the pressure formula.
pub open spec fn press_var1(tf: int) -> int {
    tf * 4 - 64000
}

/// The square of the pressure formula's `var1`.
pub open spec fn press_square(tf: int) -> int {
    press_var1(tf) * press_var1(tf)
}

/// The first partial sum of the pressure formula's `var2`.
pub open spec fn press_var2a(c: Bme280Calib, tf: int) -> int {
    (press_square(tf) / 2048) * c.p6 + press_var1(tf) * c.p5 * 2
}

/// The pressure formula's `var2`.
pub open spec fn press_var2(c: Bme280Calib, tf: int) -> int {
    press_var2a(c, tf) / 4 + c.p4 * 65536
}

/// The pressure formula's second `var1`, before its scaling.
pub open spec fn press_var1b(c: Bme280Calib, tf: int) -> int {
    (c.p3 * (press_square(tf) / 8192)) / 8 + (c.p2 * press_var1(tf)) / 2
}

/// The pressure formula's divisor.
pub open spec fn press_divisor(c: Bme280Calib, tf: int) -> int {
    ((32768 + press_var1b(c, tf) / 262144) * c.p1) / 32768
}

/// The pressure formula's dividend, before doubling.
pub open spec fn press_base(c: Bme280Calib, tf: int, raw: int) -> int {
    ((1048576 - raw) - press_var2(c, tf) / 4096) * 3125
}

/// The uncorrected pressure.
pub open spec fn press_quotient(c: Bme280Calib, tf: int, raw: int) -> int {
    trunc_div(press_base(c, tf, raw) * 2, press_divisor(c, tf))
}

/// The P9 correction term.
pub open spec fn press_corr9(c: Bme280Calib, tf: int, raw: int) -> int {
    let p = press_quotient(c, tf, raw);
    (c.p9 * ((p / 8) * (p / 8))) / 4096
}

/// The P8 correction term.
pub open spec fn press_corr8(c: Bme280Calib, tf: int, raw: int) -> int {
    (c.p8 * press_quotient(c, tf, raw)) / 8192
}

/// The corrected pressure in pascals, in 64 bits.
pub open spec fn press_pa_wide(c: Bme280Calib, tf: int, raw: int) -> int {
    press_quotient(c, tf, raw) + (press_corr9(c, tf, raw) + press_corr8(c, tf, raw) + c.p7) / 16
}

/// The pressure formula's 64-bit arithmetic does not overflow for this
/// fine temperature and 20-bit sample.
pub open spec fn press_fits(c: Bme280Calib, tf: int, raw: int) -> bool {
    let p = press_quotient(c, tf, raw);
    &&& 0 <= raw < 0x100000
    &&& fits_i32(tf)
    &&& fits_i64(press_square(tf))
    &&& fits_i64((press_square(tf) / 2048) * c.p6)
    &&& fits_i64(press_var1(tf) * c.p5)
    &&& fits_i64(press_var1(tf) * c.p5 * 2)
    &&& fits_i64(press_var2a(c, tf))
    &&& fits_i64(press_var2(c, tf))
    &&& fits_i64(c.p3 * (press_square(tf) / 8192))
    &&& fits_i64(c.p2 * press_var1(tf))
    &&& fits_i64(press_var1b(c, tf))
    &&& fits_i64((32768 + press_var1b(c, tf) / 262144) * c.p1)
    &&& (press_divisor(c, tf) != 0 ==> {
        &&& fits_i64(press_base(c, tf, raw))
        &&& fits_i64(press_base(c, tf, raw) * 2)
        &&& fits_i64(p)
        &&& fits_i64((p / 8) * (p / 8))
        &&& fits_i64(c.p9 * ((p / 8) * (p / 8)))
        &&& fits_i64(c.p8 * p)
        &&& fits_i64(press_corr9(c, tf, raw) + press_corr8(c, tf, raw) + c.p7)
        &&& fits_i64(press_pa_wide(c, tf, raw))
    })
}

/// The humidity formula's first term.
pub open spec fn hum_x1(c: Bme280Calib, tf: int, raw: int) -> int {
    raw * 16384 - c.h4 * 1048576 - c.h5 * (tf - 76800) + 4096
}

/// The humidity formula's third term.
pub open spec fn hum_x3(c: Bme280Calib, tf: int, raw: int) -> int {
    (((hum_x1(c, tf, raw) * c.h6) / 1024) * c.h3) / 2048
}

/// The humidity formula's scaled value before limiting.
pub open spec fn hum_scaled(c: Bme280Calib, tf: int, raw: int) -> int {
    let x3 = hum_x3(c, tf, raw);
    ((x3 + (((x3 * x3) / 4096) * 16384) / 1024) / 4) * 100
}

/// Relative humidity in % × 100 (0.00 % to 100.00 %): zero for a
/// negative third term or a scaled value over 2^32, at most 10 000.
pub open spec fn hum_c100(c: Bme280Calib, tf: int, raw: int) -> int {
    if hum_x3(c, tf, raw) < 0 {
        0
    } else {
        let v = hum_scaled(c, tf, raw);
        if v > 4294967296 {
            0
        } else if v > 10000 {
            10000
        } else {
            v
        }
    }
}

/// The humidity formula's 64-bit arithmetic does not overflow for this
/// fine temperature and sample.
pub open spec fn hum_fits(c: Bme280Calib, tf: int, raw: int) -> bool {
    let x3 = hum_x3(c, tf, raw);
    &&& fits_i32(tf)
    &&& fits_i64(c.h5 * (tf - 76800))
    &&& fits_i64(hum_x1(c, tf, raw) - 4096)
    &&& fits_i64(hum_x1(c, tf, raw))
    &&& fits_i64(hum_x1(c, tf, raw) * c.h6)
    &&& fits_i64(((hum_x1(c, tf, raw) * c.h6) / 1024) * c.h3)
    &&& (x3 >= 0 ==> {
        &&& fits_i64(x3 * x3)
        &&& fits_i64(((x3 * x3) / 4096) * 16384)
        &&& fits_i64(x3 + (((x3 * x3) / 4096) * 16384) / 1024)
        &&& fits_i64(((x3 + (((x3 * x3) / 4096) * 16384) / 1024) / 4) * 100)
    })
}

/// The compensation state of a BME280: its calibration and the fine
/// temperature of the latest temperature sample.
#[derive(Debug, Clone, Copy, Default, PartialEq, Eq)]
pub struct Bme280Compensation {
    /// Calibration coefficients.
    pub calib: Bme280Calib,
    /// Fine temperature of the latest temperature sample.
    pub t_fine: i32,
}

impl Bme280Compensation {
    /// Compensates a 20-bit temperature sample: °C × 100; records the
    /// fine temperature.
    pub fn compensate_temp(&mut self, raw: u32) -> (r: i32)
        requires
            temp_fits(old(self).calib, raw as int),
        ensures
            final(self).calib == old(self).calib,
            final(self).t_fine == temp_fine(old(self).calib, raw as int),
            r == temp_c100(temp_fine(old(self).calib, raw as int)),
    {
        let c = self.calib;
        let t1 = c.t1 as i32;
        let t2 = c.t2 as i32;
        let t3 = c.t3 as i32;
        let var1 = ((raw / 8) as i32) - t1 * 2;
        let p = var1 * t2;
        let var2 = p >> 11i32;
        proof {
            lemma_shr32_11(p);
        }
        let half = var1 >> 1i32;
        proof {
            lemma_shr32_1(var1);
        }
        let sq = half * half;
        let var3 = sq >> 12i32;
        proof {
            lemma_shr32_12(sq);
        }
        let q = var3 * t3;
        let var3 = q >> 14i32;
        proof {
            lemma_shr32_14(q);
        }
        self.t_fine = var2 + var3;
        let s = self.t_fine * 5 + 128;
        proof {
            lemma_shr32_8(s);
        }
        s >> 8i32
    }

    /// Compensates a 20-bit pressure sample with the recorded fine
    /// temperature: pascals, or 0 when the formula's divisor is zero.
    pub fn compensate_pressure(&self, raw: u32) -> (r: i32)
        requires
            press_fits(self.calib, self.t_fine as int, raw as int),
        ensures
            press_divisor(self.calib, self.t_fine as int) == 0 ==> r == 0,
            press_divisor(self.calib, self.t_fine as int) != 0 ==> r == press_pa_wide(
                self.calib,
                self.t_fine as int,
                raw as int,
            ) as i32,
    {
        let c = self.calib;
        let tf = self.t_fine as i64;
        let ghost g = tf as int;
        let var1 = tf * 4 - 64000;
        let sq = var1 * var1;
        let a = sq >> 11i64;
        proof {
            lemma_shr64_11(sq);
        }
        let var2 = a * (c.p6 as i64);
        let b = var1 * (c.p5 as i64);
        let var2 = var2 + b * 2;
        let v2 = var2 >> 2i64;
        proof {
            lemma_shr64_2(var2);
        }
        let var2 = v2 + (c.p4 as i64) * 65536;
        let sq13 = sq >> 13i64;
        proof {
            lemma_shr64_13(sq);
        }
        let m3 = (c.p3 as i64) * sq13;
        let t3 = m3 >> 3i64;
        proof {
            lemma_shr64_3(m3);
        }
        let m2 = (c.p2 as i64) * var1;
        let t2 = m2 >> 1i64;
        proof {
            lemma_shr64_1(m2);
        }
        let s1 = t3 + t2;
        let var1 = s1 >> 18i64;
        proof {
            lemma_shr64_18(s1);
        }
        let m1 = (32768 + var1) * (c.p1 as i64);
        let var1 = m1 >> 15i64;
        proof {
            lemma_shr64_15(m1);
        }
        if var1 == 0 {
            return 0;
        }
        let v2s = var2 >> 12i64;
        proof {
            lemma_shr64_12(var2);
        }
        let p = ((1048576 - raw as i64) - v2s) * 3125;
        let num = p * 2;
        let p = if var1 > 0 {
            num / var1
        } else {
            let q = num / (-var1);
            -q
        };
        assert(p == press_quotient(c, g, raw as int));
        let p8 = p >> 3i64;
        proof {
            lemma_shr64_3(p);
        }
        let sqp = p8 * p8;
        let m9 = (c.p9 as i64) * sqp;
        let e9 = m9 >> 12i64;
        proof {
            lemma_shr64_12(m9);
        }
        let m8 = (c.p8 as i64) * p;
        let e8 = m8 >> 13i64;
        proof {
            lemma_shr64_13(m8);
        }
        let sum = e9 + e8 + (c.p7 as i64);
        let corr = sum >> 4i64;
        proof {
            lemma_shr64_4(sum);
        }
        let p = p + corr;
        p as i32
    }

    /// Compensates a humidity sample with the recorded fine temperature:
    /// % × 100, limited to 0..=10 000.
    pub fn compensate_humidity(&self, raw: u16) -> (r: i32)
        requires
            hum_fits(self.calib, self.t_fine as int, raw as int),
        ensures
            r == hum_c100(self.calib, self.t_fine as int, raw as int),
    {
        let c = self.calib;
        let tf = self.t_fine as i64;
        let h = tf - 76800;
        let x1 = (raw as i64) * 16384 - (c.h4 as i64) * 1048576 - (c.h5 as i64) * h + 4096;
        let m6 = x1 * (c.h6 as i64);
        let x2 = m6 >> 10i64;
        proof {
            lemma_shr64_10(m6);
        }
        let m3 = x2 * (c.h3 as i64);
        let x3 = m3 >> 11i64;
        proof {
            lemma_shr64_11(m3);
        }
        if x3 < 0 {
            return 0;
        }
        let sq = x3 * x3;
        let x4 = sq >> 12i64;
        proof {
            lemma_shr64_12(sq);
        }
        let m = x4 * 16384;
        let x5 = m >> 10i64;
        proof {
            lemma_shr64_10(m);
        }
        let x6 = x3 + x5;
        let q = x6 >> 2i64;
        proof {
            lemma_shr64_2(x6);
        }
        let v = q * 100;
        if v > 4294967296 {
            0
        } else if v > 10000 {
            10000
        } else {
            v as i32
        }
    }
}

/// The pressure sample of a data burst: the 20 high bits of bytes 0..3.
pub open spec fn burst_pressure(b: Seq<u8>) -> int {
    (65536 * b[0] + 256 * b[1] + b[2]) / 16
}

/// The temperature sample of a data burst: the 20 high bits of bytes 3..6.
pub open spec fn burst_temperature(b: Seq<u8>) -> int {
    (65536 * b[3] + 256 * b[4] + b[5]) / 16
}

/// The humidity sample of a data burst: big-endian bytes 6..8.
pub open spec fn burst_humidity(b: Seq<u8>) -> int {
    256 * b[6] + b[7]
}

/// The compensation arithmetic does not overflow for this burst.
pub open spec fn burst_fits(c: Bme280Calib, b: Seq<u8>) -> bool {
    let tf = temp_fine(c, burst_temperature(b));
    &&& temp_fits(c, burst_temperature(b))
    &&& press_fits(c, tf, burst_pressure(b))
    &&& hum_fits(c, tf, burst_humidity(b))
}

/// The pressure in pascals the formula gives, 0 for a zero divisor.
pub open spec fn press_pa(c: Bme280Calib, tf: int, raw: int) -> int {
    if press_divisor(c, tf) == 0 {
        0
    } else {
        press_pa_wide(c, tf, raw) as i32 as int
    }
}

impl Bme280Compensation {
    /// The barometer reading of an 8-byte data burst (pressure,
    /// temperature, humidity): the temperature is compensated first, its
    /// fine value then compensates pressure and humidity.
    pub fn reading_from_data(&mut self, buf: &[u8; 8]) -> (r: SensorReading)
        requires
            burst_fits(old(self).calib, buf@),
        ensures
            final(self).calib == old(self).calib,
            final(self).t_fine == temp_fine(old(self).calib, burst_temperature(buf@)),
            r.kind == SensorKind::Barometer,
            r.len == 12,
            ({
                let c = old(self).calib;
                let tf = temp_fine(c, burst_temperature(buf@));
                r.raw@ == le_bytes_i32(temp_c100(tf) as i32) + le_bytes_i32(
                    press_pa(c, tf, burst_pressure(buf@)) as i32,
                ) + le_bytes_i32(hum_c100(c, tf, burst_humidity(buf@)) as i32) + Seq::new(
                    20,
                    |i: int| 0u8,
                )
            }),
    {
        let raw_press = u32_from_3(buf.as_slice(), 0) / 16;
        let raw_temp = u32_from_3(buf.as_slice(), 3) / 16;
        let raw_hum = (buf[6] as u16) * 256 + (buf[7] as u16);
        let temp_c100 = self.compensate_temp(raw_temp);
        let press_pa = self.compensate_pressure(raw_press);
        let hum_c100 = self.compensate_humidity(raw_hum);
        pack_reading(temp_c100, press_pa, hum_c100)
    }
}

/// Floor of `x / d`.
fn floor_div(x: i128, d: i128) -> (q: i128)
    requires
        0 < d <= 0x1000000,
        -0x4000_0000_0000_0000_0000_0000_0000_0000 < x < 0x4000_0000_0000_0000_0000_0000_0000_0000,
    ensures
        q == (x as int) / (d as int),
        x >= 0 ==> 0 <= q <= x,
        x < 0 ==> x <= q < 0,
{
    if x >= 0 {
        let q = x / d;
        proof {
            lemma_quotient_bounds(x as int, q as int, d as int);
        }
        q
    } else {
        let n = -x + d - 1;
        let m = n / d;
        proof {
            lemma_negative_floor(x as int, n as int, m as int, d as int);
        }
        -m
    }
}

proof fn lemma_quotient_bounds(x: int, q: int, d: int)
    by (nonlinear_arith)
    requires
        x >= 0,
        d > 0,
        q == x / d,
    ensures
        0 <= q <= x,
{
}

proof fn lemma_negative_floor(x: int, n: int, m: int, d: int)
    by (nonlinear_arith)
    requires
        x < 0,
        d > 0,
        n == -x + d - 1,
        m == n / d,
    ensures
        -m == x / d,
        x <= -m < 0,
{
    assert(m * d <= n < m * d + d);
    lemma_floor_div(x, -m, d);
}

/// The product of two numbers of magnitude at most 2^63.
fn mul_wide(a: i128, b: i128) -> (r: i128)
    requires
        -0x8000_0000_0000_0000 <= a <= 0x8000_0000_0000_0000,
        -0x8000_0000_0000_0000 <= b <= 0x8000_0000_0000_0000,
    ensures
        r == a * b,
{
    proof {
        lemma_wide_product(a as int, b as int);
    }
    a * b
}

proof fn lemma_wide_product(a: int, b: int)
    by (nonlinear_arith)
    requires
        -0x8000_0000_0000_0000 <= a <= 0x8000_0000_0000_0000,
        -0x8000_0000_0000_0000 <= b <= 0x8000_0000_0000_0000,
    ensures
        -0x4000_0000_0000_0000_0000_0000_0000_0000 <= a * b <= 0x4000_0000_0000_0000_0000_0000_0000_0000,
{
}

fn in_i32(x: i128) -> (r: bool)
    ensures
        r == fits_i32(x as int),
{
    -2147483648 <= x && x <= 2147483647
}

fn in_i64(x: i128) -> (r: bool)
    ensures
        r == fits_i64(x as int),
{
    -9223372036854775808 <= x && x <= 9223372036854775807
}

/// Whether the compensation arithmetic of a data burst stays within the
/// formulas' integer widths, so that [`Bme280Compensation::reading_from_data`]
/// applies to it.
#[verifier::rlimit(60)]
pub fn burst_in_range(calib: &Bme280Calib, buf: &[u8; 8]) -> (r: bool)
    ensures
        r == burst_fits(*calib, buf@),
{
    let c = *calib;
    let raw_p = (u32_from_3(buf.as_slice(), 0) / 16) as i128;
    let raw_t = (u32_from_3(buf.as_slice(), 3) / 16) as i128;
    let raw_h = (buf[6] as i128) * 256 + (buf[7] as i128);
    let ghost gp = burst_pressure(buf@);
    let ghost gt = burst_temperature(buf@);
    let ghost gh = burst_humidity(buf@);
    assert(raw_p == gp && raw_t == gt && raw_h == gh);
    // Temperature.
    let var1 = raw_t / 8 - 2 * (c.t1 as i128);
    assert(var1 == temp_var1(c, gt));
    let a = mul_wide(var1, c.t2 as i128);
    if !in_i32(a) {
        return false;
    }
    let half = floor_div(var1, 2);
    let hh = mul_wide(half, half);
    if !in_i32(hh) {
        return false;
    }
    let sq = floor_div(hh, 4096);
    let b = mul_wide(sq, c.t3 as i128);
    if !in_i32(b) {
        return false;
    }
    let tf = floor_div(a, 2048) + floor_div(b, 16384);
    assert(tf == temp_fine(c, gt));
    if !in_i32(tf) {
        return false;
    }
    if !in_i32(tf * 5 + 128) {
        return false;
    }
    assert(temp_fits(c, gt));
    // Pressure.
    let v1 = tf * 4 - 64000;
    let sqp = mul_wide(v1, v1);
    if !in_i64(sqp) {
        return false;
    }
    let t = mul_wide(floor_div(sqp, 2048), c.p6 as i128);
    if !in_i64(t) {
        return false;
    }
    let u = mul_wide(v1, c.p5 as i128);
    if !in_i64(u) {
        return false;
    }
    if !in_i64(u * 2) {
        return false;
    }
    let v2a = t + u * 2;
    assert(v2a == press_var2a(c, tf as int));
    if !in_i64(v2a) {
        return false;
    }
    let v2 = floor_div(v2a, 4) + (c.p4 as i128) * 65536;
    assert(v2 == press_var2(c, tf as int));
    if !in_i64(v2) {
        return false;
    }
    let w = mul_wide(c.p3 as i128, floor_div(sqp, 8192));
    if !in_i64(w) {
        return false;
    }
    let x = mul_wide(c.p2 as i128, v1);
    if !in_i64(x) {
        return false;
    }
    let v1b = floor_div(w, 8) + floor_div(x, 2);
    assert(v1b == press_var1b(c, tf as int));
    if !in_i64(v1b) {
        return false;
    }
    let m = mul_wide(32768 + floor_div(v1b, 262144), c.p1 as i128);
    if !in_i64(m) {
        return false;
    }
    let d = floor_div(m, 32768);
    assert(d == press_divisor(c, tf as int));
    if d != 0 {
        let base = mul_wide((1048576 - raw_p) - floor_div(v2, 4096), 3125);
        assert(base == press_base(c, tf as int, gp));
        if !in_i64(base) {
            return false;
        }
        if !in_i64(base * 2) {
            return false;
        }
        let num = base * 2;
        let q = if d > 0 {
            num / d
        } else {
            let e = num / (-d);
            -e
        };
        assert(q == press_quotient(c, tf as int, gp));
        if !in_i64(q) {
            return false;
        }
        let q8 = floor_div(q, 8);
        let sq8 = mul_wide(q8, q8);
        if !in_i64(sq8) {
            return false;
        }
        let e9 = mul_wide(c.p9 as i128, sq8);
        if !in_i64(e9) {
            return false;
        }
        let e8 = mul_wide(c.p8 as i128, q);
        if !in_i64(e8) {
            return false;
        }
        let g = floor_div(e9, 4096) + floor_div(e8, 8192) + (c.p7 as i128);
        assert(g == press_corr9(c, tf as int, gp) + press_corr8(c, tf as int, gp) + c.p7);
        if !in_i64(g) {
            return false;
        }
        let pa = q + floor_div(g, 16);
        assert(pa == press_pa_wide(c, tf as int, gp));
        if !in_i64(pa) {
            return false;
        }
    }
    assert(press_fits(c, tf as int, gp));
    // Humidity.
    let ha = mul_wide(c.h5 as i128, tf - 76800);
    if !in_i64(ha) {
        return false;
    }
    let x1 = raw_h * 16384 - (c.h4 as i128) * 1048576 - ha + 4096;
    assert(x1 == hum_x1(c, tf as int, gh));
    if !in_i64(x1 - 4096) {
        return false;
    }
    if !in_i64(x1) {
        return false;
    }
    let y = mul_wide(x1, c.h6 as i128);
    if !in_i64(y) {
        return false;
    }
    let z = mul_wide(floor_div(y, 1024), c.h3 as i128);
    if !in_i64(z) {
        return false;
    }
    let x3 = floor_div(z, 2048);
    assert(x3 == hum_x3(c, tf as int, gh));
    if x3 >= 0 {
        let s3 = mul_wide(x3, x3);
        if !in_i64(s3) {
            return false;
        }
        let s4 = mul_wide(floor_div(s3, 4096), 16384);
        if !in_i64(s4) {
            return false;
        }
        let s5 = x3 + floor_div(s4, 1024);
        if !in_i64(s5) {
            return false;
        }
        let s6 = mul_wide(floor_div(s5, 4), 100);
        if !in_i64(s6) {
            return false;
        }
    }
    true
}

} // verus!
