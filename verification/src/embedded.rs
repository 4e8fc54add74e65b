//! The flight controller's sensor layer: sensor kinds and readings,
//! fixed-capacity strings, the sensor error, the driver interface with its
//! host-side drivers, and the task configuration.
use vstd::prelude::*;
use vstd::string::*;
use vstd::utf8::{decode_utf8, valid_utf8};

verus! {

/// Kind of sensor a driver reads.
#[derive(Debug, Clone, Copy, PartialEq, Eq, Hash, Structural)]
pub enum SensorKind {
    /// GPS receiver.
    Gps,
    /// Barometer.
    Barometer,
    /// Inertial measurement unit.
    Imu,
}

/// One reading: the kind and up to 32 raw bytes.
#[derive(Debug, Clone, PartialEq, Eq)]
pub struct SensorReading {
    /// Source sensor kind.
    pub kind: SensorKind,
    /// Raw reading bytes.
    pub raw: [u8; 32],
    /// Number of valid bytes in `raw`.
    pub len: u8,
}

/// Calls `core::str::from_utf8`: the bytes as text when they are valid
/// UTF-8, which the documentation states is exactly when it succeeds.
#[verifier::external_body]
fn utf8_text(bytes: &[u8]) -> (r: Option<&str>)
    ensures
        match r {
            Some(s) => valid_utf8(bytes@) && s@ == decode_utf8(bytes@),
            None => !valid_utf8(bytes@),
        },
{
    core::str::from_utf8(bytes).ok()
}

/// Fixed-capacity text: at most 64 bytes, without allocation.
#[derive(Debug, PartialEq, Eq)]
pub struct HeapString {
    buf: [u8; 64],
    len: u8,
}

/// The text a stored byte sequence reads as: empty unless the bytes are
/// valid UTF-8.
pub open spec fn heap_text(bytes: Seq<u8>) -> Seq<char> {
    if bytes.len() > 0 && valid_utf8(bytes) {
        decode_utf8(bytes)
    } else {
        Seq::empty()
    }
}

impl View for HeapString {
    type V = Seq<u8>;

    closed spec fn view(&self) -> Seq<u8> {
        self.buf@.take(self.len as int)
    }
}

impl HeapString {
    #[verifier::type_invariant]
    spec fn wf(self) -> bool {
        self.is_padded()
    }

    /// The stored length is within the capacity and every byte of the
    /// buffer past the stored bytes is zero.
    pub closed spec fn is_padded(self) -> bool {
        &&& self.len <= 64
        &&& forall|k: int| self.len <= k < 64 ==> self.buf[k] == 0
    }

    /// The first 64 bytes of `s` (all of it when shorter), zero-padded.
    pub fn new(s: &str) -> (r: Self)
        ensures
            r.is_padded(),
            r@ == s.spec_bytes().take(if s.spec_bytes().len() < 64 {
                s.spec_bytes().len() as int
            } else {
                64
            }),
    {
        let bytes = s.as_bytes();
        let n = if bytes.len() < 64 {
            bytes.len()
        } else {
            64
        };
        let mut buf = [0u8; 64];
        let mut i: usize = 0;
        while i < n
            invariant
                n <= 64,
                n <= bytes@.len(),
                bytes@ == s.spec_bytes(),
                i <= n,
                buf@.len() == 64,
                forall|k: int| 0 <= k < i ==> buf@[k] == bytes@[k],
                forall|k: int| n <= k < 64 ==> buf@[k] == 0,
            decreases n - i,
        {
            buf[i] = bytes[i];
            i += 1;
        }
        let r = HeapString { buf, len: n as u8 };
        assert(r@ =~= s.spec_bytes().take(n as int));
        r
    }

    /// A zero-padded copy of at most 64 `bytes`.
    pub(crate) fn from_ascii(bytes: &[u8]) -> (r: Self)
        requires
            bytes@.len() <= 64,
        ensures
            r.is_padded(),
            r@ == bytes@,
    {
        let n = bytes.len();
        let mut buf = [0u8; 64];
        let mut i: usize = 0;
        while i < n
            invariant
                n == bytes@.len(),
                n <= 64,
                i <= n,
                buf@.len() == 64,
                forall|k: int| 0 <= k < i ==> buf@[k] == bytes@[k],
                forall|k: int| n <= k < 64 ==> buf@[k] == 0,
            decreases n - i,
        {
            buf[i] = bytes[i];
            i += 1;
        }
        let r = HeapString { buf, len: n as u8 };
        assert(r@ =~= bytes@);
        r
    }

    /// The stored text; empty when the stored bytes are not valid UTF-8
    /// (a multi-byte character cut at the capacity).
    pub fn as_str(&self) -> (r: &str)
        ensures
            r@ == heap_text(self@),
    {
        proof {
            use_type_invariant(self);
        }
        let end = self.len as usize;
        if end == 0 {
            proof {
                reveal_strlit("");
            }
            return "";
        }
        let bytes = vstd::slice::slice_subrange(self.buf.as_slice(), 0, end);
        assert(bytes@ =~= self@);
        match utf8_text(bytes) {
            Some(s) => s,
            None => {
                proof {
                    reveal_strlit("");
                }
                ""
            },
        }
    }
}

impl Clone for HeapString {
    fn clone(&self) -> (r: Self)
        ensures
            r == *self,
    {
        proof {
            use_type_invariant(self);
        }
        HeapString { buf: self.buf, len: self.len }
    }
}

/// Stored texts are zero-padded, so two of them are equal exactly when
/// their stored bytes are: `HeapString::new(a) == HeapString::new(b)`
/// exactly when the first 64 bytes of `a` and of `b` agree.
pub proof fn lemma_padded_texts_equal(a: HeapString, b: HeapString)
    requires
        a.is_padded(),
        b.is_padded(),
    ensures
        (a == b) <==> (a@ == b@),
{
    broadcast use vstd::array::axiom_array_ext_equal;

    if a@ == b@ {
        assert(a@.len() == a.len as int);
        assert(b@.len() == b.len as int);
        assert forall|k: int| 0 <= k < 64 implies a.buf[k] == b.buf[k] by {
            if k < a.len {
                assert(a@[k] == a.buf[k]);
                assert(b@[k] == b.buf[k]);
            }
        }
        assert(a.buf =~= b.buf);
    }
}

/// A text of 1 to 64 bytes is kept whole: the stored bytes read back as
/// the text.
pub proof fn lemma_short_text_kept(s: &str)
    requires
        0 < s.spec_bytes().len() <= 64,
    ensures
        heap_text(s.spec_bytes().take(s.spec_bytes().len() as int)) == s@,
{
    broadcast use vstd::utf8::encode_utf8_valid_utf8, vstd::utf8::encode_utf8_decode_utf8;

    assert(s.spec_bytes().take(s.spec_bytes().len() as int) =~= s.spec_bytes());
}

/// A fixed-capacity copy of `s`.
pub fn heap_string(s: &str) -> (r: HeapString)
    ensures
        r.is_padded(),
        r@ == s.spec_bytes().take(if s.spec_bytes().len() < 64 {
            s.spec_bytes().len() as int
        } else {
            64
        }),
{
    HeapString::new(s)
}

/// Errors raised by a sensor driver.
#[derive(Debug, Clone, PartialEq, Eq)]
pub enum SensorError {
    /// Bus-level failure, with a short descriptor.
    BusError(HeapString),
    /// The read did not complete in time.
    Timeout,
    /// The sensor did not respond.
    SensorNotResponding,
    /// The reading failed validation.
    InvalidReading(HeapString),
    /// The sensor needs calibration.
    CalibrationRequired,
}

/// The message of a sensor error.
pub open spec fn sensor_error_message(e: SensorError) -> Seq<char> {
    match e {
        SensorError::BusError(s) => "bus error: "@ + heap_text(s@),
        SensorError::Timeout => "sensor read timeout"@,
        SensorError::SensorNotResponding => "sensor not responding"@,
        SensorError::InvalidReading(s) => "invalid reading: "@ + heap_text(s@),
        SensorError::CalibrationRequired => "calibration required"@,
    }
}

impl SensorError {
    /// The message of this error.
    pub fn to_string(&self) -> (s: String)
        ensures
            s@ == sensor_error_message(*self),
    {
        match self {
            SensorError::BusError(h) => {
                let mut s = String::from_str("bus error: ");
                s.append(h.as_str());
                s
            },
            SensorError::Timeout => String::from_str("sensor read timeout"),
            SensorError::SensorNotResponding => String::from_str("sensor not responding"),
            SensorError::InvalidReading(h) => {
                let mut s = String::from_str("invalid reading: ");
                s.append(h.as_str());
                s
            },
            SensorError::CalibrationRequired => String::from_str("calibration required"),
        }
    }
}

/// A sensor driver: reads samples of one kind at a configured rate.
pub trait SensorDriver {
    /// Reads one sample.
    fn read(&mut self) -> Result<SensorReading, SensorError>;

    /// The kind of sensor read.
    fn kind(&self) -> SensorKind;

    /// The configured read rate in hertz.
    fn rate_hz(&self) -> u32;
}

/// An empty reading of `kind`.
pub open spec fn empty_reading(r: SensorReading, kind: SensorKind) -> bool {
    r.kind == kind && r.len == 0 && r.raw@ == Seq::new(32, |i: int| 0u8)
}

fn blank_reading(kind: SensorKind) -> (r: SensorReading)
    ensures
        empty_reading(r, kind),
{
    let r = SensorReading { kind, raw: [0u8; 32], len: 0 };
    assert(r.raw@ =~= Seq::new(32, |i: int| 0u8));
    r
}

/// Host-side GPS driver: every read yields an empty GPS reading.
#[derive(Debug, Clone, Copy)]
pub struct GpsDriver {
    /// Configured read rate (Hz).
    pub rate_hz: u32,
}

impl GpsDriver {
    /// A GPS driver at `rate_hz`.
    pub fn new(rate_hz: u32) -> (r: Self)
        ensures
            r.rate_hz == rate_hz,
    {
        GpsDriver { rate_hz }
    }
}

impl SensorDriver for GpsDriver {
    fn read(&mut self) -> (r: Result<SensorReading, SensorError>)
        ensures
            r matches Ok(x) && empty_reading(x, SensorKind::Gps),
            *final(self) == *old(self),
    {
        Ok(blank_reading(SensorKind::Gps))
    }

    fn kind(&self) -> (k: SensorKind)
        ensures
            k == SensorKind::Gps,
    {
        SensorKind::Gps
    }

    fn rate_hz(&self) -> (r: u32)
        ensures
            r == self.rate_hz,
    {
        self.rate_hz
    }
}

/// Host-side barometer driver: every read yields an empty barometer reading.
#[derive(Debug, Clone, Copy)]
pub struct BaroDriver {
    /// Configured read rate (Hz).
    pub rate_hz: u32,
}

impl BaroDriver {
    /// A barometer driver at `rate_hz`.
    pub fn new(rate_hz: u32) -> (r: Self)
        ensures
            r.rate_hz == rate_hz,
    {
        BaroDriver { rate_hz }
    }
}

impl SensorDriver for BaroDriver {
    fn read(&mut self) -> (r: Result<SensorReading, SensorError>)
        ensures
            r matches Ok(x) && empty_reading(x, SensorKind::Barometer),
            *final(self) == *old(self),
    {
        Ok(blank_reading(SensorKind::Barometer))
    }

    fn kind(&self) -> (k: SensorKind)
        ensures
            k == SensorKind::Barometer,
    {
        SensorKind::Barometer
    }

    fn rate_hz(&self) -> (r: u32)
        ensures
            r == self.rate_hz,
    {
        self.rate_hz
    }
}

/// Host-side IMU driver: every read yields an empty IMU reading.
#[derive(Debug, Clone, Copy)]
pub struct ImuDriver {
    /// Configured read rate (Hz).
    pub rate_hz: u32,
}

impl ImuDriver {
    /// An IMU driver at `rate_hz`.
    pub fn new(rate_hz: u32) -> (r: Self)
        ensures
            r.rate_hz == rate_hz,
    {
        ImuDriver { rate_hz }
    }
}

impl SensorDriver for ImuDriver {
    fn read(&mut self) -> (r: Result<SensorReading, SensorError>)
        ensures
            r matches Ok(x) && empty_reading(x, SensorKind::Imu),
            *final(self) == *old(self),
    {
        Ok(blank_reading(SensorKind::Imu))
    }

    fn kind(&self) -> (k: SensorKind)
        ensures
            k == SensorKind::Imu,
    {
        SensorKind::Imu
    }

    fn rate_hz(&self) -> (r: u32)
        ensures
            r == self.rate_hz,
    {
        self.rate_hz
    }
}

/// GPS sample rate in hertz.
pub const GPS_RATE_HZ: u32 = 10;

/// Barometer sample rate in hertz.
pub const BARO_RATE_HZ: u32 = 50;

/// IMU sample rate in hertz.
pub const IMU_RATE_HZ: u32 = 200;

/// Telemetry publish rate in hertz.
pub const TELEMETRY_RATE_HZ: u32 = 10;

/// Inference rate in hertz.
pub const INFERENCE_RATE_HZ: u32 = 5;

/// Main loop period in milliseconds (the IMU period).
pub const MAIN_LOOP_MS: u64 = 5;

/// Capacity of each sensor-to-estimator channel.
pub const SENSOR_CHANNEL_CAPACITY: usize = 8;

/// The subjects telemetry is published on, in order.
pub fn telemetry_subjects() -> (r: [&'static str; 4])
    ensures
        r[0]@ == "vehicle.state_estimate"@,
        r[1]@ == "vehicle.covariance"@,
        r[2]@ == "vehicle.controller_state"@,
        r[3]@ == "vehicle.diagnostics"@,
{
    ["vehicle.state_estimate", "vehicle.covariance", "vehicle.controller_state", "vehicle.diagnostics"]
}

/// A sensor reading tagged with its sensor kind, for the estimator.
#[derive(Debug, Clone, PartialEq, Eq)]
pub struct TaggedReading {
    /// The sensor kind.
    pub kind: SensorKind,
    /// The reading.
    pub reading: SensorReading,
}

} // verus!
