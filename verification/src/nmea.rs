//! NMEA 0183 sentences from the GPS receiver: checksum validation, the
//! byte-at-a-time sentence assembler of the UART reader, and the GPS
//! reading a sentence becomes.
use vstd::prelude::*;

use crate::embedded::{HeapString, SensorError, SensorKind, SensorReading};

verus! {

/// Longest NMEA sentence kept, in bytes.
pub const NMEA_MAX_LEN: usize = 82;

/// The value of a hexadecimal digit character, either case.
pub open spec fn hex_value(c: u8) -> Option<u8> {
    if 48 <= c <= 57 {
        Some((c - 48) as u8)
    } else if 65 <= c <= 70 {
        Some((c - 65 + 10) as u8)
    } else if 97 <= c <= 102 {
        Some((c - 97 + 10) as u8)
    } else {
        None
    }
}

/// The value of hexadecimal digit `c`, if it is one.
pub fn hex_val(c: u8) -> (r: Option<u8>)
    ensures
        r == hex_value(c),
{
    if 48 <= c && c <= 57 {
        Some(c - 48)
    } else if 65 <= c && c <= 70 {
        Some(c - 65 + 10)
    } else if 97 <= c && c <= 102 {
        Some(c - 97 + 10)
    } else {
        None
    }
}

/// The first position at or after `i` where `s` holds `b`.
pub open spec fn find_from(s: Seq<u8>, b: u8, i: int) -> Option<int>
    decreases s.len() - i,
{
    if i < 0 || i >= s.len() {
        None
    } else if s[i] == b {
        Some(i)
    } else {
        find_from(s, b, i + 1)
    }
}

/// A position found is at or after the start and holds the byte; no
/// earlier position from the start does.
pub proof fn lemma_find_from(s: Seq<u8>, b: u8, i: int)
    requires
        0 <= i,
    ensures
        match find_from(s, b, i) {
            Some(j) => i <= j < s.len() && s[j] == b && forall|k: int| i <= k < j ==> s[k] != b,
            None => forall|k: int| i <= k < s.len() ==> s[k] != b,
        },
    decreases s.len() - i,
{
    if i < s.len() && s[i] != b {
        lemma_find_from(s, b, i + 1);
    }
}

/// The first position of `byte` in `slice`.
pub fn find_byte(slice: &[u8], byte: u8) -> (r: Option<usize>)
    ensures
        match r {
            Some(i) => find_from(slice@, byte, 0) == Some(i as int),
            None => find_from(slice@, byte, 0) is None,
        },
{
    let n = slice.len();
    let mut i: usize = 0;
    while i < n
        invariant
            n == slice@.len(),
            i <= n,
            find_from(slice@, byte, 0) == find_from(slice@, byte, i as int),
        decreases n - i,
    {
        if slice[i] == byte {
            return Some(i);
        }
        i += 1;
    }
    None
}

/// The exclusive-or of all bytes of `s`.
pub open spec fn xor_fold(s: Seq<u8>) -> u8
    decreases s.len(),
{
    if s.len() == 0 {
        0
    } else {
        xor_fold(s.drop_last()) ^ s.last()
    }
}

/// Whether `s` is a checksummed NMEA sentence: at least 6 bytes, a
/// leading `$`, a trailing CR LF, a `*` followed by two hexadecimal digits
/// and at least one more byte, and the exclusive-or of the bytes between
/// `$` and the first `*` equal to the value of those digits.
pub open spec fn checksum_valid(s: Seq<u8>) -> bool {
    if s.len() < 6 || s[0] != 36 || s[s.len() - 2] != 13 || s[s.len() - 1] != 10 {
        false
    } else {
        match find_from(s, 42, 0) {
            None => false,
            Some(star) => if star + 4 > s.len() {
                false
            } else {
                match (hex_value(s[star + 1]), hex_value(s[star + 2])) {
                    (Some(hi), Some(lo)) => xor_fold(s.subrange(1, star)) == ((hi << 4u8) | lo),
                    _ => false,
                }
            },
        }
    }
}

/// Whether `sentence` carries a valid NMEA checksum.
pub fn validate_checksum(sentence: &[u8]) -> (r: bool)
    ensures
        r == checksum_valid(sentence@),
{
    if sentence.len() < 6 {
        return false;
    }
    if sentence[0] != 36 {
        return false;
    }
    if sentence[sentence.len() - 2] != 13 || sentence[sentence.len() - 1] != 10 {
        return false;
    }
    let star = match find_byte(sentence, 42) {
        Some(p) => p,
        None => {
            return false;
        },
    };
    proof {
        lemma_find_from(sentence@, 42, 0);
    }
    if star > sentence.len() - 4 {
        return false;
    }
    let mut checksum: u8 = 0;
    let mut i: usize = 1;
    assert(sentence@.subrange(1, 1) =~= Seq::<u8>::empty());
    while i < star
        invariant
            1 <= i <= star,
            star < sentence@.len(),
            checksum == xor_fold(sentence@.subrange(1, i as int)),
        decreases star - i,
    {
        assert(sentence@.subrange(1, i + 1).drop_last() =~= sentence@.subrange(1, i as int));
        checksum = checksum ^ sentence[i];
        i += 1;
    }
    let hi = hex_val(sentence[star + 1]);
    let lo = hex_val(sentence[star + 2]);
    match (hi, lo) {
        (Some(h), Some(l)) => checksum == ((h << 4u8) | l),
        _ => false,
    }
}

/// The bytes of the note `checksum`.
pub open spec fn checksum_note() -> Seq<u8> {
    seq![99u8, 104, 101, 99, 107, 115, 117, 109]
}

/// The assembler's state after byte `b`: a `$` starts a new sentence;
/// bytes are kept while there is room.
pub open spec fn nmea_after(acc: Seq<u8>, b: u8) -> Seq<u8> {
    let start = if b == 36 {
        Seq::empty()
    } else {
        acc
    };
    if start.len() < 82 {
        start.push(b)
    } else {
        start
    }
}

/// Assembles NMEA sentences from the bytes a UART delivers, one at a
/// time.
#[derive(Debug)]
pub struct NmeaAssembler {
    buf: [u8; 82],
    len: usize,
}

impl View for NmeaAssembler {
    type V = Seq<u8>;

    closed spec fn view(&self) -> Seq<u8> {
        self.buf@.take(self.len as int)
    }
}

impl NmeaAssembler {
    /// Whether the kept length is within the buffer.
    pub closed spec fn wf(&self) -> bool {
        self.len <= 82
    }

    /// An assembler holding nothing.
    pub fn new() -> (r: Self)
        ensures
            r.wf(),
            r@ == Seq::<u8>::empty(),
    {
        NmeaAssembler { buf: [0u8; 82], len: 0 }
    }

    /// Feeds byte `b`. A line feed that ends at least 6 kept bytes ends a
    /// sentence: the kept bytes when their checksum is valid, an invalid
    /// reading otherwise. The kept bytes stay until the next `$`.
    pub fn push_byte(&mut self, b: u8) -> (r: Option<Result<Vec<u8>, SensorError>>)
        requires
            old(self).wf(),
        ensures
            final(self).wf(),
            final(self)@ == nmea_after(old(self)@, b),
            (b == 10 && final(self)@.len() >= 6) ==> (if checksum_valid(final(self)@) {
                r matches Some(Ok(v)) && v@ == final(self)@
            } else {
                r matches Some(Err(SensorError::InvalidReading(h))) && h@ == checksum_note()
            }),
            !(b == 10 && final(self)@.len() >= 6) ==> r is None,
    {
        if b == 36 {
            self.len = 0;
        }
        if self.len < 82 {
            self.buf[self.len] = b;
            self.len = self.len + 1;
        }
        proof {
            let start = if b == 36 {
                Seq::<u8>::empty()
            } else {
                old(self)@
            };
            assert(self@ =~= nmea_after(old(self)@, b));
        }
        if b == 10 && self.len >= 6 {
            let sentence = vstd::slice::slice_subrange(self.buf.as_slice(), 0, self.len);
            assert(sentence@ =~= self@);
            if validate_checksum(sentence) {
                let v = vstd::slice::slice_to_vec(sentence);
                return Some(Ok(v));
            }
            let note: [u8; 8] = [99, 104, 101, 99, 107, 115, 117, 109];
            return Some(Err(SensorError::InvalidReading(HeapString::from_ascii(note.as_slice()))));
        }
        None
    }
}

/// The GPS reading of a sentence: its first 32 bytes (all of it when
/// shorter), zero-filled.
pub open spec fn gps_reading_of(r: SensorReading, sentence: Seq<u8>) -> bool {
    let k = if sentence.len() < 32 {
        sentence.len() as int
    } else {
        32
    };
    &&& r.kind == SensorKind::Gps
    &&& r.len == k
    &&& r.raw@ == sentence.take(k) + Seq::new((32 - k) as nat, |i: int| 0u8)
}

/// The GPS reading carrying `sentence`.
pub fn gps_reading(sentence: &[u8]) -> (r: SensorReading)
    ensures
        gps_reading_of(r, sentence@),
{
    let k = if sentence.len() < 32 {
        sentence.len()
    } else {
        32
    };
    let mut raw = [0u8; 32];
    let mut i: usize = 0;
    while i < k
        invariant
            k <= 32,
            k <= sentence@.len(),
            i <= k,
            raw@.len() == 32,
            forall|j: int| 0 <= j < i ==> raw@[j] == sentence@[j],
            forall|j: int| i <= j < 32 ==> raw@[j] == 0u8,
        decreases k - i,
    {
        raw[i] = sentence[i];
        i += 1;
    }
    let r = SensorReading { kind: SensorKind::Gps, raw, len: k as u8 };
    assert(r.raw@ =~= sentence@.take(k as int) + Seq::new((32 - k) as nat, |j: int| 0u8));
    r
}

// ===========================================================================
// Laws
// ===========================================================================

/// `c` is a hexadecimal digit character: `0-9`, `A-F` or `a-f`.
pub open spec fn is_hex_digit(c: u8) -> bool {
    (48 <= c <= 57) || (65 <= c <= 70) || (97 <= c <= 102)
}

/// The number a hexadecimal digit character stands for (`A`/`a` is 10,
/// ..., `F`/`f` is 15).
pub open spec fn hex_digit_value(c: u8) -> int {
    if c <= 57 {
        c - 48
    } else if c <= 70 {
        c - 55
    } else {
        c - 87
    }
}

/// `hex_val` reads every hexadecimal digit, in either case, as the number
/// it stands for, and nothing else as a digit.
pub proof fn lemma_hex_value_digits(c: u8)
    ensures
        hex_value(c) is Some <==> is_hex_digit(c),
        is_hex_digit(c) ==> hex_value(c) == Some(hex_digit_value(c) as u8),
        is_hex_digit(c) ==> 0 <= hex_digit_value(c) < 16,
{
}

/// With its first `*` at position `p`, a sentence is accepted exactly
/// when it is at least 6 bytes long, starts with `$`, ends in CR LF, has
/// at least one byte after the two characters that follow `*`, those two
/// are hexadecimal digits, and their value, high digit first, is the
/// exclusive-or of the bytes between `$` and `*`.
pub proof fn lemma_checksum_valid_exactly(s: Seq<u8>, p: int)
    requires
        0 <= p < s.len(),
        s[p] == 42,
        forall|k: int| 0 <= k < p ==> s[k] != 42,
    ensures
        checksum_valid(s) <==> {
            &&& s.len() >= 6
            &&& s[0] == 36
            &&& s[s.len() - 2] == 13
            &&& s[s.len() - 1] == 10
            &&& p + 4 <= s.len()
            &&& is_hex_digit(s[p + 1])
            &&& is_hex_digit(s[p + 2])
            &&& xor_fold(s.subrange(1, p)) == 16 * hex_digit_value(s[p + 1]) + hex_digit_value(
                s[p + 2],
            )
        },
{
    lemma_find_from(s, 42, 0);
    match find_from(s, 42, 0) {
        Some(j) => {
            assert(j == p);
        },
        None => {
            assert(s[p] != 42);
        },
    }
    if p + 4 <= s.len() {
        let a = s[p + 1];
        let b = s[p + 2];
        lemma_hex_value_digits(a);
        lemma_hex_value_digits(b);
        if is_hex_digit(a) && is_hex_digit(b) {
            let h = hex_digit_value(a) as u8;
            let l = hex_digit_value(b) as u8;
            assert(h < 16 && l < 16);
            assert(((h << 4u8) | l) == h * 16 + l) by (bit_vector)
                requires
                    h < 16 && l < 16,
            ;
        }
    }
}

/// A sentence without `*` is never accepted.
pub proof fn lemma_checksum_needs_star(s: Seq<u8>)
    requires
        forall|k: int| 0 <= k < s.len() ==> s[k] != 42,
    ensures
        !checksum_valid(s),
{
    lemma_find_from(s, 42, 0);
}

} // verus!
