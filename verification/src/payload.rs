//! Allocation-bounded formatting of telemetry payloads into caller-owned
//! byte buffers: bounded writes of byte strings and decimal numbers, and
//! the diagnostics JSON payload.
use vstd::prelude::*;

verus! {

/// Size of the MQTT session's transmit buffer.
pub const MQTT_TX_BUF_SIZE: usize = 1024;

/// Size of the MQTT session's receive buffer.
pub const MQTT_RX_BUF_SIZE: usize = 512;

/// Size of a telemetry payload buffer.
pub const PAYLOAD_BUF_SIZE: usize = 256;

/// `b` with `s` written over it from `offset` on.
pub open spec fn overwrite(b: Seq<u8>, offset: int, s: Seq<u8>) -> Seq<u8> {
    b.subrange(0, offset) + s + b.subrange(offset + s.len(), b.len() as int)
}

/// Writing `s` at `offset`: all of it when it fits behind a valid
/// offset, else nothing. The new buffer and the offset after the write.
pub open spec fn put_str(b: Seq<u8>, offset: int, s: Seq<u8>) -> (Seq<u8>, int) {
    if offset < b.len() && offset + s.len() <= b.len() {
        (overwrite(b, offset, s), offset + s.len())
    } else {
        (b, offset)
    }
}

/// The ASCII decimal digits of `n`, without leading zeros.
pub open spec fn decimal_digits(n: nat) -> Seq<u8>
    decreases n,
{
    if n < 10 {
        seq![(48 + n) as u8]
    } else {
        decimal_digits(n / 10).push((48 + n % 10) as u8)
    }
}

/// Writing bytes `d` at `offset`, cut at the end of the buffer; nothing
/// when the offset is past the end.
pub open spec fn put_clipped(b: Seq<u8>, offset: int, d: Seq<u8>) -> (Seq<u8>, int) {
    if offset >= b.len() {
        (b, offset)
    } else {
        let k = if d.len() <= b.len() - offset {
            d.len() as int
        } else {
            b.len() - offset
        };
        (overwrite(b, offset, d.take(k)), offset + k)
    }
}

/// Writing the decimal digits of `n` at `offset`, cut at the end of the
/// buffer.
pub open spec fn put_decimal(b: Seq<u8>, offset: int, n: nat) -> (Seq<u8>, int) {
    put_clipped(b, offset, decimal_digits(n))
}

/// The significant digits of `n`: none for zero.
pub open spec fn significant_digits(n: nat) -> Seq<u8> {
    if n == 0 {
        Seq::empty()
    } else {
        decimal_digits(n)
    }
}

/// The digits of `n` left-padded with `0` to at least `width` digits.
pub open spec fn padded_digits(n: nat, width: nat) -> Seq<u8> {
    let d = significant_digits(n);
    let pad = if width > d.len() {
        width - d.len()
    } else {
        0
    };
    Seq::new(pad as nat, |i: int| 48u8) + d
}

fn copy_clipped(buf: &mut [u8], offset: usize, d: &Vec<u8>) -> (r: usize)
    requires
        offset < old(buf)@.len(),
    ensures
        (final(buf)@, r as int) == put_clipped(old(buf)@, offset as int, d@),
{
    let n = buf.len();
    let remaining = n - offset;
    let k = if d.len() <= remaining {
        d.len()
    } else {
        remaining
    };
    let mut i: usize = 0;
    while i < k
        invariant
            n == buf@.len(),
            n == old(buf)@.len(),
            offset < n,
            k <= n - offset,
            k <= d@.len(),
            i <= k,
            forall|j: int| 0 <= j < offset + i ==> buf@[j] == (if j < offset {
                old(buf)@[j]
            } else {
                d@[j - offset]
            }),
            forall|j: int| offset + i <= j < n ==> buf@[j] == old(buf)@[j],
        decreases k - i,
    {
        buf[offset + i] = d[i];
        i += 1;
    }
    assert(buf@ =~= overwrite(old(buf)@, offset as int, d@.take(k as int)));
    offset + k
}

/// Writes `s` into `buf` at `offset` when it fits there; returns the
/// offset after the write, or `offset` unchanged when nothing was written.
pub fn write_str(buf: &mut [u8], offset: usize, s: &[u8]) -> (r: usize)
    ensures
        (final(buf)@, r as int) == put_str(old(buf)@, offset as int, s@),
{
    let n = buf.len();
    if offset >= n {
        return offset;
    }
    if s.len() > n - offset {
        return offset;
    }
    let k = s.len();
    let mut i: usize = 0;
    while i < k
        invariant
            n == buf@.len(),
            n == old(buf)@.len(),
            offset < n,
            k == s@.len(),
            k <= n - offset,
            i <= k,
            forall|j: int| 0 <= j < offset + i ==> buf@[j] == (if j < offset {
                old(buf)@[j]
            } else {
                s@[j - offset]
            }),
            forall|j: int| offset + i <= j < n ==> buf@[j] == old(buf)@[j],
        decreases k - i,
    {
        buf[offset + i] = s[i];
        i += 1;
    }
    assert(buf@ =~= overwrite(old(buf)@, offset as int, s@));
    offset + k
}

/// Appends the decimal digits of `n` to `out`.
fn push_decimal(out: &mut Vec<u8>, n: u64)
    ensures
        final(out)@ == old(out)@ + decimal_digits(n as nat),
    decreases n,
{
    if n >= 10 {
        push_decimal(out, n / 10);
    }
    let d = (n % 10) as u8;
    out.push(48 + d);
    proof {
        if n >= 10 {
            assert(final(out)@ =~= old(out)@ + decimal_digits(n as nat));
        } else {
            assert(final(out)@ =~= old(out)@ + decimal_digits(n as nat));
        }
    }
}

/// Writes the decimal digits of `val` into `buf` at `offset`, cut at the
/// end of the buffer; returns the offset after the last digit written.
pub fn write_u64_dec(buf: &mut [u8], offset: usize, val: u64) -> (r: usize)
    ensures
        (final(buf)@, r as int) == put_decimal(old(buf)@, offset as int, val as nat),
{
    if offset >= buf.len() {
        return offset;
    }
    let mut digits: Vec<u8> = Vec::new();
    push_decimal(&mut digits, val);
    assert(digits@ =~= decimal_digits(val as nat));
    copy_clipped(buf, offset, &digits)
}

/// Writes `val` left-padded with `0` to at least `width` digits into
/// `buf` at `offset`, cut at the end of the buffer; zero itself has no
/// significant digit. Returns the offset after the last byte written.
pub fn write_u64_padded(buf: &mut [u8], offset: usize, val: u64, width: usize) -> (r: usize)
    ensures
        (final(buf)@, r as int) == put_clipped(
            old(buf)@,
            offset as int,
            padded_digits(val as nat, width as nat),
        ),
{
    if offset >= buf.len() {
        return offset;
    }
    let mut sig: Vec<u8> = Vec::new();
    if val > 0 {
        push_decimal(&mut sig, val);
    }
    assert(sig@ =~= significant_digits(val as nat));
    let pad = if width > sig.len() {
        width - sig.len()
    } else {
        0
    };
    let mut padded: Vec<u8> = Vec::new();
    let mut i: usize = 0;
    while i < pad
        invariant
            i <= pad,
            padded@ == Seq::new(i as nat, |j: int| 48u8),
        decreases pad - i,
    {
        padded.push(48u8);
        assert(padded@ =~= Seq::new((i + 1) as nat, |j: int| 48u8));
        i += 1;
    }
    let m = sig.len();
    let mut j: usize = 0;
    while j < m
        invariant
            m == sig@.len(),
            j <= m,
            padded@ == Seq::new(pad as nat, |k: int| 48u8) + sig@.take(j as int),
        decreases m - j,
    {
        padded.push(sig[j]);
        assert(sig@.take(j + 1) =~= sig@.take(j as int).push(sig@[j as int]));
        j += 1;
    }
    assert(sig@.take(m as int) =~= sig@);
    assert(padded@ =~= padded_digits(val as nat, width as nat));
    copy_clipped(buf, offset, &padded)
}

/// Writes the decimal digits of `val` into `buf` at `offset`, as
/// [`write_u64_dec`] does.
pub fn write_u32(buf: &mut [u8], offset: usize, val: u32) -> (r: usize)
    ensures
        (final(buf)@, r as int) == put_decimal(old(buf)@, offset as int, val as nat),
{
    write_u64_dec(buf, offset, val as u64)
}

/// `{"cycles":`
pub open spec fn cycles_open() -> Seq<u8> {
    seq![123u8, 34, 99, 121, 99, 108, 101, 115, 34, 58]
}

/// `,"errors":`
pub open spec fn errors_sep() -> Seq<u8> {
    seq![44u8, 34, 101, 114, 114, 111, 114, 115, 34, 58]
}

/// `}`
pub open spec fn object_close() -> Seq<u8> {
    seq![125u8]
}

/// The buffer and length after the diagnostics payload's pieces are
/// written one after another from offset 0.
pub open spec fn diagnostics_written(b: Seq<u8>, cycles: nat, errors: nat) -> (Seq<u8>, int) {
    let (b1, o1) = put_str(b, 0, cycles_open());
    let (b2, o2) = put_decimal(b1, o1, cycles);
    let (b3, o3) = put_str(b2, o2, errors_sep());
    let (b4, o4) = put_decimal(b3, o3, errors);
    put_str(b4, o4, object_close())
}

/// The diagnostics payload `{"cycles":C,"errors":E}`.
pub open spec fn diagnostics_json(cycles: nat, errors: nat) -> Seq<u8> {
    cycles_open() + decimal_digits(cycles) + errors_sep() + decimal_digits(errors) + object_close()
}

/// Formats the diagnostics payload `{"cycles":C,"errors":E}` into `buf`
/// and returns its length; a buffer under 32 bytes is left alone and 0
/// returned. Pieces that do not fit are left out.
pub fn format_diagnostics(buf: &mut [u8], cycle_count: u32, error_count: u32) -> (r: usize)
    ensures
        old(buf)@.len() < 32 ==> r == 0 && final(buf)@ == old(buf)@,
        old(buf)@.len() >= 32 ==> (final(buf)@, r as int) == diagnostics_written(
            old(buf)@,
            cycle_count as nat,
            error_count as nat,
        ),
{
    if buf.len() < 32 {
        return 0;
    }
    let open: [u8; 10] = [123, 34, 99, 121, 99, 108, 101, 115, 34, 58];
    let sep: [u8; 10] = [44, 34, 101, 114, 114, 111, 114, 115, 34, 58];
    let close: [u8; 1] = [125];
    assert(open@ =~= cycles_open());
    assert(sep@ =~= errors_sep());
    assert(close@ =~= object_close());
    let mut len = write_str(buf, 0, open.as_slice());
    len = write_u32(buf, len, cycle_count);
    len = write_str(buf, len, sep.as_slice());
    len = write_u32(buf, len, error_count);
    len = write_str(buf, len, close.as_slice());
    len
}


/// Ten to the power `k`.
pub open spec fn pow10(k: nat) -> nat
    decreases k,
{
    if k == 0 {
        1
    } else {
        10 * pow10((k - 1) as nat)
    }
}

/// A number below `10^k` has at most `k` digits.
proof fn lemma_digit_count(n: nat, k: nat)
    requires
        k >= 1,
        n < pow10(k),
    ensures
        decimal_digits(n).len() <= k,
    decreases k,
{
    if n >= 10 {
        assert(pow10(1) == 10) by {
            reveal_with_fuel(pow10, 2);
        }
        assert(k >= 2);
        assert(n / 10 < pow10((k - 1) as nat));
        lemma_digit_count(n / 10, (k - 1) as nat);
    }
}

/// A 32-bit number has at most ten decimal digits.
proof fn lemma_u32_digits(n: nat)
    requires
        n <= u32::MAX,
    ensures
        1 <= decimal_digits(n).len() <= 10,
{
    assert(pow10(10) == 10000000000) by {
        reveal_with_fuel(pow10, 11);
    }
    lemma_digit_count(n, 10);
}

/// With room for the longest payload (41 bytes), the diagnostics payload
/// is written whole: the returned length is the JSON text's, and the
/// buffer starts with it.
pub proof fn lemma_diagnostics_whole(b: Seq<u8>, cycles: nat, errors: nat)
    requires
        b.len() >= 41,
        cycles <= u32::MAX,
        errors <= u32::MAX,
    ensures
        diagnostics_written(b, cycles, errors).1 == diagnostics_json(cycles, errors).len(),
        diagnostics_written(b, cycles, errors).0.take(diagnostics_written(b, cycles, errors).1)
            == diagnostics_json(cycles, errors),
        diagnostics_written(b, cycles, errors).0.len() == b.len(),
{
    lemma_u32_digits(cycles);
    lemma_u32_digits(errors);
    let dc = decimal_digits(cycles);
    let de = decimal_digits(errors);
    let (b1, o1) = put_str(b, 0, cycles_open());
    assert(o1 == 10);
    let (b2, o2) = put_decimal(b1, o1, cycles);
    assert(dc.take(dc.len() as int) =~= dc);
    assert(o2 == 10 + dc.len());
    let (b3, o3) = put_str(b2, o2, errors_sep());
    assert(o3 == 20 + dc.len());
    let (b4, o4) = put_decimal(b3, o3, errors);
    assert(de.take(de.len() as int) =~= de);
    assert(o4 == 20 + dc.len() + de.len());
    let (b5, o5) = put_str(b4, o4, object_close());
    assert(o5 == 21 + dc.len() + de.len());
    assert(b5.take(o5) =~= diagnostics_json(cycles, errors));
}

} // verus!
