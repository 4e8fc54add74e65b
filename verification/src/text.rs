//! Dot-separated text: the split and join that subjects, patterns and
//! field paths share, with the laws that relate them.
use vstd::prelude::*;
use vstd::string::*;

verus! {

/// The pieces of `s` between `.` separators, in order. There is always
/// at least one piece; separators at the ends give empty pieces.
pub open spec fn split_dots(s: Seq<char>) -> Seq<Seq<char>>
    decreases s.len(),
{
    if s.len() == 0 {
        seq![Seq::<char>::empty()]
    } else {
        let r = split_dots(s.drop_last());
        if s.last() == '.' {
            r.push(Seq::<char>::empty())
        } else {
            r.update(r.len() - 1, r.last().push(s.last()))
        }
    }
}

/// The pieces joined back together with `.` between neighbours.
pub open spec fn join_dots(parts: Seq<Seq<char>>) -> Seq<char>
    decreases parts.len(),
{
    if parts.len() == 0 {
        Seq::<char>::empty()
    } else if parts.len() == 1 {
        parts[0]
    } else {
        join_dots(parts.drop_last()) + seq!['.'] + parts.last()
    }
}

/// The character views of a sequence of strings.
pub open spec fn string_views(v: Seq<String>) -> Seq<Seq<char>> {
    v.map_values(|p: String| p@)
}

/// `s` holds no `.`.
pub open spec fn no_dots(s: Seq<char>) -> bool {
    forall|i: int| 0 <= i < s.len() ==> s[i] != '.'
}

/// Splitting always yields at least one piece.
pub proof fn lemma_split_nonempty(s: Seq<char>)
    ensures
        split_dots(s).len() >= 1,
    decreases s.len(),
{
    if s.len() > 0 {
        lemma_split_nonempty(s.drop_last());
    }
}

/// Joining the pieces of a split gives back the original text.
pub proof fn lemma_join_split(s: Seq<char>)
    ensures
        join_dots(split_dots(s)) == s,
    decreases s.len(),
{
    if s.len() > 0 {
        let r = split_dots(s.drop_last());
        lemma_split_nonempty(s.drop_last());
        lemma_join_split(s.drop_last());
        if s.last() == '.' {
            let q = r.push(Seq::<char>::empty());
            assert(q.drop_last() =~= r);
            assert(join_dots(q) == join_dots(r) + seq!['.'] + Seq::<char>::empty());
            assert(s =~= s.drop_last() + seq!['.']);
        } else {
            let q = r.update(r.len() - 1, r.last().push(s.last()));
            if r.len() == 1 {
                assert(q[0] =~= s.drop_last().push(s.last()));
                assert(s =~= s.drop_last().push(s.last()));
            } else {
                assert(q.drop_last() =~= r.drop_last());
                assert(join_dots(r) == join_dots(r.drop_last()) + seq!['.'] + r.last());
                assert(join_dots(q) == join_dots(r.drop_last()) + seq!['.'] + r.last().push(
                    s.last(),
                ));
                assert(s =~= s.drop_last().push(s.last()));
            }
        }
    }
}

/// Text without separators splits into itself alone.
pub proof fn lemma_split_no_dots(s: Seq<char>)
    requires
        no_dots(s),
    ensures
        split_dots(s) == seq![s],
    decreases s.len(),
{
    if s.len() > 0 {
        assert(no_dots(s.drop_last()));
        lemma_split_no_dots(s.drop_last());
        assert(s =~= s.drop_last().push(s.last()));
    } else {
        assert(s =~= Seq::<char>::empty());
    }
}

/// Splitting pieces that hold no separator and then joining them gives
/// back the same pieces.
pub proof fn lemma_split_join(parts: Seq<Seq<char>>)
    requires
        parts.len() >= 1,
        forall|i: int| 0 <= i < parts.len() ==> no_dots(#[trigger] parts[i]),
    ensures
        split_dots(join_dots(parts)) == parts,
    decreases parts.len(),
{
    if parts.len() == 1 {
        lemma_split_no_dots(parts[0]);
        assert(parts =~= seq![parts[0]]);
    } else {
        let init = parts.drop_last();
        assert forall|i: int| 0 <= i < init.len() implies no_dots(#[trigger] init[i]) by {
            assert(init[i] == parts[i]);
        }
        lemma_split_join(init);
        let a = join_dots(init);
        let l = parts.last();
        assert(no_dots(l));
        lemma_split_concat_dot(a, l);
        lemma_split_no_dots(l);
        assert(split_dots(a) + seq![l] =~= parts);
    }
}

/// Splitting `a . b` where `b` has no separator appends `b` to the
/// pieces of `a`.
pub proof fn lemma_split_concat_dot(a: Seq<char>, b: Seq<char>)
    requires
        no_dots(b),
    ensures
        split_dots(a + seq!['.'] + b) == split_dots(a) + seq![b],
    decreases b.len(),
{
    let s = a + seq!['.'] + b;
    if b.len() == 0 {
        assert(b =~= Seq::<char>::empty());
        assert(s.drop_last() =~= a);
        assert(s.last() == '.');
        assert(split_dots(a).push(Seq::<char>::empty()) =~= split_dots(a) + seq![b]);
    } else {
        let b0 = b.drop_last();
        assert(no_dots(b0));
        lemma_split_concat_dot(a, b0);
        assert(s.drop_last() =~= a + seq!['.'] + b0);
        assert(s.last() == b.last());
        let r = split_dots(a) + seq![b0];
        assert(r.update(r.len() - 1, r.last().push(s.last())) =~= split_dots(a) + seq![b]) by {
            assert(b0.push(b.last()) =~= b);
        }
    }
}

/// Splits `s` on `.`: the pieces, in order.
pub fn split_parts(s: &str) -> (parts: Vec<String>)
    ensures
        string_views(parts@) == split_dots(s@),
{
    let n = s.unicode_len();
    let mut parts: Vec<String> = Vec::new();
    let mut start: usize = 0;
    let mut i: usize = 0;
    assert(s@.take(0) =~= Seq::<char>::empty());
    assert(string_views(parts@).push(s@.subrange(0, 0)) =~= seq![Seq::<char>::empty()]);
    while i < n
        invariant
            n == s@.len(),
            start <= i <= n,
            split_dots(s@.take(i as int)) == string_views(parts@).push(
                s@.subrange(start as int, i as int),
            ),
        decreases n - i,
    {
        let c = s.get_char(i);
        let ghost prev = string_views(parts@);
        assert(s@.take(i + 1).drop_last() =~= s@.take(i as int));
        assert(s@.take(i + 1).last() == c);
        if c == '.' {
            let part = String::from_str(s.substring_char(start, i));
            parts.push(part);
            start = i + 1;
            assert(string_views(parts@) =~= prev.push(part@));
            assert(s@.subrange(start as int, i + 1) =~= Seq::<char>::empty());
            assert(split_dots(s@.take(i + 1)) =~= string_views(parts@).push(
                s@.subrange(start as int, i + 1),
            ));
        } else {
            assert(s@.subrange(start as int, i + 1) =~= s@.subrange(start as int, i as int).push(c));
            assert(split_dots(s@.take(i + 1)) =~= string_views(parts@).push(
                s@.subrange(start as int, i + 1),
            ));
        }
        i += 1;
    }
    let ghost prev = string_views(parts@);
    let last = String::from_str(s.substring_char(start, n));
    parts.push(last);
    assert(s@.take(n as int) =~= s@);
    assert(string_views(parts@) =~= prev.push(last@));
    parts
}

/// Joins `parts` with `.` between neighbours.
pub fn join_parts(parts: &Vec<String>) -> (res: String)
    ensures
        res@ == join_dots(string_views(parts@)),
{
    let n = parts.len();
    let mut out = String::new();
    if n == 0 {
        assert(string_views(parts@) =~= Seq::<Seq<char>>::empty());
        return out;
    }
    out.append(parts[0].as_str());
    let mut i: usize = 1;
    assert(string_views(parts@).take(1) =~= seq![parts@[0]@]);
    assert(out@ =~= parts@[0]@);
    while i < n
        invariant
            n == parts@.len(),
            1 <= i <= n,
            out@ == join_dots(string_views(parts@).take(i as int)),
        decreases n - i,
    {
        let ghost before = out@;
        out.append(".");
        out.append(parts[i].as_str());
        proof {
            let t = string_views(parts@).take(i + 1);
            assert(t.drop_last() =~= string_views(parts@).take(i as int));
            assert(t.last() == parts@[i as int]@);
            reveal_strlit(".");
            assert(out@ =~= before + seq!['.'] + parts@[i as int]@);
        }
        i += 1;
    }
    assert(string_views(parts@).take(n as int) =~= string_views(parts@));
    out
}

// ===========================================================================
// Decimal and hexadecimal text
// ===========================================================================

/// The decimal digit character of `d` (`0 <= d < 10`).
pub open spec fn digit_char(d: nat) -> char {
    if d == 0 {
        '0'
    } else if d == 1 {
        '1'
    } else if d == 2 {
        '2'
    } else if d == 3 {
        '3'
    } else if d == 4 {
        '4'
    } else if d == 5 {
        '5'
    } else if d == 6 {
        '6'
    } else if d == 7 {
        '7'
    } else if d == 8 {
        '8'
    } else {
        '9'
    }
}

/// The decimal text of `n`, without leading zeros.
pub open spec fn decimal_text(n: nat) -> Seq<char>
    decreases n,
{
    if n < 10 {
        seq![digit_char(n)]
    } else {
        decimal_text(n / 10).push(digit_char(n % 10))
    }
}

fn digit_str(d: u64) -> (r: &'static str)
    requires
        d < 10,
    ensures
        r@ == seq![digit_char(d as nat)],
{
    proof {
        reveal_strlit("0");
        reveal_strlit("1");
        reveal_strlit("2");
        reveal_strlit("3");
        reveal_strlit("4");
        reveal_strlit("5");
        reveal_strlit("6");
        reveal_strlit("7");
        reveal_strlit("8");
        reveal_strlit("9");
    }
    if d == 0 {
        "0"
    } else if d == 1 {
        "1"
    } else if d == 2 {
        "2"
    } else if d == 3 {
        "3"
    } else if d == 4 {
        "4"
    } else if d == 5 {
        "5"
    } else if d == 6 {
        "6"
    } else if d == 7 {
        "7"
    } else if d == 8 {
        "8"
    } else {
        "9"
    }
}

/// The decimal text of `n`.
pub fn decimal(n: u64) -> (r: String)
    ensures
        r@ == decimal_text(n as nat),
    decreases n,
{
    if n < 10 {
        String::from_str(digit_str(n))
    } else {
        let mut s = decimal(n / 10);
        s.append(digit_str(n % 10));
        s
    }
}

/// The lower-case hexadecimal digit character of `d` (`0 <= d < 16`).
pub open spec fn hex_digit_char(d: nat) -> char {
    if d < 10 {
        digit_char(d)
    } else if d == 10 {
        'a'
    } else if d == 11 {
        'b'
    } else if d == 12 {
        'c'
    } else if d == 13 {
        'd'
    } else if d == 14 {
        'e'
    } else {
        'f'
    }
}

/// Two lower-case hexadecimal characters per byte, high nibble first.
pub open spec fn hex_text(bytes: Seq<u8>) -> Seq<char>
    decreases bytes.len(),
{
    if bytes.len() == 0 {
        Seq::<char>::empty()
    } else {
        hex_text(bytes.drop_last()) + seq![
            hex_digit_char((bytes.last() / 16) as nat),
            hex_digit_char((bytes.last() % 16) as nat),
        ]
    }
}

fn hex_digit_str(d: u8) -> (r: &'static str)
    requires
        d < 16,
    ensures
        r@ == seq![hex_digit_char(d as nat)],
{
    proof {
        reveal_strlit("a");
        reveal_strlit("b");
        reveal_strlit("c");
        reveal_strlit("d");
        reveal_strlit("e");
        reveal_strlit("f");
    }
    if d < 10 {
        digit_str(d as u64)
    } else if d == 10 {
        "a"
    } else if d == 11 {
        "b"
    } else if d == 12 {
        "c"
    } else if d == 13 {
        "d"
    } else if d == 14 {
        "e"
    } else {
        "f"
    }
}

/// The lower-case hexadecimal text of `bytes`.
pub fn hex_lower(bytes: &[u8]) -> (r: String)
    ensures
        r@ == hex_text(bytes@),
        r@.len() == 2 * bytes@.len(),
{
    let mut out = String::new();
    let n = bytes.len();
    let mut i: usize = 0;
    while i < n
        invariant
            n == bytes@.len(),
            i <= n,
            out@ == hex_text(bytes@.take(i as int)),
            out@.len() == 2 * i,
        decreases n - i,
    {
        let b = bytes[i];
        let ghost before = out@;
        out.append(hex_digit_str(b / 16));
        out.append(hex_digit_str(b % 16));
        proof {
            let t = bytes@.take(i + 1);
            assert(t.drop_last() =~= bytes@.take(i as int));
            assert(t.last() == b);
            assert(out@ =~= hex_text(t));
        }
        i += 1;
    }
    assert(bytes@.take(n as int) =~= bytes@);
    out
}


/// `needle` occurs in `hay` as a contiguous run of characters.
pub open spec fn contains_text(hay: Seq<char>, needle: Seq<char>) -> bool {
    exists|i: int|
        0 <= i && i + needle.len() <= hay.len() && #[trigger] hay.subrange(i, i + needle.len())
            == needle
}

/// The characters of `s`, in order.
pub fn chars_of(s: &str) -> (r: Vec<char>)
    ensures
        r@ == s@,
{
    let n = s.unicode_len();
    let mut r: Vec<char> = Vec::new();
    let mut i: usize = 0;
    while i < n
        invariant
            n == s@.len(),
            i <= n,
            r@ == s@.take(i as int),
        decreases n - i,
    {
        r.push(s.get_char(i));
        assert(s@.take(i + 1) =~= s@.take(i as int).push(s@[i as int]));
        i += 1;
    }
    assert(s@.take(n as int) =~= s@);
    r
}

/// Whether `needle` occurs in `hay` starting at position `at`.
fn occurs_at(hay: &Vec<char>, needle: &Vec<char>, at: usize) -> (r: bool)
    requires
        at + needle@.len() <= hay@.len(),
    ensures
        r == (hay@.subrange(at as int, at + needle@.len()) == needle@),
{
    let m = needle.len();
    let hl = hay.len();
    let mut j: usize = 0;
    while j < m
        invariant
            m == needle@.len(),
            hl == hay@.len(),
            at + m <= hay@.len(),
            j <= m,
            forall|k: int| 0 <= k < j ==> hay@[at + k] == needle@[k],
        decreases m - j,
    {
        if hay[at + j] != needle[j] {
            assert(hay@.subrange(at as int, at + m)[j as int] != needle@[j as int]);
            return false;
        }
        j += 1;
    }
    assert(hay@.subrange(at as int, at + m) =~= needle@);
    true
}

/// Whether `needle` occurs in `hay`.
pub fn contains_str(hay: &str, needle: &str) -> (r: bool)
    ensures
        r == contains_text(hay@, needle@),
{
    let h = chars_of(hay);
    let nd = chars_of(needle);
    let hl = h.len();
    let nl = nd.len();
    if nl > hl {
        assert forall|i: int|
            0 <= i && i + nl <= hl implies #[trigger] hay@.subrange(i, i + needle@.len())
            != needle@ by {}
        return false;
    }
    let last = hl - nl;
    let mut i: usize = 0;
    while i < last
        invariant
            h@ == hay@,
            nd@ == needle@,
            hl == h@.len(),
            nl == nd@.len(),
            last == hl - nl,
            i <= last,
            forall|k: int| 0 <= k < i ==> #[trigger] hay@.subrange(k, k + needle@.len()) != needle@,
        decreases last - i,
    {
        if occurs_at(&h, &nd, i) {
            assert(hay@.subrange(i as int, i + needle@.len()) == needle@);
            return true;
        }
        i += 1;
    }
    let found = occurs_at(&h, &nd, last);
    if found {
        assert(hay@.subrange(last as int, last + needle@.len()) == needle@);
    }
    found
}

} // verus!
