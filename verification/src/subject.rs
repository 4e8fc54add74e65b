//! Subjects: hierarchical, dot-separated routing keys; subject patterns
//! with `+` / `#` wildcards; field paths. Grammar, parsing, matching and
//! their laws.
use vstd::prelude::*;
use vstd::string::*;

use crate::text::{
    join_dots, join_parts, lemma_join_split, lemma_split_concat_dot, lemma_split_join,
    lemma_split_nonempty,
    no_dots, split_dots, split_parts, string_views,
};

verus! {

// ===========================================================================
// Grammar
// ===========================================================================

/// A character allowed inside a segment: `a-zA-Z0-9_-`.
pub open spec fn is_segment_char(c: char) -> bool {
    ('a' <= c && c <= 'z') || ('A' <= c && c <= 'Z') || ('0' <= c && c <= '9') || c == '_'
        || c == '-'
}

/// Every character of `s` is a segment character.
pub open spec fn all_segment_chars(s: Seq<char>) -> bool {
    forall|i: int| 0 <= i < s.len() ==> is_segment_char(#[trigger] s[i])
}

/// `p` is exactly the one-character text `c`.
pub open spec fn is_token(p: Seq<char>, c: char) -> bool {
    p.len() == 1 && p[0] == c
}

/// `s` has two separators in a row.
pub open spec fn has_double_dot(s: Seq<char>) -> bool {
    exists|i: int| 0 <= i < s.len() - 1 && #[trigger] s[i] == '.' && s[i + 1] == '.'
}

/// What a subject or subject-pattern error is, as a value.
pub enum SubjectErrorView {
    EmptySegment,
    InvalidCharset { segment: Seq<char> },
    SeparatorInSegment,
    TrailingSeparator,
    LeadingSeparator,
    ConsecutiveSeparators,
    WildcardInConcreteSubject,
    WildcardMultiNotLast,
    EmptySubject,
}

/// Errors raised while constructing or parsing a [`Subject`] or a
/// [`SubjectPattern`].
#[derive(Debug, Clone, PartialEq, Eq)]
pub enum SubjectError {
    /// A segment was empty.
    EmptySegment,
    /// A segment contained characters outside `a-zA-Z0-9_-`.
    InvalidCharset {
        /// The offending segment.
        segment: String,
    },
    /// A segment contained a `.`.
    SeparatorInSegment,
    /// The subject had a trailing `.`.
    TrailingSeparator,
    /// The subject had a leading `.`.
    LeadingSeparator,
    /// The subject had two consecutive `.` separators.
    ConsecutiveSeparators,
    /// A concrete subject contained `+` or `#`.
    WildcardInConcreteSubject,
    /// A pattern had `#` before its last segment.
    WildcardMultiNotLast,
    /// The subject was the empty string.
    EmptySubject,
}

impl View for SubjectError {
    type V = SubjectErrorView;

    open spec fn view(&self) -> SubjectErrorView {
        match self {
            SubjectError::EmptySegment => SubjectErrorView::EmptySegment,
            SubjectError::InvalidCharset { segment } => SubjectErrorView::InvalidCharset {
                segment: segment@,
            },
            SubjectError::SeparatorInSegment => SubjectErrorView::SeparatorInSegment,
            SubjectError::TrailingSeparator => SubjectErrorView::TrailingSeparator,
            SubjectError::LeadingSeparator => SubjectErrorView::LeadingSeparator,
            SubjectError::ConsecutiveSeparators => SubjectErrorView::ConsecutiveSeparators,
            SubjectError::WildcardInConcreteSubject => SubjectErrorView::WildcardInConcreteSubject,
            SubjectError::WildcardMultiNotLast => SubjectErrorView::WildcardMultiNotLast,
            SubjectError::EmptySubject => SubjectErrorView::EmptySubject,
        }
    }
}

/// The human-readable message of a subject error.
pub open spec fn subject_error_message(e: SubjectErrorView) -> Seq<char> {
    match e {
        SubjectErrorView::EmptySegment => "empty segment"@,
        SubjectErrorView::InvalidCharset { segment } => "invalid charset in segment: "@ + segment,
        SubjectErrorView::SeparatorInSegment => "separator inside segment"@,
        SubjectErrorView::TrailingSeparator => "trailing separator"@,
        SubjectErrorView::LeadingSeparator => "leading separator"@,
        SubjectErrorView::ConsecutiveSeparators => "consecutive separators"@,
        SubjectErrorView::WildcardInConcreteSubject => "wildcard in concrete subject"@,
        SubjectErrorView::WildcardMultiNotLast => "wildcard '#' must be the last segment"@,
        SubjectErrorView::EmptySubject => "empty subject"@,
    }
}

impl SubjectError {
    /// The human-readable message of this error.
    pub fn to_string(&self) -> (s: String)
        ensures
            s@ == subject_error_message(self@),
    {
        match self {
            SubjectError::EmptySegment => String::from_str("empty segment"),
            SubjectError::InvalidCharset { segment } => {
                let mut s = String::from_str("invalid charset in segment: ");
                s.append(segment.as_str());
                s
            },
            SubjectError::SeparatorInSegment => String::from_str("separator inside segment"),
            SubjectError::TrailingSeparator => String::from_str("trailing separator"),
            SubjectError::LeadingSeparator => String::from_str("leading separator"),
            SubjectError::ConsecutiveSeparators => String::from_str("consecutive separators"),
            SubjectError::WildcardInConcreteSubject => String::from_str(
                "wildcard in concrete subject",
            ),
            SubjectError::WildcardMultiNotLast => String::from_str(
                "wildcard '#' must be the last segment",
            ),
            SubjectError::EmptySubject => String::from_str("empty subject"),
        }
    }
}

/// Why `s` is not a valid segment, if it is not one.
pub open spec fn segment_error(s: Seq<char>) -> Option<SubjectErrorView> {
    if s.len() == 0 {
        Some(SubjectErrorView::EmptySegment)
    } else if !all_segment_chars(s) {
        Some(SubjectErrorView::InvalidCharset { segment: s })
    } else {
        None
    }
}

/// Why the separators of `s` make it no subject, if they do.
pub open spec fn separator_error(s: Seq<char>) -> Option<SubjectErrorView> {
    if s.len() == 0 {
        Some(SubjectErrorView::EmptySubject)
    } else if s[0] == '.' {
        Some(SubjectErrorView::LeadingSeparator)
    } else if s.last() == '.' {
        Some(SubjectErrorView::TrailingSeparator)
    } else if has_double_dot(s) {
        Some(SubjectErrorView::ConsecutiveSeparators)
    } else {
        None
    }
}

/// Why the piece `p` of a concrete subject is rejected, if it is.
pub open spec fn subject_part_error(p: Seq<char>) -> Option<SubjectErrorView> {
    if is_token(p, '+') || is_token(p, '#') {
        Some(SubjectErrorView::WildcardInConcreteSubject)
    } else {
        segment_error(p)
    }
}

/// The error of the first rejected piece, if any.
pub open spec fn first_subject_part_error(parts: Seq<Seq<char>>) -> Option<SubjectErrorView>
    decreases parts.len(),
{
    if parts.len() == 0 {
        None
    } else {
        match subject_part_error(parts[0]) {
            Some(e) => Some(e),
            None => first_subject_part_error(parts.drop_first()),
        }
    }
}

/// The segments of the subject that `s` spells, or why it spells none.
pub open spec fn parse_subject(s: Seq<char>) -> Result<Seq<Seq<char>>, SubjectErrorView> {
    match separator_error(s) {
        Some(e) => Err(e),
        None => match first_subject_part_error(split_dots(s)) {
            Some(e) => Err(e),
            None => Ok(split_dots(s)),
        },
    }
}

/// A segment of a subject pattern, as a value.
pub enum PatternSegmentView {
    Concrete(Seq<char>),
    WildcardOne,
    WildcardMulti,
}

/// The pattern segment that the piece `p` spells.
pub open spec fn pattern_part(p: Seq<char>) -> PatternSegmentView {
    if is_token(p, '+') {
        PatternSegmentView::WildcardOne
    } else if is_token(p, '#') {
        PatternSegmentView::WildcardMulti
    } else {
        PatternSegmentView::Concrete(p)
    }
}

/// The text of a pattern segment.
pub open spec fn pattern_text(v: PatternSegmentView) -> Seq<char> {
    match v {
        PatternSegmentView::Concrete(x) => x,
        PatternSegmentView::WildcardOne => seq!['+'],
        PatternSegmentView::WildcardMulti => seq!['#'],
    }
}

/// Why the piece `p` of a pattern is rejected, if it is; `is_last` says
/// whether it is the pattern's last piece.
pub open spec fn pattern_part_error(p: Seq<char>, is_last: bool) -> Option<SubjectErrorView> {
    if is_token(p, '+') {
        None
    } else if is_token(p, '#') {
        if is_last {
            None
        } else {
            Some(SubjectErrorView::WildcardMultiNotLast)
        }
    } else {
        segment_error(p)
    }
}

/// The error of the first rejected pattern piece, if any.
pub open spec fn first_pattern_part_error(parts: Seq<Seq<char>>) -> Option<SubjectErrorView>
    decreases parts.len(),
{
    if parts.len() == 0 {
        None
    } else {
        match pattern_part_error(parts[0], parts.len() == 1) {
            Some(e) => Some(e),
            None => first_pattern_part_error(parts.drop_first()),
        }
    }
}

/// The segments of the pattern that `s` spells, or why it spells none.
pub open spec fn parse_pattern(s: Seq<char>) -> Result<Seq<PatternSegmentView>, SubjectErrorView> {
    match separator_error(s) {
        Some(e) => Err(e),
        None => match first_pattern_part_error(split_dots(s)) {
            Some(e) => Err(e),
            None => Ok(split_dots(s).map_values(|p: Seq<char>| pattern_part(p))),
        },
    }
}

/// `#` occurs at most as the last segment.
pub open spec fn pattern_wf(p: Seq<PatternSegmentView>) -> bool {
    forall|i: int| 0 <= i < p.len() - 1 ==> !(#[trigger] p[i] is WildcardMulti)
}

/// Whether pattern `p` matches the concrete segments `c`: a concrete
/// segment matches an equal segment, `+` any one segment, `#` all the
/// remaining segments (zero or more).
pub open spec fn pattern_matches(p: Seq<PatternSegmentView>, c: Seq<Seq<char>>) -> bool
    decreases p.len(),
{
    if p.len() == 0 {
        c.len() == 0
    } else {
        match p[0] {
            PatternSegmentView::WildcardMulti => true,
            PatternSegmentView::WildcardOne => c.len() > 0 && pattern_matches(
                p.drop_first(),
                c.drop_first(),
            ),
            PatternSegmentView::Concrete(x) => c.len() > 0 && c[0] == x && pattern_matches(
                p.drop_first(),
                c.drop_first(),
            ),
        }
    }
}

/// A pattern of concrete segments only.
pub open spec fn concrete_pattern(segs: Seq<Seq<char>>) -> Seq<PatternSegmentView> {
    segs.map_values(|x: Seq<char>| PatternSegmentView::Concrete(x))
}

// ===========================================================================
// Helpers on text
// ===========================================================================

fn is_token_str(p: &str, c: char) -> (r: bool)
    ensures
        r == is_token(p@, c),
{
    p.unicode_len() == 1 && p.get_char(0) == c
}

fn separator_check(s: &str) -> (r: Option<SubjectError>)
    ensures
        match r {
            None => separator_error(s@) is None,
            Some(e) => separator_error(s@) == Some(e@),
        },
{
    let n = s.unicode_len();
    if n == 0 {
        return Some(SubjectError::EmptySubject);
    }
    if s.get_char(0) == '.' {
        return Some(SubjectError::LeadingSeparator);
    }
    if s.get_char(n - 1) == '.' {
        return Some(SubjectError::TrailingSeparator);
    }
    let mut i: usize = 0;
    while i + 1 < n
        invariant
            n == s@.len(),
            n >= 1,
            i < n,
            s@[0] != '.',
            s@[n - 1] != '.',
            forall|j: int| 0 <= j < i ==> !(#[trigger] s@[j] == '.' && s@[j + 1] == '.'),
        decreases n - i,
    {
        if s.get_char(i) == '.' && s.get_char(i + 1) == '.' {
            assert(s@[i as int] == '.' && s@[i + 1] == '.');
            return Some(SubjectError::ConsecutiveSeparators);
        }
        i += 1;
    }
    assert(!has_double_dot(s@)) by {
        assert forall|j: int| 0 <= j < s@.len() - 1 implies !(#[trigger] s@[j] == '.' && s@[j
            + 1] == '.') by {}
    }
    None
}

proof fn lemma_first_subject_part_error_skip(parts: Seq<Seq<char>>, i: int)
    requires
        0 <= i <= parts.len(),
        forall|j: int| 0 <= j < i ==> subject_part_error(#[trigger] parts[j]) is None,
    ensures
        first_subject_part_error(parts) == first_subject_part_error(parts.skip(i)),
    decreases i,
{
    if i == 0 {
        assert(parts.skip(0) =~= parts);
    } else {
        lemma_first_subject_part_error_skip(parts, i - 1);
        let t = parts.skip(i - 1);
        assert(t[0] == parts[i - 1]);
        assert(t.drop_first() =~= parts.skip(i));
    }
}

proof fn lemma_first_pattern_part_error_skip(parts: Seq<Seq<char>>, i: int)
    requires
        0 <= i <= parts.len(),
        forall|j: int|
            0 <= j < i ==> pattern_part_error(#[trigger] parts[j], j == parts.len() - 1) is None,
    ensures
        first_pattern_part_error(parts) == first_pattern_part_error(parts.skip(i)),
    decreases i,
{
    if i == 0 {
        assert(parts.skip(0) =~= parts);
    } else {
        lemma_first_pattern_part_error_skip(parts, i - 1);
        let t = parts.skip(i - 1);
        assert(t[0] == parts[i - 1]);
        assert(t.len() == parts.len() - (i - 1));
        assert(t.drop_first() =~= parts.skip(i));
    }
}

// ===========================================================================
// SubjectSegment
// ===========================================================================

/// A single non-empty segment of a [`Subject`]: case-sensitive, made of
/// `a-zA-Z0-9_-`.
#[derive(Debug, Clone, PartialEq, Eq, Hash)]
pub struct SubjectSegment(pub String);

impl SubjectSegment {
    /// Constructs a segment, validating charset and non-emptiness.
    pub fn new(s: &str) -> (r: Result<Self, SubjectError>)
        ensures
            match r {
                Ok(seg) => segment_error(s@) is None && seg.0@ == s@,
                Err(e) => segment_error(s@) == Some(e@),
            },
    {
        if s.is_empty() {
            return Err(SubjectError::EmptySegment);
        }
        let n = s.unicode_len();
        let mut i: usize = 0;
        while i < n
            invariant
                n == s@.len(),
                i <= n,
                forall|j: int| 0 <= j < i ==> is_segment_char(#[trigger] s@[j]),
            decreases n - i,
        {
            let c = s.get_char(i);
            if !(('a' <= c && c <= 'z') || ('A' <= c && c <= 'Z') || ('0' <= c && c <= '9') || c
                == '_' || c == '-') {
                return Err(SubjectError::InvalidCharset { segment: String::from_str(s) });
            }
            i += 1;
        }
        Ok(SubjectSegment(String::from_str(s)))
    }

    /// The segment text.
    pub fn as_str(&self) -> (r: &str)
        ensures
            r@ == self.0@,
    {
        self.0.as_str()
    }
}

/// The texts of a sequence of segments.
pub open spec fn segment_views(v: Seq<SubjectSegment>) -> Seq<Seq<char>> {
    v.map_values(|s: SubjectSegment| s.0@)
}

// ===========================================================================
// Subject
// ===========================================================================

/// A concrete, hierarchical, dot-separated routing key such as
/// `vehicle.sensors.imu.gyro`.
#[derive(Debug, Clone, PartialEq, Eq, Hash)]
pub struct Subject {
    segments: Vec<SubjectSegment>,
}

impl View for Subject {
    type V = Seq<Seq<char>>;

    closed spec fn view(&self) -> Seq<Seq<char>> {
        segment_views(self.segments@)
    }
}

impl Subject {
    /// Constructs a subject from segments; fails on an empty list.
    pub fn from_segments(segments: Vec<SubjectSegment>) -> (r: Result<Self, SubjectError>)
        ensures
            match r {
                Ok(s) => segments@.len() > 0 && s@ == segment_views(segments@),
                Err(e) => segments@.len() == 0 && e@ == SubjectErrorView::EmptySubject,
            },
    {
        if segments.len() == 0 {
            return Err(SubjectError::EmptySubject);
        }
        Ok(Subject { segments })
    }

    /// Parses a subject from its dot-joined text.
    pub fn from_str(s: &str) -> (r: Result<Self, SubjectError>)
        ensures
            match r {
                Ok(x) => parse_subject(s@) == Ok::<Seq<Seq<char>>, SubjectErrorView>(x@),
                Err(e) => parse_subject(s@) == Err::<Seq<Seq<char>>, SubjectErrorView>(e@),
            },
    {
        if let Some(e) = separator_check(s) {
            return Err(e);
        }
        let parts = split_parts(s);
        let ghost pv = string_views(parts@);
        let mut segments: Vec<SubjectSegment> = Vec::new();
        let mut i: usize = 0;
        while i < parts.len()
            invariant
                pv == string_views(parts@),
                pv == split_dots(s@),
                separator_error(s@) is None,
                i <= parts@.len(),
                forall|j: int| 0 <= j < i ==> subject_part_error(#[trigger] pv[j]) is None,
                segment_views(segments@) == pv.take(i as int),
            decreases parts@.len() - i,
        {
            let p = parts[i].as_str();
            assert(p@ == pv[i as int]);
            if is_token_str(p, '+') || is_token_str(p, '#') {
                proof {
                    lemma_first_subject_part_error_skip(pv, i as int);
                    assert(pv.skip(i as int)[0] == pv[i as int]);
                }
                return Err(SubjectError::WildcardInConcreteSubject);
            }
            match SubjectSegment::new(p) {
                Ok(seg) => {
                    let ghost before = segments@;
                    segments.push(seg);
                    assert(segment_views(segments@) =~= pv.take(i + 1)) by {
                        assert(segment_views(before) =~= pv.take(i as int));
                        assert(segment_views(segments@) =~= segment_views(before).push(seg.0@));
                    }
                },
                Err(e) => {
                    proof {
                        lemma_first_subject_part_error_skip(pv, i as int);
                        assert(pv.skip(i as int)[0] == pv[i as int]);
                    }
                    return Err(e);
                },
            }
            i += 1;
        }
        proof {
            lemma_first_subject_part_error_skip(pv, i as int);
            assert(pv.skip(i as int) =~= Seq::<Seq<char>>::empty());
            assert(pv.take(i as int) =~= pv);
        }
        Ok(Subject { segments })
    }

    /// The segments of this subject.
    pub fn segments(&self) -> (r: &[SubjectSegment])
        ensures
            segment_views(r@) == self@,
    {
        self.segments.as_slice()
    }

    /// The dot-joined text of this subject.
    pub fn as_str(&self) -> (r: String)
        ensures
            r@ == join_dots(self@),
    {
        let n = self.segments.len();
        let mut texts: Vec<String> = Vec::new();
        let mut i: usize = 0;
        while i < n
            invariant
                n == self.segments@.len(),
                i <= n,
                string_views(texts@) == segment_views(self.segments@).take(i as int),
            decreases n - i,
        {
            let ghost before = texts@;
            let t = self.segments[i].0.clone();
            texts.push(t);
            assert(string_views(texts@) =~= segment_views(self.segments@).take(i + 1)) by {
                assert(string_views(texts@) =~= string_views(before).push(t@));
            }
            i += 1;
        }
        assert(segment_views(self.segments@).take(n as int) =~= segment_views(self.segments@));
        join_parts(&texts)
    }

    /// Always `true`: only patterns can be non-concrete.
    pub fn is_concrete(&self) -> (r: bool)
        ensures
            r,
    {
        true
    }
}

// ===========================================================================
// SubjectPattern
// ===========================================================================

/// A single segment of a [`SubjectPattern`].
#[derive(Debug, Clone, PartialEq, Eq, Hash)]
pub enum PatternSegment {
    /// Matches one concrete segment by exact equality.
    Concrete(SubjectSegment),
    /// `+`: matches any single segment.
    WildcardOne,
    /// `#`: matches zero or more trailing segments; only last.
    WildcardMulti,
}

impl View for PatternSegment {
    type V = PatternSegmentView;

    open spec fn view(&self) -> PatternSegmentView {
        match self {
            PatternSegment::Concrete(s) => PatternSegmentView::Concrete(s.0@),
            PatternSegment::WildcardOne => PatternSegmentView::WildcardOne,
            PatternSegment::WildcardMulti => PatternSegmentView::WildcardMulti,
        }
    }
}

/// The views of a sequence of pattern segments.
pub open spec fn pattern_views(v: Seq<PatternSegment>) -> Seq<PatternSegmentView> {
    v.map_values(|s: PatternSegment| s@)
}

/// A subject that may contain wildcards; used for subscriptions and
/// invalidation, never as a message's subject.
#[derive(Debug, PartialEq, Eq, Hash)]
pub struct SubjectPattern {
    segments: Vec<PatternSegment>,
}

impl View for SubjectPattern {
    type V = Seq<PatternSegmentView>;

    closed spec fn view(&self) -> Seq<PatternSegmentView> {
        pattern_views(self.segments@)
    }
}

impl SubjectPattern {
    #[verifier::type_invariant]
    spec fn wf(self) -> bool {
        pattern_wf(pattern_views(self.segments@))
    }

    /// Parses a pattern from its dot-joined text.
    pub fn from_str(s: &str) -> (r: Result<Self, SubjectError>)
        ensures
            match r {
                Ok(x) => parse_pattern(s@) == Ok::<Seq<PatternSegmentView>, SubjectErrorView>(x@),
                Err(e) => parse_pattern(s@) == Err::<Seq<PatternSegmentView>, SubjectErrorView>(
                    e@,
                ),
            },
    {
        if let Some(e) = separator_check(s) {
            return Err(e);
        }
        let parts = split_parts(s);
        let ghost pv = string_views(parts@);
        let n = parts.len();
        let mut segments: Vec<PatternSegment> = Vec::new();
        let mut i: usize = 0;
        proof {
            lemma_split_nonempty(s@);
        }
        while i < n
            invariant
                n == parts@.len(),
                pv == string_views(parts@),
                pv == split_dots(s@),
                separator_error(s@) is None,
                i <= n,
                forall|j: int|
                    0 <= j < i ==> pattern_part_error(#[trigger] pv[j], j == n - 1) is None,
                pattern_views(segments@) == pv.take(i as int).map_values(
                    |p: Seq<char>| pattern_part(p),
                ),
            decreases n - i,
        {
            let p = parts[i].as_str();
            assert(p@ == pv[i as int]);
            let ghost before = segments@;
            let seg;
            if is_token_str(p, '+') {
                seg = PatternSegment::WildcardOne;
            } else if is_token_str(p, '#') {
                if i != n - 1 {
                    proof {
                        lemma_first_pattern_part_error_skip(pv, i as int);
                        assert(pv.skip(i as int)[0] == pv[i as int]);
                    }
                    return Err(SubjectError::WildcardMultiNotLast);
                }
                seg = PatternSegment::WildcardMulti;
            } else {
                match SubjectSegment::new(p) {
                    Ok(x) => {
                        seg = PatternSegment::Concrete(x);
                    },
                    Err(e) => {
                        proof {
                            lemma_first_pattern_part_error_skip(pv, i as int);
                            assert(pv.skip(i as int)[0] == pv[i as int]);
                        }
                        return Err(e);
                    },
                }
            }
            assert(seg@ == pattern_part(pv[i as int]));
            segments.push(seg);
            assert(pattern_views(segments@) =~= pv.take(i + 1).map_values(
                |p: Seq<char>| pattern_part(p),
            )) by {
                assert(pattern_views(segments@) =~= pattern_views(before).push(seg@));
            }
            i += 1;
        }
        proof {
            lemma_first_pattern_part_error_skip(pv, i as int);
            assert(pv.skip(i as int) =~= Seq::<Seq<char>>::empty());
            assert(pv.take(i as int) =~= pv);
            let v = pattern_views(segments@);
            assert forall|k: int| 0 <= k < v.len() - 1 implies !(#[trigger] v[k] is WildcardMulti) by {
                assert(v[k] == pattern_part(pv[k]));
                assert(pattern_part_error(pv[k], k == n - 1) is None);
            }
        }
        Ok(SubjectPattern { segments })
    }

    /// Whether this pattern matches `subject`: concrete segments by
    /// equality, `+` any one segment, `#` all remaining segments.
    pub fn matches(&self, subject: &Subject) -> (r: bool)
        ensures
            r == pattern_matches(self@, subject@),
            pattern_wf(self@),
    {
        proof {
            use_type_invariant(self);
        }
        let concrete = &subject.segments;
        let pattern = &self.segments;
        let ghost pw = pattern_views(pattern@);
        let ghost cw = segment_views(concrete@);
        let mut i: usize = 0;
        assert(pw.skip(0) =~= pw);
        assert(cw.skip(0) =~= cw);
        while i < pattern.len() && i < concrete.len()
            invariant
                pw == pattern_views(pattern@),
                cw == segment_views(concrete@),
                pw == self@,
                cw == subject@,
                pattern_wf(pw),
                i <= pattern@.len(),
                i <= concrete@.len(),
                pattern_matches(pw, cw) == pattern_matches(pw.skip(i as int), cw.skip(i as int)),
            decreases pattern@.len() - i,
        {
            let ghost ps = pw.skip(i as int);
            let ghost cs = cw.skip(i as int);
            assert(ps[0] == pw[i as int]);
            assert(cs[0] == cw[i as int]);
            assert(ps.drop_first() =~= pw.skip(i + 1));
            assert(cs.drop_first() =~= cw.skip(i + 1));
            match &pattern[i] {
                PatternSegment::Concrete(seg) => {
                    if !(seg.0 == concrete[i].0) {
                        assert(!pattern_matches(ps, cs));
                        return false;
                    }
                    i += 1;
                },
                PatternSegment::WildcardOne => {
                    i += 1;
                },
                PatternSegment::WildcardMulti => {
                    assert(pw[i as int] is WildcardMulti);
                    assert(pattern_matches(ps, cs));
                    return i == pattern.len() - 1;
                },
            }
        }
        if i < pattern.len() {
            let ghost ps = pw.skip(i as int);
            assert(ps[0] == pw[i as int]);
            match &pattern[i] {
                PatternSegment::WildcardMulti => {
                    return true;
                },
                _ => {},
            }
        }
        i == pattern.len() && i == concrete.len()
    }

    /// The dot-joined text of this pattern (`+` and `#` for wildcards).
    pub fn as_str(&self) -> (r: String)
        ensures
            r@ == join_dots(self@.map_values(|v: PatternSegmentView| pattern_text(v))),
    {
        let n = self.segments.len();
        let ghost pw = pattern_views(self.segments@);
        let mut texts: Vec<String> = Vec::new();
        let mut i: usize = 0;
        while i < n
            invariant
                n == self.segments@.len(),
                pw == pattern_views(self.segments@),
                i <= n,
                string_views(texts@) == pw.take(i as int).map_values(
                    |v: PatternSegmentView| pattern_text(v),
                ),
            decreases n - i,
        {
            let ghost before = texts@;
            let t = match &self.segments[i] {
                PatternSegment::Concrete(seg) => seg.0.clone(),
                PatternSegment::WildcardOne => String::from_str("+"),
                PatternSegment::WildcardMulti => String::from_str("#"),
            };
            proof {
                reveal_strlit("+");
                reveal_strlit("#");
                assert(t@ =~= pattern_text(pw[i as int]));
            }
            texts.push(t);
            assert(string_views(texts@) =~= pw.take(i + 1).map_values(
                |v: PatternSegmentView| pattern_text(v),
            )) by {
                assert(string_views(texts@) =~= string_views(before).push(t@));
            }
            i += 1;
        }
        assert(pw.take(n as int) =~= pw);
        join_parts(&texts)
    }

    /// The pattern segments.
    pub fn segments(&self) -> (r: &[PatternSegment])
        ensures
            pattern_views(r@) == self@,
    {
        self.segments.as_slice()
    }
}

impl Clone for SubjectPattern {
    /// A copy of this pattern.
    fn clone(&self) -> (r: Self)
        ensures
            r@ == self@,
    {
        proof {
            use_type_invariant(self);
        }
        let n = self.segments.len();
        let mut segments: Vec<PatternSegment> = Vec::new();
        let mut i: usize = 0;
        while i < n
            invariant
                n == self.segments@.len(),
                i <= n,
                pattern_views(segments@) == pattern_views(self.segments@).take(i as int),
            decreases n - i,
        {
            let ghost before = segments@;
            let seg = match &self.segments[i] {
                PatternSegment::Concrete(x) => PatternSegment::Concrete(SubjectSegment(x.0.clone())),
                PatternSegment::WildcardOne => PatternSegment::WildcardOne,
                PatternSegment::WildcardMulti => PatternSegment::WildcardMulti,
            };
            segments.push(seg);
            assert(pattern_views(segments@) =~= pattern_views(self.segments@).take(i + 1)) by {
                assert(pattern_views(segments@) =~= pattern_views(before).push(seg@));
            }
            i += 1;
        }
        assert(pattern_views(self.segments@).take(n as int) =~= pattern_views(self.segments@));
        SubjectPattern { segments }
    }

}

// ===========================================================================
// FieldPath
// ===========================================================================

/// A dot-joined path into a resource, such as `position.x`.
#[derive(Debug, Clone, PartialEq, Eq, Hash)]
pub struct FieldPath {
    segments: Vec<String>,
}

impl View for FieldPath {
    type V = Seq<Seq<char>>;

    closed spec fn view(&self) -> Seq<Seq<char>> {
        string_views(self.segments@)
    }
}

/// The segments of the field path that `s` spells, or why it spells none.
pub open spec fn parse_field_path(s: Seq<char>) -> Result<Seq<Seq<char>>, SubjectErrorView> {
    if s.len() == 0 {
        Err(SubjectErrorView::EmptySegment)
    } else if exists|i: int| 0 <= i < split_dots(s).len() && (#[trigger] split_dots(s)[i]).len()
        == 0 {
        Err(SubjectErrorView::EmptySegment)
    } else {
        Ok(split_dots(s))
    }
}

impl FieldPath {
    /// Constructs a field path from segments, unchecked.
    pub fn from_segments(segments: Vec<String>) -> (r: Self)
        ensures
            r@ == string_views(segments@),
    {
        FieldPath { segments }
    }

    /// Parses a field path from its dot-joined text; every segment must
    /// be non-empty.
    pub fn from_str(s: &str) -> (r: Result<Self, SubjectError>)
        ensures
            match r {
                Ok(x) => parse_field_path(s@) == Ok::<Seq<Seq<char>>, SubjectErrorView>(x@),
                Err(e) => parse_field_path(s@) == Err::<Seq<Seq<char>>, SubjectErrorView>(e@),
            },
    {
        if s.is_empty() {
            return Err(SubjectError::EmptySegment);
        }
        let segments = split_parts(s);
        let ghost pv = string_views(segments@);
        let mut i: usize = 0;
        while i < segments.len()
            invariant
                pv == string_views(segments@),
                pv == split_dots(s@),
                i <= segments@.len(),
                forall|j: int| 0 <= j < i ==> (#[trigger] pv[j]).len() > 0,
            decreases segments@.len() - i,
        {
            if segments[i].as_str().is_empty() {
                assert(pv[i as int].len() == 0);
                return Err(SubjectError::EmptySegment);
            }
            i += 1;
        }
        Ok(FieldPath { segments })
    }

    /// The path segments.
    pub fn segments(&self) -> (r: &[String])
        ensures
            string_views(r@) == self@,
    {
        self.segments.as_slice()
    }

    /// The dot-joined text of this path.
    pub fn as_str(&self) -> (r: String)
        ensures
            r@ == join_dots(self@),
    {
        join_parts(&self.segments)
    }
}

// ===========================================================================
// Laws
// ===========================================================================

/// Every pattern segment fits the concrete segment `x`: a concrete one
/// when equal, a wildcard always.
pub open spec fn segment_fits(v: PatternSegmentView, x: Seq<char>) -> bool {
    match v {
        PatternSegmentView::Concrete(y) => x == y,
        _ => true,
    }
}

/// The pattern holds no `#`.
pub open spec fn no_multi(p: Seq<PatternSegmentView>) -> bool {
    forall|i: int| 0 <= i < p.len() ==> !(#[trigger] p[i] is WildcardMulti)
}

/// Parsing a subject and printing it gives back the same text.
pub proof fn lemma_subject_round_trip(s: Seq<char>)
    requires
        parse_subject(s) is Ok,
    ensures
        join_dots(parse_subject(s)->Ok_0) == s,
{
    lemma_join_split(s);
}

/// Parsing a pattern and printing it gives back the same text.
pub proof fn lemma_pattern_round_trip(s: Seq<char>)
    requires
        parse_pattern(s) is Ok,
    ensures
        join_dots(parse_pattern(s)->Ok_0.map_values(|v: PatternSegmentView| pattern_text(v)))
            == s,
{
    let parts = split_dots(s);
    let printed = parse_pattern(s)->Ok_0.map_values(|v: PatternSegmentView| pattern_text(v));
    assert forall|i: int| 0 <= i < parts.len() implies #[trigger] printed[i] == parts[i] by {
        let p = parts[i];
        if is_token(p, '+') {
            assert(p =~= seq!['+']);
        } else if is_token(p, '#') {
            assert(p =~= seq!['#']);
        }
    }
    assert(printed =~= parts);
    lemma_join_split(s);
}

proof fn lemma_subject_parts_as_pattern(parts: Seq<Seq<char>>)
    requires
        first_subject_part_error(parts) is None,
    ensures
        first_pattern_part_error(parts) is None,
        forall|i: int|
            0 <= i < parts.len() ==> pattern_part(#[trigger] parts[i])
                == PatternSegmentView::Concrete(parts[i]),
    decreases parts.len(),
{
    if parts.len() > 0 {
        lemma_subject_parts_as_pattern(parts.drop_first());
        assert forall|i: int| 0 <= i < parts.len() implies pattern_part(#[trigger] parts[i])
            == PatternSegmentView::Concrete(parts[i]) by {
            if i > 0 {
                assert(parts[i] == parts.drop_first()[i - 1]);
            }
        }
    }
}

proof fn lemma_subject_parts_then_multi(parts: Seq<Seq<char>>)
    requires
        first_subject_part_error(parts) is None,
    ensures
        first_pattern_part_error(parts + seq![seq!['#']]) is None,
    decreases parts.len(),
{
    let q = parts + seq![seq!['#']];
    if parts.len() == 0 {
        assert(q =~= seq![seq!['#']]);
        assert(q.drop_first() =~= Seq::<Seq<char>>::empty());
        assert(is_token(q[0], '#'));
        assert(pattern_part_error(q[0], true) is None);
        assert(first_pattern_part_error(q.drop_first()) is None);
    } else {
        lemma_subject_parts_then_multi(parts.drop_first());
        assert(q[0] == parts[0]);
        assert(subject_part_error(parts[0]) is None);
        assert(q.len() > 1);
        assert(pattern_part_error(q[0], false) is None);
        assert(q.drop_first() =~= parts.drop_first() + seq![seq!['#']]);
        assert(first_pattern_part_error(q.drop_first()) is None);
    }
}

/// A pattern of concrete segments matches exactly the subject made of
/// those segments.
pub proof fn lemma_concrete_pattern_matches(segs: Seq<Seq<char>>, c: Seq<Seq<char>>)
    ensures
        pattern_matches(concrete_pattern(segs), c) <==> c == segs,
    decreases segs.len(),
{
    let p = concrete_pattern(segs);
    if segs.len() == 0 {
        if c.len() == 0 {
            assert(c =~= segs);
        }
    } else {
        assert(p.drop_first() =~= concrete_pattern(segs.drop_first()));
        lemma_concrete_pattern_matches(segs.drop_first(), c.drop_first());
        if c == segs {
            assert(c.drop_first() == segs.drop_first());
        }
        if c.len() > 0 && c[0] == segs[0] && c.drop_first() == segs.drop_first() {
            assert(c =~= segs) by {
                assert forall|i: int| 0 <= i < c.len() implies c[i] == segs[i] by {
                    if i > 0 {
                        assert(c[i] == c.drop_first()[i - 1]);
                        assert(segs[i] == segs.drop_first()[i - 1]);
                    }
                }
            }
        }
    }
}

/// A pattern of concrete segments followed by `#` matches exactly the
/// subjects that begin with those segments (including that subject
/// itself).
pub proof fn lemma_multi_suffix_matches(segs: Seq<Seq<char>>, c: Seq<Seq<char>>)
    ensures
        pattern_matches(concrete_pattern(segs).push(PatternSegmentView::WildcardMulti), c) <==> (
        segs.len() <= c.len() && c.take(segs.len() as int) == segs),
    decreases segs.len(),
{
    let p = concrete_pattern(segs).push(PatternSegmentView::WildcardMulti);
    if segs.len() == 0 {
        assert(c.take(0) =~= segs);
    } else {
        assert(p.drop_first() =~= concrete_pattern(segs.drop_first()).push(
            PatternSegmentView::WildcardMulti,
        ));
        assert(p[0] == PatternSegmentView::Concrete(segs[0]));
        lemma_multi_suffix_matches(segs.drop_first(), c.drop_first());
        if c.len() > 0 {
            let n = segs.len() as int;
            if segs.len() <= c.len() && c.take(n) == segs {
                assert(c[0] == c.take(n)[0]);
                assert(c.drop_first().take(n - 1) =~= segs.drop_first()) by {
                    assert forall|i: int| 0 <= i < n - 1 implies c.drop_first().take(n - 1)[i]
                        == segs.drop_first()[i] by {
                        assert(c.take(n)[i + 1] == c[i + 1]);
                    }
                }
            }
            if c[0] == segs[0] && segs.len() - 1 <= c.len() - 1 && c.drop_first().take(n - 1)
                == segs.drop_first() {
                assert(c.take(n) =~= segs) by {
                    assert forall|i: int| 0 <= i < n implies c.take(n)[i] == segs[i] by {
                        if i > 0 {
                            assert(c.drop_first().take(n - 1)[i - 1] == c[i]);
                            assert(segs.drop_first()[i - 1] == segs[i]);
                        }
                    }
                }
            }
        }
    }
}

/// Without `#`, a pattern matches exactly the subjects of its own length
/// whose segments fit its segments one by one: `+` stands for exactly
/// one segment.
pub proof fn lemma_no_multi_matches(p: Seq<PatternSegmentView>, c: Seq<Seq<char>>)
    requires
        no_multi(p),
    ensures
        pattern_matches(p, c) <==> (c.len() == p.len() && forall|i: int|
            0 <= i < p.len() ==> segment_fits(#[trigger] p[i], c[i])),
    decreases p.len(),
{
    if p.len() > 0 {
        let p1 = p.drop_first();
        let c1 = c.drop_first();
        assert(no_multi(p1)) by {
            assert forall|i: int| 0 <= i < p1.len() implies !(#[trigger] p1[i] is WildcardMulti) by {
                assert(p1[i] == p[i + 1]);
            }
        }
        lemma_no_multi_matches(p1, c1);
        assert(!(p[0] is WildcardMulti));
        if c.len() == p.len() && forall|i: int| 0 <= i < p.len() ==> segment_fits(#[trigger] p[i], c[i]) {
            assert(segment_fits(p[0], c[0]));
            assert forall|i: int| 0 <= i < p1.len() implies segment_fits(#[trigger] p1[i], c1[i]) by {
                assert(segment_fits(p[i + 1], c[i + 1]));
            }
        }
        if pattern_matches(p, c) {
            assert forall|i: int| 0 <= i < p.len() implies segment_fits(#[trigger] p[i], c[i]) by {
                if i > 0 {
                    assert(segment_fits(p1[i - 1], c1[i - 1]));
                }
            }
        }
    } else {
        if c.len() == 0 {
        }
    }
}

/// The pattern spelled by the text of a valid subject matches that
/// subject.
pub proof fn lemma_subject_text_as_pattern_matches(s: Seq<char>)
    requires
        parse_subject(s) is Ok,
    ensures
        parse_pattern(s) is Ok,
        pattern_matches(parse_pattern(s)->Ok_0, parse_subject(s)->Ok_0),
{
    let parts = split_dots(s);
    lemma_subject_parts_as_pattern(parts);
    let pat = parts.map_values(|p: Seq<char>| pattern_part(p));
    assert(pat =~= concrete_pattern(parts));
    lemma_concrete_pattern_matches(parts, parts);
}

/// For valid subject texts `prefix` and `s`, the pattern `prefix.#`
/// parses, and it matches `s` exactly when the segments of `prefix`
/// begin the segments of `s` (so `s` is `prefix` or starts with
/// `prefix.`).
pub proof fn lemma_prefix_multi_pattern(prefix: Seq<char>, s: Seq<char>)
    requires
        parse_subject(prefix) is Ok,
        parse_subject(s) is Ok,
    ensures
        parse_pattern(prefix + seq!['.', '#']) is Ok,
        pattern_matches(parse_pattern(prefix + seq!['.', '#'])->Ok_0, parse_subject(s)->Ok_0)
            <==> ({
            let ps = parse_subject(prefix)->Ok_0;
            let ss = parse_subject(s)->Ok_0;
            ps.len() <= ss.len() && ss.take(ps.len() as int) == ps
        }),
{
    let t = prefix + seq!['.', '#'];
    let parts = split_dots(prefix);
    assert(t =~= prefix + seq!['.'] + seq!['#']);
    assert(no_dots(seq!['#']));
    lemma_split_concat_dot(prefix, seq!['#']);
    let tparts = parts + seq![seq!['#']];
    assert(split_dots(t) == tparts);
    // the separators of `t` are in order
    assert(t.len() > 0 && t[0] == prefix[0]);
    assert(t.last() == '#');
    assert(!has_double_dot(t)) by {
        assert forall|i: int| 0 <= i < t.len() - 1 implies !(#[trigger] t[i] == '.' && t[i + 1]
            == '.') by {
            if i < prefix.len() - 1 {
                assert(t[i] == prefix[i] && t[i + 1] == prefix[i + 1]);
                assert(!(prefix[i] == '.' && prefix[i + 1] == '.'));
            } else if i == prefix.len() - 1 {
                assert(t[i] == prefix.last());
            }
        }
    }
    lemma_subject_parts_then_multi(parts);
    lemma_subject_parts_as_pattern(parts);
    let pat = tparts.map_values(|p: Seq<char>| pattern_part(p));
    assert(pat =~= concrete_pattern(parts).push(PatternSegmentView::WildcardMulti)) by {
        assert forall|i: int| 0 <= i < parts.len() implies pat[i] == concrete_pattern(parts)[i] by {
            assert(tparts[i] == parts[i]);
        }
        assert(tparts[parts.len() as int] == seq!['#']);
    }
    lemma_multi_suffix_matches(parts, parse_subject(s)->Ok_0);
}

/// A pattern ending in `#` matches exactly the subjects that have at
/// least as many segments as the pattern has before `#`, and whose first
/// segments fit those pattern segments one by one: a concrete segment by
/// equality, `+` any one segment. The subject may end right there: `#`
/// matches zero segments.
pub proof fn lemma_multi_last_matches(q: Seq<PatternSegmentView>, c: Seq<Seq<char>>)
    requires
        no_multi(q),
    ensures
        pattern_matches(q.push(PatternSegmentView::WildcardMulti), c) <==> (q.len() <= c.len()
            && forall|i: int|
            0 <= i < q.len() ==> (#[trigger] q[i] is Concrete ==> c[i] == q[i]->Concrete_0)),
    decreases q.len(),
{
    let p = q.push(PatternSegmentView::WildcardMulti);
    if q.len() > 0 {
        let q1 = q.drop_first();
        let c1 = c.drop_first();
        assert(no_multi(q1)) by {
            assert forall|i: int| 0 <= i < q1.len() implies !(#[trigger] q1[i] is WildcardMulti) by {
                assert(q1[i] == q[i + 1]);
            }
        }
        assert(p.drop_first() =~= q1.push(PatternSegmentView::WildcardMulti));
        assert(p[0] == q[0]);
        assert(!(q[0] is WildcardMulti));
        lemma_multi_last_matches(q1, c1);
        if q.len() <= c.len() && forall|i: int|
            0 <= i < q.len() ==> (#[trigger] q[i] is Concrete ==> c[i] == q[i]->Concrete_0) {
            assert(q[0] is Concrete ==> c[0] == q[0]->Concrete_0);
            assert forall|i: int| 0 <= i < q1.len() implies (#[trigger] q1[i] is Concrete ==> c1[i]
                == q1[i]->Concrete_0) by {
                assert(q1[i] == q[i + 1]);
                assert(q[i + 1] is Concrete ==> c[i + 1] == q[i + 1]->Concrete_0);
            }
        }
        if pattern_matches(p, c) {
            assert forall|i: int| 0 <= i < q.len() implies (#[trigger] q[i] is Concrete ==> c[i]
                == q[i]->Concrete_0) by {
                if i > 0 {
                    assert(q1[i - 1] == q[i]);
                    assert(q1[i - 1] is Concrete ==> c1[i - 1] == q1[i - 1]->Concrete_0);
                }
            }
        }
    } else {
        assert(p[0] is WildcardMulti);
    }
}

/// What a well-formed pattern matches, over all subjects: with a final
/// `#`, every subject whose leading segments fit the segments before `#`
/// (zero or more segments may follow); without one, every subject of
/// the pattern's length whose segments fit the pattern's one by one. A
/// concrete segment fits only an equal segment, `+` fits any one.
pub proof fn lemma_pattern_matches_exactly(p: Seq<PatternSegmentView>, c: Seq<Seq<char>>)
    requires
        pattern_wf(p),
    ensures
        p.len() > 0 && p.last() is WildcardMulti ==> (pattern_matches(p, c) <==> (p.len() - 1
            <= c.len() && forall|i: int|
            0 <= i < p.len() - 1 ==> (#[trigger] p[i] is Concrete ==> c[i] == p[i]->Concrete_0))),
        !(p.len() > 0 && p.last() is WildcardMulti) ==> (pattern_matches(p, c) <==> (p.len()
            == c.len() && forall|i: int|
            0 <= i < p.len() ==> (#[trigger] p[i] is Concrete ==> c[i] == p[i]->Concrete_0))),
{
    if p.len() > 0 && p.last() is WildcardMulti {
        let q = p.drop_last();
        assert(no_multi(q)) by {
            assert forall|i: int| 0 <= i < q.len() implies !(#[trigger] q[i] is WildcardMulti) by {
                assert(q[i] == p[i]);
            }
        }
        assert(q.push(PatternSegmentView::WildcardMulti) =~= p);
        lemma_multi_last_matches(q, c);
        assert(forall|i: int| 0 <= i < q.len() ==> #[trigger] q[i] == p[i]);
    } else {
        assert(no_multi(p)) by {
            assert forall|i: int| 0 <= i < p.len() implies !(#[trigger] p[i] is WildcardMulti) by {
                if i < p.len() - 1 {
                } else {
                    assert(p[i] == p.last());
                }
            }
        }
        lemma_no_multi_matches(p, c);
    }
}

/// A leading `+` consumes exactly one segment: the pattern matches a
/// subject exactly when the subject is non-empty and the rest of the
/// pattern matches the rest of the subject.
pub proof fn lemma_leading_wildcard_one(p: Seq<PatternSegmentView>, c: Seq<Seq<char>>)
    requires
        p.len() > 0,
        p[0] is WildcardOne,
    ensures
        pattern_matches(p, c) <==> (c.len() > 0 && pattern_matches(p.drop_first(), c.drop_first())),
{
}

/// A segment is accepted exactly when it is non-empty and made of ASCII
/// letters, digits, `_` and `-`.
pub proof fn lemma_segment_charset(s: Seq<char>)
    ensures
        segment_error(s) is None <==> (s.len() > 0 && forall|k: int|
            0 <= k < s.len() ==> {
                let ch = #[trigger] s[k];
                ('a' <= ch <= 'z') || ('A' <= ch <= 'Z') || ('0' <= ch <= '9') || ch == '_' || ch
                    == '-'
            }),
{
}

/// Dot-joined text of non-empty separator-free pieces: non-empty, with
/// no separator at either end and no two in a row.
proof fn lemma_join_separators(parts: Seq<Seq<char>>)
    requires
        parts.len() > 0,
        forall|i: int| 0 <= i < parts.len() ==> (#[trigger] parts[i]).len() > 0,
        forall|i: int| 0 <= i < parts.len() ==> no_dots(#[trigger] parts[i]),
    ensures
        separator_error(join_dots(parts)) is None,
    decreases parts.len(),
{
    let j = join_dots(parts);
    if parts.len() == 1 {
        assert(no_dots(parts[0]));
        assert(j == parts[0]);
        assert(j[0] != '.');
        assert(j.last() != '.');
        assert(!has_double_dot(j));
    } else {
        let init = parts.drop_last();
        let l = parts.last();
        assert forall|i: int| 0 <= i < init.len() implies (#[trigger] init[i]).len() > 0 && no_dots(
            init[i],
        ) by {
            assert(init[i] == parts[i]);
        }
        lemma_join_separators(init);
        let a = join_dots(init);
        assert(j == a + seq!['.'] + l);
        assert(no_dots(l));
        assert(l.len() > 0);
        assert(j[0] == a[0]);
        assert(j.last() == l.last());
        assert(!has_double_dot(j)) by {
            assert forall|i: int| 0 <= i < j.len() - 1 implies !(#[trigger] j[i] == '.' && j[i + 1]
                == '.') by {
                if i < a.len() - 1 {
                    assert(j[i] == a[i] && j[i + 1] == a[i + 1]);
                    assert(!(a[i] == '.' && a[i + 1] == '.'));
                } else if i == a.len() - 1 {
                    assert(j[i] == a.last());
                } else if i == a.len() {
                    assert(j[i + 1] == l[0]);
                } else {
                    assert(j[i] == l[i - a.len() - 1]);
                }
            }
        }
    }
}

/// Pieces each accepted as a concrete segment leave no piece rejected.
proof fn lemma_no_part_error(parts: Seq<Seq<char>>)
    requires
        forall|i: int| 0 <= i < parts.len() ==> subject_part_error(#[trigger] parts[i]) is None,
    ensures
        first_subject_part_error(parts) is None,
    decreases parts.len(),
{
    if parts.len() > 0 {
        assert forall|i: int| 0 <= i < parts.len() - 1 implies subject_part_error(
            #[trigger] parts.drop_first()[i],
        ) is None by {
            assert(parts.drop_first()[i] == parts[i + 1]);
        }
        assert(subject_part_error(parts[0]) is None);
        lemma_no_part_error(parts.drop_first());
    }
}

/// Every dot-joined sequence of one or more non-empty texts over ASCII
/// letters, digits, `_` and `-` parses as the subject of exactly those
/// segments.
pub proof fn lemma_charset_texts_parse(parts: Seq<Seq<char>>)
    requires
        parts.len() > 0,
        forall|i: int| 0 <= i < parts.len() ==> (#[trigger] parts[i]).len() > 0,
        forall|i: int, k: int|
            0 <= i < parts.len() && 0 <= k < parts[i].len() ==> {
                let ch = #[trigger] parts[i][k];
                ('a' <= ch <= 'z') || ('A' <= ch <= 'Z') || ('0' <= ch <= '9') || ch == '_' || ch
                    == '-'
            },
    ensures
        parse_subject(join_dots(parts)) == Ok::<Seq<Seq<char>>, SubjectErrorView>(parts),
{
    assert forall|i: int| 0 <= i < parts.len() implies no_dots(#[trigger] parts[i]) && subject_part_error(
        parts[i],
    ) is None by {
        let x = parts[i];
        assert forall|k: int| 0 <= k < x.len() implies x[k] != '.' by {
            assert(parts[i][k] == x[k]);
        }
        assert(all_segment_chars(x)) by {
            assert forall|k: int| 0 <= k < x.len() implies is_segment_char(#[trigger] x[k]) by {
                assert(parts[i][k] == x[k]);
            }
        }
        if is_token(x, '+') {
            assert(parts[i][0] == x[0]);
        }
        if is_token(x, '#') {
            assert(parts[i][0] == x[0]);
        }
    }
    lemma_join_separators(parts);
    lemma_split_join(parts);
    lemma_no_part_error(parts);
}

} // verus!
