//! Broker-style wildcard topic patterns and their structural matching.
//!
//! A pattern is split on `/` into segments; a segment is literal text, the
//! single-level wildcard `+`, or the trailing multi-level wildcard `#`.
//! Matching is purely structural: characters that other matching engines
//! treat as operators have no special meaning here.

use vstd::prelude::*;
use crate::text::{char_vecs_eq, str_chars, views_of};

verus! {

/// One compiled segment of a topic pattern.
#[derive(Debug)]
pub enum Segment {
    Literal(Vec<char>),
    SingleWildcard,
    MultiWildcard,
}

/// The mathematical shape of a segment.
pub enum SegShape {
    Literal(Seq<char>),
    SingleWildcard,
    MultiWildcard,
}

impl View for Segment {
    type V = SegShape;

    open spec fn view(&self) -> SegShape {
        match self {
            Segment::Literal(l) => SegShape::Literal(l@),
            Segment::SingleWildcard => SegShape::SingleWildcard,
            Segment::MultiWildcard => SegShape::MultiWildcard,
        }
    }
}

/// Splitting a character sequence on a separator, in the manner of
/// `str::split`: `n` separators yield `n + 1` parts, empty parts included.
pub open spec fn spec_split(s: Seq<char>, sep: char) -> Seq<Seq<char>>
    decreases s.len(),
{
    if s.len() == 0 {
        seq![Seq::<char>::empty()]
    } else {
        let rest = spec_split(s.drop_first(), sep);
        if s[0] == sep {
            seq![Seq::<char>::empty()] + rest
        } else {
            seq![seq![s[0]] + rest[0]] + rest.drop_first()
        }
    }
}

pub proof fn lemma_split_len(s: Seq<char>, sep: char)
    ensures
        spec_split(s, sep).len() >= 1,
    decreases s.len(),
{
    if s.len() > 0 {
        lemma_split_len(s.drop_first(), sep);
    }
}

/// No part of a split contains the separator it was split on.
pub proof fn lemma_split_no_sep(s: Seq<char>, sep: char)
    ensures
        forall|i: int, j: int|
            0 <= i < spec_split(s, sep).len() && 0 <= j < spec_split(s, sep)[i].len()
                ==> spec_split(s, sep)[i][j] != sep,
    decreases s.len(),
{
    if s.len() > 0 {
        lemma_split_no_sep(s.drop_first(), sep);
        lemma_split_len(s.drop_first(), sep);
    }
}

/// Splits a character vector on a separator, in the manner of `str::split`.
pub fn split_chars(v: &Vec<char>, sep: char) -> (r: Vec<Vec<char>>)
    ensures
        views_of(r@) == spec_split(v@, sep),
{
    let mut segs: Vec<Vec<char>> = Vec::new();
    segs.push(Vec::new());
    let mut i: usize = v.len();
    proof {
        assert(v@.skip(i as int) =~= Seq::<char>::empty());
        assert(views_of(segs@) =~= spec_split(v@.skip(i as int), sep));
    }
    while i > 0
        invariant
            i <= v@.len(),
            segs@.len() >= 1,
            views_of(segs@) == spec_split(v@.skip(i as int), sep),
        decreases i,
    {
        let ghost old_segs = segs@;
        let ghost tail = v@.skip(i as int);
        let c = v[i - 1];
        proof {
            assert(v@.skip(i - 1 as int).drop_first() =~= tail);
            assert(v@.skip(i - 1 as int)[0] == v@[i - 1]);
        }
        if c == sep {
            segs.insert(0, Vec::new());
            proof {
                assert(views_of(segs@) =~= seq![Seq::<char>::empty()] + spec_split(tail, sep));
            }
        } else {
            let mut first = segs.remove(0);
            first.insert(0, c);
            segs.insert(0, first);
            proof {
                lemma_split_len(tail, sep);
                assert(views_of(old_segs)[0] == old_segs[0]@);
                assert(views_of(segs@) =~~= seq![seq![v@[i - 1]] + spec_split(tail, sep)[0]]
                    + spec_split(tail, sep).drop_first());
            }
        }
        i = i - 1;
    }
    proof {
        assert(v@.skip(0) =~= v@);
    }
    segs
}

/// Whether a single pattern segment accepts a single topic segment.
pub open spec fn seg_accepts(s: SegShape, seg: Seq<char>) -> bool {
    match s {
        SegShape::Literal(l) => seg == l,
        SegShape::SingleWildcard => seg.len() > 0,
        SegShape::MultiWildcard => true,
    }
}

/// Matching of pattern segments against topic segments from position `i` on.
/// A literal requires character-for-character equality, a single wildcard a
/// non-empty segment, and a multi-level wildcard one or more remaining
/// segments regardless of content.
pub open spec fn spec_matches_from(p: Seq<SegShape>, t: Seq<Seq<char>>, i: int) -> bool
    decreases p.len() - i,
{
    if i >= p.len() {
        t.len() == i
    } else {
        match p[i] {
            SegShape::Literal(l) => i < t.len() && t[i] == l && spec_matches_from(p, t, i + 1),
            SegShape::SingleWildcard => i < t.len() && t[i].len() > 0 && spec_matches_from(
                p,
                t,
                i + 1,
            ),
            SegShape::MultiWildcard => i < t.len(),
        }
    }
}

/// Whether a compiled pattern matches a sequence of topic segments.
pub open spec fn spec_matches(p: Seq<SegShape>, t: Seq<Seq<char>>) -> bool {
    spec_matches_from(p, t, 0)
}

/// Whether a compiled pattern matches a topic string.
pub open spec fn spec_topic_matches(p: Seq<SegShape>, topic: Seq<char>) -> bool {
    spec_matches(p, spec_split(topic, '/'))
}

/// The shape a pattern part compiles to: exactly `+` is the single-level
/// wildcard, exactly `#` the multi-level one, anything else literal text.
pub open spec fn seg_shape_of(s: Seq<char>) -> SegShape {
    if s == seq!['+'] {
        SegShape::SingleWildcard
    } else if s == seq!['#'] {
        SegShape::MultiWildcard
    } else {
        SegShape::Literal(s)
    }
}

/// The segment shapes a pattern string compiles to.
pub open spec fn spec_compile(pattern: Seq<char>) -> Seq<SegShape> {
    spec_split(pattern, '/').map_values(|s: Seq<char>| seg_shape_of(s))
}

/// A multi-level wildcard standing anywhere but last makes a pattern invalid.
pub open spec fn has_nonfinal_multi(pattern: Seq<char>) -> bool {
    exists|i: int|
        0 <= i < spec_split(pattern, '/').len() - 1 && spec_split(pattern, '/')[i] == seq!['#']
}

/// A well-formed pattern keeps its multi-level wildcard, if any, last.
pub open spec fn pattern_wf(p: Seq<SegShape>) -> bool {
    forall|i: int| 0 <= i < p.len() - 1 ==> !(p[i] is MultiWildcard)
}

/// The error a malformed pattern compiles to.
#[derive(Debug, Clone, Copy, PartialEq, Eq, Structural)]
pub enum PatternError {
    MultiWildcardNotLast,
}

/// A compiled, immutable topic pattern together with the filter string it
/// was compiled from.
#[derive(Debug)]
pub struct TopicPattern {
    source: Vec<char>,
    segments: Vec<Segment>,
}

impl View for TopicPattern {
    type V = Seq<SegShape>;

    closed spec fn view(&self) -> Seq<SegShape> {
        self.segments@.map_values(|s: Segment| s@)
    }
}

impl TopicPattern {
    /// The characters of the filter string this pattern was compiled from.
    pub closed spec fn filter_view(&self) -> Seq<char> {
        self.source@
    }

    /// Compiles a filter string into a pattern, one segment per `/`-separated
    /// part. Fails if a `#` part stands anywhere but last.
    pub fn compile(pattern: &str) -> (r: Result<TopicPattern, PatternError>)
        ensures
            match r {
                Ok(tp) => !has_nonfinal_multi(pattern@) && tp@ == spec_compile(pattern@)
                    && tp.filter_view() == pattern@ && pattern_wf(tp@),
                Err(e) => has_nonfinal_multi(pattern@) && e == PatternError::MultiWildcardNotLast,
            },
    {
        let chars = str_chars(pattern);
        let parts = split_chars(&chars, '/');
        let ghost sp = spec_split(pattern@, '/');
        let n = parts.len();
        let mut segments: Vec<Segment> = Vec::new();
        let mut i: usize = 0;
        while i < n
            invariant
                i <= n,
                n == sp.len(),
                sp == spec_split(pattern@, '/'),
                sp == views_of(parts@),
                segments@.len() == i,
                forall|j: int| 0 <= j < i ==> segments@[j]@ == seg_shape_of(sp[j]),
                forall|j: int| 0 <= j < i && j < n - 1 ==> sp[j] != seq!['#'],
            decreases n - i,
        {
            let part = &parts[i];
            proof {
                assert(sp[i as int] == part@);
            }
            if part.len() == 1 && part[0] == '+' {
                proof {
                    assert(part@ =~= seq!['+']);
                }
                segments.push(Segment::SingleWildcard);
            } else if part.len() == 1 && part[0] == '#' {
                proof {
                    assert(part@ =~= seq!['#']);
                }
                if i + 1 != n {
                    proof {
                        assert(spec_split(pattern@, '/')[i as int] == seq!['#']);
                        assert(has_nonfinal_multi(pattern@));
                    }
                    return Err(PatternError::MultiWildcardNotLast);
                }
                segments.push(Segment::MultiWildcard);
            } else {
                proof {
                    assert(part@ != seq!['+']) by {
                        if part@ == seq!['+'] {
                            assert(part@.len() == 1 && part@[0] == '+');
                        }
                    }
                    assert(part@ != seq!['#']) by {
                        if part@ == seq!['#'] {
                            assert(part@.len() == 1 && part@[0] == '#');
                        }
                    }
                }
                let mut lit: Vec<char> = Vec::new();
                let mut k: usize = 0;
                while k < part.len()
                    invariant
                        k <= part@.len(),
                        lit@ == part@.take(k as int),
                    decreases part@.len() - k,
                {
                    lit.push(part[k]);
                    k = k + 1;
                    proof {
                        assert(lit@ =~= part@.take(k as int));
                    }
                }
                proof {
                    assert(lit@ =~= part@);
                }
                segments.push(Segment::Literal(lit));
            }
            i = i + 1;
        }
        let tp = TopicPattern { source: chars, segments };
        proof {
            assert(!has_nonfinal_multi(pattern@));
            assert(tp@ =~= spec_compile(pattern@));
        }
        Ok(tp)
    }

    /// The filter string this pattern was compiled from, for subscribing.
    pub fn topic_filter(&self) -> (r: String)
        ensures
            r@ == self.filter_view(),
    {
        crate::text::chars_string(&self.source)
    }

    /// Whether this pattern matches a topic string, segment by segment.
    pub fn matches(&self, topic: &str) -> (r: bool)
        ensures
            r == spec_topic_matches(self@, topic@),
    {
        let tchars = str_chars(topic);
        let tsegs = split_chars(&tchars, '/');
        let ghost tv = spec_split(topic@, '/');
        let np = self.segments.len();
        let nt = tsegs.len();
        let mut i: usize = 0;
        while i < np
            invariant
                i <= np,
                np == self@.len(),
                np == self.segments@.len(),
                nt == tv.len(),
                tv == spec_split(topic@, '/'),
                tv == views_of(tsegs@),
                spec_matches(self@, tv) <==> spec_matches_from(self@, tv, i as int),
            decreases np - i,
        {
            proof {
                assert(self@[i as int] == self.segments@[i as int]@);
            }
            let seg = &self.segments[i];
            match seg {
                Segment::Literal(l) => {
                    if i >= nt {
                        return false;
                    }
                    proof {
                        assert(tv[i as int] == tsegs@[i as int]@);
                    }
                    if !char_vecs_eq(l, &tsegs[i]) {
                        return false;
                    }
                },
                Segment::SingleWildcard => {
                    if i >= nt {
                        return false;
                    }
                    proof {
                        assert(tv[i as int] == tsegs@[i as int]@);
                    }
                    if tsegs[i].len() == 0 {
                        return false;
                    }
                },
                Segment::MultiWildcard => {
                    return i < nt;
                },
            }
            i = i + 1;
        }
        nt == np
    }
}

proof fn lemma_matches_from_no_multi(p: Seq<SegShape>, t: Seq<Seq<char>>, i: int)
    requires
        0 <= i <= p.len(),
        forall|j: int| i <= j < p.len() ==> !(p[j] is MultiWildcard),
    ensures
        spec_matches_from(p, t, i) <==> (t.len() == p.len() && forall|j: int|
            i <= j < p.len() ==> seg_accepts(p[j], t[j])),
    decreases p.len() - i,
{
    if i < p.len() {
        lemma_matches_from_no_multi(p, t, i + 1);
    }
}

/// Without a multi-level wildcard, a pattern matches exactly the topics with
/// the same number of segments whose literal segments are equal and whose
/// single-wildcard positions hold a non-empty segment.
pub proof fn lemma_matches_no_multi(p: Seq<SegShape>, t: Seq<Seq<char>>)
    requires
        forall|i: int| 0 <= i < p.len() ==> !(p[i] is MultiWildcard),
    ensures
        spec_matches(p, t) <==> (t.len() == p.len() && forall|i: int|
            0 <= i < p.len() ==> seg_accepts(p[i], t[i])),
{
    lemma_matches_from_no_multi(p, t, 0);
}

proof fn lemma_matches_from_trailing_multi(p: Seq<SegShape>, t: Seq<Seq<char>>, i: int)
    requires
        0 <= i <= p.len() - 1,
        p.len() > 0,
        p.last() is MultiWildcard,
        forall|j: int| 0 <= j < p.len() - 1 ==> !(p[j] is MultiWildcard),
    ensures
        spec_matches_from(p, t, i) <==> (t.len() >= p.len() && forall|j: int|
            i <= j < p.len() - 1 ==> seg_accepts(p[j], t[j])),
    decreases p.len() - i,
{
    if i < p.len() - 1 {
        lemma_matches_from_trailing_multi(p, t, i + 1);
    }
}

/// With a multi-level wildcard as its final segment, a pattern matches
/// exactly the topics with at least as many segments whose earlier segments
/// are accepted one for one; the wildcard takes the one or more segments
/// that remain, whatever they hold.
pub proof fn lemma_matches_trailing_multi(p: Seq<SegShape>, t: Seq<Seq<char>>)
    requires
        p.len() > 0,
        p.last() is MultiWildcard,
        forall|j: int| 0 <= j < p.len() - 1 ==> !(p[j] is MultiWildcard),
    ensures
        spec_matches(p, t) <==> (t.len() >= p.len() && forall|j: int|
            0 <= j < p.len() - 1 ==> seg_accepts(p[j], t[j])),
{
    lemma_matches_from_trailing_multi(p, t, 0);
}

} // verus!
