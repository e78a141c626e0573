//! Character and string primitives shared by the pattern matcher, the
//! message builders and the label helpers: reading a `&str` into characters,
//! building a `String` back up, and the whitespace classification used when
//! splitting phrases into words.

use vstd::prelude::*;
use vstd::string::*;

verus! {

/// The Unicode `White_Space` property, the class `str::split_whitespace`
/// splits on.
pub open spec fn spec_is_whitespace(c: char) -> bool {
    c == ' ' || c == '\t' || c == '\n' || c == '\u{b}' || c == '\u{c}' || c == '\r'
        || c == '\u{85}' || c == '\u{a0}' || c == '\u{1680}'
        || ('\u{2000}' <= c && c <= '\u{200a}')
        || c == '\u{2028}' || c == '\u{2029}' || c == '\u{202f}' || c == '\u{205f}'
        || c == '\u{3000}'
}

/// Decides the `White_Space` property of a character.
pub fn is_whitespace_char(c: char) -> (r: bool)
    ensures
        r == spec_is_whitespace(c),
{
    c == ' ' || c == '\t' || c == '\n' || c == '\u{b}' || c == '\u{c}' || c == '\r'
        || c == '\u{85}' || c == '\u{a0}' || c == '\u{1680}'
        || ('\u{2000}' <= c && c <= '\u{200a}')
        || c == '\u{2028}' || c == '\u{2029}' || c == '\u{202f}' || c == '\u{205f}'
        || c == '\u{3000}'
}

/// Relies on `String::push`: appends the given character to the end of the
/// string.
#[verifier::external_body]
pub(crate) fn push_char(s: &mut String, c: char)
    ensures
        final(s)@ == old(s)@.push(c),
{
    s.push(c)
}

/// Reads a string slice into its sequence of characters.
pub fn str_chars(s: &str) -> (v: Vec<char>)
    ensures
        v@ == s@,
{
    let n = s.unicode_len();
    let mut v: Vec<char> = Vec::new();
    let mut i: usize = 0;
    while i < n
        invariant
            i <= n,
            n == s@.len(),
            v@ == s@.take(i as int),
        decreases n - i,
    {
        v.push(s.get_char(i));
        i = i + 1;
        proof {
            assert(v@ =~= s@.take(i as int));
        }
    }
    proof {
        assert(v@ =~= s@);
    }
    v
}

/// Builds a `String` holding exactly the given characters.
pub fn chars_string(v: &Vec<char>) -> (s: String)
    ensures
        s@ == v@,
{
    let mut s = String::new();
    let mut i: usize = 0;
    while i < v.len()
        invariant
            i <= v@.len(),
            s@ == v@.take(i as int),
        decreases v@.len() - i,
    {
        push_char(&mut s, v[i]);
        i = i + 1;
        proof {
            assert(s@ =~= v@.take(i as int));
        }
    }
    proof {
        assert(s@ =~= v@);
    }
    s
}

/// Appends the characters of a string slice to a character vector.
pub fn append_str_chars(out: &mut Vec<char>, s: &str)
    ensures
        final(out)@ == old(out)@ + s@,
{
    let n = s.unicode_len();
    let mut i: usize = 0;
    proof {
        assert(out@ =~= old(out)@ + s@.take(0));
    }
    while i < n
        invariant
            i <= n,
            n == s@.len(),
            out@ == old(out)@ + s@.take(i as int),
        decreases n - i,
    {
        out.push(s.get_char(i));
        i = i + 1;
        proof {
            assert(out@ =~= old(out)@ + s@.take(i as int));
        }
    }
    proof {
        assert(old(out)@ + s@.take(n as int) =~= old(out)@ + s@);
    }
}

/// Appends one character vector to another.
pub fn append_chars(out: &mut Vec<char>, s: &Vec<char>)
    ensures
        final(out)@ == old(out)@ + s@,
{
    let n = s.len();
    let mut i: usize = 0;
    proof {
        assert(out@ =~= old(out)@ + s@.take(0));
    }
    while i < n
        invariant
            i <= n,
            n == s@.len(),
            out@ == old(out)@ + s@.take(i as int),
        decreases n - i,
    {
        out.push(s[i]);
        i = i + 1;
        proof {
            assert(out@ =~= old(out)@ + s@.take(i as int));
        }
    }
    proof {
        assert(old(out)@ + s@.take(n as int) =~= old(out)@ + s@);
    }
}

/// The views of a vector of character vectors.
pub open spec fn views_of(ws: Seq<Vec<char>>) -> Seq<Seq<char>> {
    ws.map_values(|w: Vec<char>| w@)
}

/// The decimal digit character for a value below ten.
pub open spec fn spec_dec_digit(d: int) -> char {
    if d == 0 {
        '0'
    } else if d == 1 {
        '1'
    } else if d == 2 {
        '2'
    } else if d == 3 {
        '3'
    } else if d == 4 {
        '4'
    } else if d == 5 {
        '5'
    } else if d == 6 {
        '6'
    } else if d == 7 {
        '7'
    } else if d == 8 {
        '8'
    } else {
        '9'
    }
}

/// The decimal notation of a non-negative number, most significant digit
/// first and without leading zeros (a lone zero for zero itself).
pub open spec fn spec_dec_of(n: int) -> Seq<char>
    decreases n,
{
    if n < 10 {
        seq![spec_dec_digit(n)]
    } else {
        spec_dec_of(n / 10) + seq![spec_dec_digit(n % 10)]
    }
}

fn dec_digit(d: u16) -> (c: char)
    requires
        d < 10,
    ensures
        c == spec_dec_digit(d as int),
{
    if d == 0 {
        '0'
    } else if d == 1 {
        '1'
    } else if d == 2 {
        '2'
    } else if d == 3 {
        '3'
    } else if d == 4 {
        '4'
    } else if d == 5 {
        '5'
    } else if d == 6 {
        '6'
    } else if d == 7 {
        '7'
    } else if d == 8 {
        '8'
    } else {
        '9'
    }
}

/// Appends the decimal notation of a port number to a character vector.
pub fn append_u16_dec(out: &mut Vec<char>, n: u16)
    ensures
        final(out)@ == old(out)@ + spec_dec_of(n as int),
    decreases n,
{
    if n < 10 {
        out.push(dec_digit(n));
        proof {
            assert(out@ =~= old(out)@ + spec_dec_of(n as int));
        }
    } else {
        append_u16_dec(out, n / 10);
        out.push(dec_digit(n % 10));
        proof {
            assert(out@ =~= old(out)@ + spec_dec_of(n as int));
        }
    }
}

/// Compares two character vectors for equality of their contents.
pub fn char_vecs_eq(a: &Vec<char>, b: &Vec<char>) -> (r: bool)
    ensures
        r == (a@ == b@),
{
    if a.len() != b.len() {
        return false;
    }
    let mut i: usize = 0;
    while i < a.len()
        invariant
            i <= a@.len(),
            a@.len() == b@.len(),
            forall|j: int| 0 <= j < i ==> a@[j] == b@[j],
        decreases a@.len() - i,
    {
        if a[i] != b[i] {
            return false;
        }
        i = i + 1;
    }
    proof {
        assert(a@ =~= b@);
    }
    true
}

/// The whitespace-separated words of a phrase, in the manner of
/// `str::split_whitespace`: runs of whitespace separate words, leading and
/// trailing whitespace is dropped, and no word is empty.
pub open spec fn spec_words(s: Seq<char>) -> Seq<Seq<char>>
    decreases s.len(),
{
    if s.len() == 0 {
        Seq::<Seq<char>>::empty()
    } else {
        let rest = spec_words(s.drop_first());
        if spec_is_whitespace(s[0]) {
            rest
        } else if s.len() > 1 && !spec_is_whitespace(s[1]) {
            seq![seq![s[0]] + rest[0]] + rest.drop_first()
        } else {
            seq![seq![s[0]]] + rest
        }
    }
}

proof fn lemma_words_leading_word(s: Seq<char>)
    requires
        s.len() > 0,
        !spec_is_whitespace(s[0]),
    ensures
        spec_words(s).len() >= 1,
        spec_words(s)[0].len() >= 1,
        spec_words(s)[0][0] == s[0],
    decreases s.len(),
{
    if s.len() > 1 && !spec_is_whitespace(s[1]) {
        lemma_words_leading_word(s.drop_first());
        assert(s.drop_first()[0] == s[1]);
    }
}

/// Splits a character vector into its whitespace-separated words.
pub fn split_whitespace_chars(v: &Vec<char>) -> (ws: Vec<Vec<char>>)
    ensures
        views_of(ws@) == spec_words(v@),
{
    let mut ws: Vec<Vec<char>> = Vec::new();
    let mut i: usize = v.len();
    proof {
        assert(v@.skip(i as int) =~= Seq::<char>::empty());
        assert(views_of(ws@) =~= spec_words(v@.skip(i as int)));
    }
    while i > 0
        invariant
            i <= v@.len(),
            views_of(ws@) == spec_words(v@.skip(i as int)),
        decreases i,
    {
        let ghost old_ws = ws@;
        let ghost tail = v@.skip(i as int);
        let c = v[i - 1];
        proof {
            assert(v@.skip(i - 1 as int).drop_first() =~= tail);
            assert(v@.skip(i - 1 as int)[0] == v@[i - 1]);
        }
        if is_whitespace_char(c) {
            proof {
                assert(views_of(ws@) =~= spec_words(v@.skip(i - 1 as int)));
            }
        } else if i < v.len() && !is_whitespace_char(v[i]) {
            proof {
                assert(tail[0] == v@[i as int]);
                lemma_words_leading_word(tail);
                assert(old_ws.len() >= 1);
            }
            let mut first = ws.remove(0);
            first.insert(0, c);
            ws.insert(0, first);
            proof {
                assert(views_of(old_ws)[0] == old_ws[0]@);
                assert(views_of(ws@) =~~= seq![seq![v@[i - 1]] + spec_words(tail)[0]]
                    + spec_words(tail).drop_first());
                assert(views_of(ws@) =~= spec_words(v@.skip(i - 1 as int)));
            }
        } else {
            let mut nw: Vec<char> = Vec::new();
            nw.push(c);
            ws.insert(0, nw);
            proof {
                assert(views_of(ws@) =~~= seq![seq![v@[i - 1]]] + spec_words(tail));
                assert(views_of(ws@) =~= spec_words(v@.skip(i - 1 as int)));
            }
        }
        i = i - 1;
    }
    proof {
        assert(v@.skip(0) =~= v@);
    }
    ws
}

/// The total character count of a list of words.
pub open spec fn sum_lens(ws: Seq<Seq<char>>) -> int
    decreases ws.len(),
{
    if ws.len() == 0 {
        0
    } else {
        ws[0].len() + sum_lens(ws.drop_first())
    }
}

proof fn lemma_sum_lens_push(ws: Seq<Seq<char>>, w: Seq<char>)
    ensures
        sum_lens(ws.push(w)) == sum_lens(ws) + w.len(),
    decreases ws.len(),
{
    if ws.len() == 0 {
        assert(ws.push(w)[0] == w);
        assert(ws.push(w).drop_first() =~= Seq::<Seq<char>>::empty());
        assert(sum_lens(Seq::<Seq<char>>::empty()) == 0);
        assert(sum_lens(ws.push(w)) == w.len() + 0);
    } else {
        lemma_sum_lens_push(ws.drop_first(), w);
        assert(ws.push(w)[0] == ws[0]);
        assert(ws.push(w).drop_first() =~= ws.drop_first().push(w));
        assert(sum_lens(ws.push(w)) == ws[0].len() + sum_lens(ws.drop_first().push(w)));
        assert(sum_lens(ws) == ws[0].len() + sum_lens(ws.drop_first()));
    }
}

/// Whether the word at index `k` still falls inside the length budget: a
/// word is kept while its index plus one plus the characters of all earlier
/// kept words stays below the minimum length.
pub open spec fn word_taken(ws: Seq<Seq<char>>, min_length: int, k: int) -> bool {
    k + 1 + sum_lens(ws.take(k)) < min_length
}

/// The number of leading words the budget keeps, scanning from `k`.
pub open spec fn spec_num_taken(ws: Seq<Seq<char>>, min_length: int, k: int) -> int
    decreases ws.len() - k,
{
    if k < 0 || k >= ws.len() {
        k
    } else if word_taken(ws, min_length, k) {
        spec_num_taken(ws, min_length, k + 1)
    } else {
        k
    }
}

/// Words joined by single spaces.
pub open spec fn spec_join(ws: Seq<Seq<char>>) -> Seq<char>
    decreases ws.len(),
{
    if ws.len() == 0 {
        Seq::<char>::empty()
    } else if ws.len() == 1 {
        ws[0]
    } else {
        ws[0] + seq![' '] + spec_join(ws.drop_first())
    }
}

proof fn lemma_join_push(ws: Seq<Seq<char>>, w: Seq<char>)
    requires
        ws.len() >= 1,
    ensures
        spec_join(ws.push(w)) == spec_join(ws) + seq![' '] + w,
    decreases ws.len(),
{
    if ws.len() == 1 {
        assert(ws.push(w)[0] == ws[0]);
        assert(ws.push(w).drop_first() =~= seq![w]);
        assert(spec_join(seq![w]) == w);
        assert(spec_join(ws.push(w)) =~= spec_join(ws) + seq![' '] + w);
    } else {
        lemma_join_push(ws.drop_first(), w);
        assert(ws.push(w)[0] == ws[0]);
        assert(ws.push(w).drop_first() =~= ws.drop_first().push(w));
        assert(spec_join(ws.push(w)) =~= spec_join(ws) + seq![' '] + w);
    }
}

/// The shortened form of a phrase: the longest run of leading words whose
/// indices and characters stay below the minimum length, joined by single
/// spaces, with an ellipsis appended whenever that differs from the phrase
/// itself.
pub open spec fn spec_ellipt(s: Seq<char>, min_length: int) -> Seq<char> {
    let ws = spec_words(s);
    let k = spec_num_taken(ws, min_length, 0);
    let j = spec_join(ws.take(k));
    if j == s {
        j
    } else {
        j + "..."@
    }
}

/// Shortens a phrase for display: keeps leading whole words while the
/// running length stays below `min_length`, joins them by single spaces,
/// and marks anything cut off — or any reflowed whitespace — with `...`.
pub fn ellipt(phrase: &str, min_length: usize) -> (r: String)
    ensures
        r@ == spec_ellipt(phrase@, min_length as int),
{
    let chars = str_chars(phrase);
    let ws = split_whitespace_chars(&chars);
    let ghost wsv = views_of(ws@);
    let ghost ml = min_length as int;
    let n = ws.len();
    let mut k: usize = 0;
    let mut weight: u128 = 1;
    proof {
        assert(wsv.take(0) =~= Seq::<Seq<char>>::empty());
    }
    while k < n && weight < min_length as u128
        invariant
            k <= n,
            n == wsv.len(),
            wsv == views_of(ws@),
            wsv == spec_words(phrase@),
            ml == min_length as int,
            weight as int == k + 1 + sum_lens(wsv.take(k as int)),
            spec_num_taken(wsv, ml, 0) == spec_num_taken(wsv, ml, k as int),
        decreases n - k,
    {
        let ghost sofar = wsv.take(k as int);
        let wl = ws[k].len();
        proof {
            assert(wsv[k as int] == ws@[k as int]@);
            assert(word_taken(wsv, ml, k as int));
            lemma_sum_lens_push(sofar, wsv[k as int]);
            assert(wsv.take(k + 1) =~= sofar.push(wsv[k as int]));
        }
        weight = weight + 1 + (wl as u128);
        k = k + 1;
    }
    proof {
        if k < n {
            assert(!word_taken(wsv, ml, k as int));
        }
        assert(spec_num_taken(wsv, ml, k as int) == k as int);
        assert(spec_num_taken(wsv, ml, 0) == k as int);
    }
    let mut joined: Vec<char> = Vec::new();
    let mut i: usize = 0;
    proof {
        assert(joined@ =~= spec_join(wsv.take(0)));
    }
    while i < k
        invariant
            i <= k,
            k <= n,
            n == wsv.len(),
            wsv == views_of(ws@),
            n == ws@.len(),
            joined@ == spec_join(wsv.take(i as int)),
        decreases k - i,
    {
        let ghost sofar = wsv.take(i as int);
        proof {
            assert(wsv[i as int] == ws@[i as int]@);
            assert(wsv.take(i + 1) =~= sofar.push(wsv[i as int]));
        }
        if i > 0 {
            joined.push(' ');
        }
        append_chars(&mut joined, &ws[i]);
        proof {
            if i == 0 {
                assert(spec_join(sofar.push(wsv[0])) == wsv[0]);
                assert(joined@ =~= spec_join(wsv.take(i + 1)));
            } else {
                lemma_join_push(sofar, wsv[i as int]);
                assert(joined@ =~= spec_join(wsv.take(i + 1)));
            }
        }
        i = i + 1;
    }
    let same = char_vecs_eq(&joined, &chars);
    if same {
        chars_string(&joined)
    } else {
        let mut out = joined;
        append_str_chars(&mut out, "...");
        chars_string(&out)
    }
}

} // verus!
