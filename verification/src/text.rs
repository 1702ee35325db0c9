//! Character-level text operations with their mathematical meaning.
//!
//! Strings are modelled by their view, the sequence of their characters.
//! The operations here are those of `str` that the rest of the library
//! needs (`replace`, `starts_with`, `contains`, `trim`), each proved to
//! compute the spec function that states what it means.
use vstd::prelude::*;
use vstd::string::StringExecFns;

verus! {

/// `pattern` occurs in `s` starting at index `i`.
pub open spec fn occurs_at(s: Seq<char>, pattern: Seq<char>, i: int) -> bool {
    &&& 0 <= i
    &&& i + pattern.len() <= s.len()
    &&& s.subrange(i, i + pattern.len()) == pattern
}

/// `s` begins with `prefix`.
pub open spec fn starts_with(s: Seq<char>, prefix: Seq<char>) -> bool {
    occurs_at(s, prefix, 0)
}

/// `pattern` occurs somewhere in `s`.
pub open spec fn has_substring(s: Seq<char>, pattern: Seq<char>) -> bool {
    exists|i: int| occurs_at(s, pattern, i)
}

/// What `str::replace` computes: scanning `s` from the left, every
/// occurrence of `pattern` that does not overlap an earlier replaced one is
/// replaced by `replacement`.  An empty pattern matches before every
/// character and at the end.
pub open spec fn replace_all(s: Seq<char>, pattern: Seq<char>, replacement: Seq<char>) -> Seq<char>
    decreases s.len(),
{
    if s.len() == 0 {
        if pattern.len() == 0 {
            replacement
        } else {
            s
        }
    } else if pattern.len() == 0 {
        replacement + seq![s[0]] + replace_all(s.skip(1), pattern, replacement)
    } else if starts_with(s, pattern) {
        replacement + replace_all(s.skip(pattern.len() as int), pattern, replacement)
    } else {
        seq![s[0]] + replace_all(s.skip(1), pattern, replacement)
    }
}

/// The characters for which `char::is_whitespace` holds: those with the
/// Unicode `White_Space` property.
pub open spec fn is_whitespace(c: char) -> bool {
    ||| ('\u{9}' <= c && c <= '\u{D}')
    ||| c == ' '
    ||| c == '\u{85}'
    ||| c == '\u{A0}'
    ||| c == '\u{1680}'
    ||| ('\u{2000}' <= c && c <= '\u{200A}')
    ||| c == '\u{2028}'
    ||| c == '\u{2029}'
    ||| c == '\u{202F}'
    ||| c == '\u{205F}'
    ||| c == '\u{3000}'
}

/// `s` without its leading whitespace.
pub open spec fn trim_start(s: Seq<char>) -> Seq<char>
    decreases s.len(),
{
    if s.len() > 0 && is_whitespace(s[0]) {
        trim_start(s.skip(1))
    } else {
        s
    }
}

/// `s` without its trailing whitespace.
pub open spec fn trim_end(s: Seq<char>) -> Seq<char>
    decreases s.len(),
{
    if s.len() > 0 && is_whitespace(s.last()) {
        trim_end(s.drop_last())
    } else {
        s
    }
}

/// What `str::trim` computes.
pub open spec fn trim(s: Seq<char>) -> Seq<char> {
    trim_end(trim_start(s))
}

/// Appends one character to a string (`String::push`).
#[verifier::external_body]
fn push_char(s: &mut String, c: char)
    ensures
        final(s)@ == old(s)@.push(c),
{
    s.push(c);
}

/// The characters of `s`, in order.
pub fn chars_of(s: &str) -> (v: Vec<char>)
    ensures
        v@ == s@,
{
    broadcast use vstd::string::group_string_axioms;

    let mut v: Vec<char> = Vec::new();
    for c in it: s.chars()
        invariant
            it.seq() == s@,
            v@ == it.seq().take(it.index() as int),
    {
        v.push(c);
    }
    v
}

/// The string made of the characters `v[from..to]`.
pub fn string_of_chars(v: &Vec<char>, from: usize, to: usize) -> (r: String)
    requires
        from <= to <= v.len(),
    ensures
        r@ == v@.subrange(from as int, to as int),
{
    let mut r = String::new();
    let mut i: usize = from;
    while i < to
        invariant
            from <= i <= to <= v.len(),
            r@ == v@.subrange(from as int, i as int),
        decreases to - i,
    {
        push_char(&mut r, v[i]);
        i += 1;
        assert(r@ =~= v@.subrange(from as int, i as int));
    }
    r
}

/// Whether `pattern` occurs in `hay` at index `i`.
pub fn occurs_at_exec(hay: &Vec<char>, pattern: &Vec<char>, i: usize) -> (b: bool)
    requires
        i <= hay.len(),
    ensures
        b == occurs_at(hay@, pattern@, i as int),
{
    if pattern.len() > hay.len() - i {
        return false;
    }
    let mut j: usize = 0;
    while j < pattern.len()
        invariant
            i + pattern.len() <= hay.len(),
            j <= pattern.len(),
            forall|k: int| 0 <= k < j ==> hay@[i + k] == pattern@[k],
        decreases pattern.len() - j,
    {
        if hay[i + j] != pattern[j] {
            assert(hay@.subrange(i as int, i + pattern.len())[j as int] != pattern@[j as int]);
            return false;
        }
        j += 1;
    }
    assert(hay@.subrange(i as int, i + pattern.len()) =~= pattern@);
    true
}

/// Whether `s` begins with `prefix` (`str::starts_with`).
pub fn starts_with_exec(s: &str, prefix: &str) -> (b: bool)
    ensures
        b == starts_with(s@, prefix@),
{
    let h = chars_of(s);
    let p = chars_of(prefix);
    occurs_at_exec(&h, &p, 0)
}

/// Whether `pattern` occurs in `s` (`str::contains`).
pub fn contains_exec(s: &str, pattern: &str) -> (b: bool)
    ensures
        b == has_substring(s@, pattern@),
{
    let h = chars_of(s);
    let p = chars_of(pattern);
    let mut i: usize = 0;
    while i < h.len()
        invariant
            h@ == s@,
            p@ == pattern@,
            i <= h.len(),
            forall|k: int| 0 <= k < i ==> !occurs_at(s@, pattern@, k),
        decreases h.len() - i,
    {
        if occurs_at_exec(&h, &p, i) {
            return true;
        }
        i += 1;
    }
    if occurs_at_exec(&h, &p, i) {
        return true;
    }
    assert forall|k: int| !occurs_at(s@, pattern@, k) by {
        if 0 <= k && k + pattern@.len() <= s@.len() {
            assert(k <= i);
        }
    }
    false
}

/// `s` with every occurrence of `pattern` replaced by `replacement`
/// (`str::replace`).
pub fn replace_all_exec(s: &str, pattern: &str, replacement: &str) -> (r: String)
    ensures
        r@ == replace_all(s@, pattern@, replacement@),
{
    let h = chars_of(s);
    let p = chars_of(pattern);
    let mut out = String::new();
    let mut i: usize = 0;
    assert(h@.skip(0) =~= h@);
    if p.len() == 0 {
        while i < h.len()
            invariant
                h@ == s@,
                p@ == pattern@,
                p@.len() == 0,
                i <= h.len(),
                out@ + replace_all(h@.skip(i as int), p@, replacement@) == replace_all(
                    h@,
                    p@,
                    replacement@,
                ),
            decreases h.len() - i,
        {
            let ghost before = out@;
            let ghost rest = h@.skip(i as int);
            assert(rest.skip(1) =~= h@.skip(i + 1));
            out.append(replacement);
            push_char(&mut out, h[i]);
            i += 1;
            assert(out@ + replace_all(h@.skip(i as int), p@, replacement@) =~= before
                + replace_all(rest, p@, replacement@));
        }
        assert(h@.skip(i as int) =~= Seq::<char>::empty());
        out.append(replacement);
        return out;
    }
    while i < h.len()
        invariant
            h@ == s@,
            p@ == pattern@,
            p@.len() > 0,
            i <= h.len(),
            out@ + replace_all(h@.skip(i as int), p@, replacement@) == replace_all(
                h@,
                p@,
                replacement@,
            ),
        decreases h.len() - i,
    {
        let ghost before = out@;
        let ghost rest = h@.skip(i as int);
        if occurs_at_exec(&h, &p, i) {
            assert(rest.take(p@.len() as int) =~= h@.subrange(i as int, i + p@.len()));
            assert(rest.skip(p@.len() as int) =~= h@.skip(i + p@.len()));
            out.append(replacement);
            i += p.len();
            assert(out@ + replace_all(h@.skip(i as int), p@, replacement@) =~= before
                + replace_all(rest, p@, replacement@));
        } else {
            assert(!starts_with(rest, p@)) by {
                if starts_with(rest, p@) {
                    assert(rest.take(p@.len() as int) =~= h@.subrange(i as int, i + p@.len()));
                }
            }
            assert(rest.skip(1) =~= h@.skip(i + 1));
            push_char(&mut out, h[i]);
            i += 1;
            assert(out@ + replace_all(h@.skip(i as int), p@, replacement@) =~= before
                + replace_all(rest, p@, replacement@));
        }
    }
    assert(h@.skip(i as int) =~= Seq::<char>::empty());
    out
}

/// The index of the first character of `v[..]` that is not whitespace, or
/// `v.len()` where there is none.
fn first_non_whitespace(v: &Vec<char>) -> (a: usize)
    ensures
        a <= v.len(),
        trim_start(v@) == v@.skip(a as int),
{
    let mut a: usize = 0;
    assert(v@.skip(0) =~= v@);
    while a < v.len() && is_whitespace_exec(v[a])
        invariant
            a <= v.len(),
            trim_start(v@) == trim_start(v@.skip(a as int)),
        decreases v.len() - a,
    {
        assert(v@.skip(a as int).skip(1) =~= v@.skip(a + 1));
        a += 1;
    }
    a
}

/// Whether `c` is whitespace (`char::is_whitespace`).
pub fn is_whitespace_exec(c: char) -> (b: bool)
    ensures
        b == is_whitespace(c),
{
    ('\u{9}' <= c && c <= '\u{D}') || c == ' ' || c == '\u{85}' || c == '\u{A0}' || c
        == '\u{1680}' || ('\u{2000}' <= c && c <= '\u{200A}') || c == '\u{2028}' || c
        == '\u{2029}' || c == '\u{202F}' || c == '\u{205F}' || c == '\u{3000}'
}

/// `s` without leading and trailing whitespace (`str::trim`).
pub fn trim_exec(s: &str) -> (r: String)
    ensures
        r@ == trim(s@),
{
    let v = chars_of(s);
    let a = first_non_whitespace(&v);
    let mut b: usize = v.len();
    assert(v@.subrange(a as int, b as int) =~= v@.skip(a as int));
    while b > a && is_whitespace_exec(v[b - 1])
        invariant
            a <= b <= v.len(),
            trim(s@) == trim_end(v@.subrange(a as int, b as int)),
            v@ == s@,
            trim_start(v@) == v@.skip(a as int),
        decreases b - a,
    {
        assert(v@.subrange(a as int, b as int).drop_last() =~= v@.subrange(a as int, b - 1));
        b -= 1;
    }
    string_of_chars(&v, a, b)
}

} // verus!

verus! {

/// No occurrence of `pattern` in `x + y` starts inside `x` and ends inside
/// `y`.
pub open spec fn straddle_free(x: Seq<char>, y: Seq<char>, pattern: Seq<char>) -> bool {
    forall|i: int|
        0 <= i < x.len() && i + pattern.len() > x.len() ==> !#[trigger] occurs_at(
            x + y,
            pattern,
            i,
        )
}

/// `pattern` occurs nowhere in `s`.
pub open spec fn occurs_nowhere(s: Seq<char>, pattern: Seq<char>) -> bool {
    forall|i: int| !#[trigger] occurs_at(s, pattern, i)
}

/// Replacing in the empty text gives the empty text.
pub proof fn lemma_replace_all_empty(pattern: Seq<char>, replacement: Seq<char>)
    requires
        pattern.len() > 0,
    ensures
        replace_all(Seq::<char>::empty(), pattern, replacement) == Seq::<char>::empty(),
{
}

/// Replacing in a text that is exactly the pattern gives the replacement.
pub proof fn lemma_replace_all_self(pattern: Seq<char>, replacement: Seq<char>)
    requires
        pattern.len() > 0,
    ensures
        replace_all(pattern, pattern, replacement) == replacement,
{
    assert(pattern.subrange(0, pattern.len() as int) =~= pattern);
    assert(starts_with(pattern, pattern));
    let rest = pattern.skip(pattern.len() as int);
    assert(rest.len() == 0);
    assert(replace_all(rest, pattern, replacement) == rest);
    assert(replace_all(pattern, pattern, replacement) == replacement + rest);
    assert(replacement + rest =~= replacement);
}

/// A text in which the pattern occurs nowhere is left as it is.
pub proof fn lemma_replace_all_absent(s: Seq<char>, pattern: Seq<char>, replacement: Seq<char>)
    requires
        pattern.len() > 0,
        occurs_nowhere(s, pattern),
    ensures
        replace_all(s, pattern, replacement) == s,
    decreases s.len(),
{
    if s.len() > 0 {
        assert(!occurs_at(s, pattern, 0));
        assert(s.take(pattern.len() as int) =~= s.subrange(0, pattern.len() as int));
        let t = s.skip(1);
        assert forall|i: int| !#[trigger] occurs_at(t, pattern, i) by {
            if occurs_at(t, pattern, i) {
                assert(s.subrange(i + 1, i + 1 + pattern.len()) =~= t.subrange(
                    i,
                    i + pattern.len(),
                ));
                assert(occurs_at(s, pattern, i + 1));
            }
        }
        lemma_replace_all_absent(t, pattern, replacement);
        assert(seq![s[0]] + t =~= s);
    }
}

/// The pattern occurs nowhere in `s` when, wherever `s` holds the pattern's
/// first character with room for the whole pattern after it, the next
/// character is not the pattern's second.
pub proof fn lemma_occurs_nowhere(s: Seq<char>, pattern: Seq<char>)
    requires
        pattern.len() >= 2,
        forall|j: int|
            0 <= j < s.len() && #[trigger] s[j] == pattern[0] && j + pattern.len() <= s.len()
                ==> s[j + 1] != pattern[1],
    ensures
        occurs_nowhere(s, pattern),
{
    assert forall|i: int| !#[trigger] occurs_at(s, pattern, i) by {
        if occurs_at(s, pattern, i) {
            let w = s.subrange(i, i + pattern.len());
            assert(w[0] == s[i] && w[1] == s[i + 1]);
        }
    }
}

/// No occurrence straddles `x` and `y` when the first character of `y` is
/// none of the pattern's characters after its first.
pub proof fn lemma_straddle_free_by_next(x: Seq<char>, y: Seq<char>, pattern: Seq<char>)
    requires
        y.len() > 0,
        forall|j: int| 1 <= j < pattern.len() ==> #[trigger] pattern[j] != y[0],
    ensures
        straddle_free(x, y, pattern),
{
    assert forall|i: int|
        0 <= i < x.len() && i + pattern.len() > x.len() implies !#[trigger] occurs_at(
            x + y,
            pattern,
            i,
        ) by {
        if occurs_at(x + y, pattern, i) {
            let w = (x + y).subrange(i, i + pattern.len());
            let k = x.len() - i;
            assert(w[k] == (x + y)[x.len() as int]);
            assert(pattern[k] == y[0]);
        }
    }
}

/// No occurrence straddles `x` and `y` when the pattern's first character is
/// not among the last `pattern.len() - 1` characters of `x`.
pub proof fn lemma_straddle_free_by_prev(x: Seq<char>, y: Seq<char>, pattern: Seq<char>)
    requires
        pattern.len() > 0,
        forall|j: int|
            0 <= j < x.len() && j + pattern.len() > x.len() ==> #[trigger] x[j] != pattern[0],
    ensures
        straddle_free(x, y, pattern),
{
    assert forall|i: int|
        0 <= i < x.len() && i + pattern.len() > x.len() implies !#[trigger] occurs_at(
            x + y,
            pattern,
            i,
        ) by {
        if occurs_at(x + y, pattern, i) {
            let w = (x + y).subrange(i, i + pattern.len());
            assert(w[0] == x[i]);
        }
    }
}

/// Replacing distributes over a concatenation that no occurrence straddles.
pub proof fn lemma_replace_all_concat(
    x: Seq<char>,
    y: Seq<char>,
    pattern: Seq<char>,
    replacement: Seq<char>,
)
    requires
        pattern.len() > 0,
        straddle_free(x, y, pattern),
    ensures
        replace_all(x + y, pattern, replacement) == replace_all(x, pattern, replacement)
            + replace_all(y, pattern, replacement),
    decreases x.len(),
{
    let s = x + y;
    if x.len() == 0 {
        assert(s =~= y);
        assert(replace_all(x, pattern, replacement) =~= Seq::<char>::empty());
        assert(Seq::<char>::empty() + replace_all(y, pattern, replacement) =~= replace_all(
            y,
            pattern,
            replacement,
        ));
    } else {
        let m = pattern.len() as int;
        if starts_with(s, pattern) {
            assert(occurs_at(s, pattern, 0)) by {
                assert(s.take(m) =~= s.subrange(0, m));
            }
            assert(m <= x.len());
            assert(x.take(m) =~= s.take(m));
            let x2 = x.skip(m);
            assert(s.skip(m) =~= x2 + y);
            assert forall|i: int|
                0 <= i < x2.len() && i + pattern.len() > x2.len() implies !#[trigger] occurs_at(
                x2 + y,
                pattern,
                i,
            ) by {
                if occurs_at(x2 + y, pattern, i) {
                    assert(s.subrange(i + m, i + m + pattern.len()) =~= (x2 + y).subrange(
                        i,
                        i + pattern.len(),
                    ));
                    assert(occurs_at(s, pattern, i + m));
                }
            }
            lemma_replace_all_concat(x2, y, pattern, replacement);
            assert(replacement + (replace_all(x2, pattern, replacement) + replace_all(
                y,
                pattern,
                replacement,
            )) =~= (replacement + replace_all(x2, pattern, replacement)) + replace_all(
                y,
                pattern,
                replacement,
            ));
        } else {
            assert(!starts_with(x, pattern)) by {
                if starts_with(x, pattern) {
                    assert(s.take(m) =~= x.take(m));
                }
            }
            let x2 = x.skip(1);
            assert(s.skip(1) =~= x2 + y);
            assert forall|i: int|
                0 <= i < x2.len() && i + pattern.len() > x2.len() implies !#[trigger] occurs_at(
                x2 + y,
                pattern,
                i,
            ) by {
                if occurs_at(x2 + y, pattern, i) {
                    assert(s.subrange(i + 1, i + 1 + pattern.len()) =~= (x2 + y).subrange(
                        i,
                        i + pattern.len(),
                    ));
                    assert(occurs_at(s, pattern, i + 1));
                }
            }
            lemma_replace_all_concat(x2, y, pattern, replacement);
            assert(s[0] == x[0]);
            assert(seq![x[0]] + (replace_all(x2, pattern, replacement) + replace_all(
                y,
                pattern,
                replacement,
            )) =~= (seq![x[0]] + replace_all(x2, pattern, replacement)) + replace_all(
                y,
                pattern,
                replacement,
            ));
        }
    }
}

} // verus!

verus! {

/// The texts `l` and `rr` frame a value for replacing `pattern`: neither
/// holds the pattern, no occurrence can run into `l` from before it or out
/// of `l` into what follows, and likewise for `rr`.
pub open spec fn frames(l: Seq<char>, rr: Seq<char>, pattern: Seq<char>) -> bool {
    &&& l.len() > 0
    &&& forall|j: int| 1 <= j < pattern.len() ==> #[trigger] pattern[j] != l[0]
    &&& forall|j: int|
        0 <= j < l.len() && j + pattern.len() > l.len() ==> #[trigger] l[j] != pattern[0]
    &&& occurs_nowhere(l, pattern)
    &&& rr.len() > 0
    &&& forall|j: int| 1 <= j < pattern.len() ==> #[trigger] pattern[j] != rr[0]
    &&& forall|j: int|
        0 <= j < rr.len() && j + pattern.len() > rr.len() ==> #[trigger] rr[j] != pattern[0]
    &&& occurs_nowhere(rr, pattern)
}

/// Replacing in a text that holds the framed value `l + v + rr` keeps the
/// frame: the value is replaced on its own, and the texts before and after
/// are replaced on their own.
pub proof fn lemma_replace_all_framed(
    x: Seq<char>,
    l: Seq<char>,
    v: Seq<char>,
    rr: Seq<char>,
    y: Seq<char>,
    pattern: Seq<char>,
    replacement: Seq<char>,
)
    requires
        pattern.len() > 0,
        frames(l, rr, pattern),
    ensures
        replace_all(x + l + v + rr + y, pattern, replacement) == replace_all(
            x,
            pattern,
            replacement,
        ) + l + replace_all(v, pattern, replacement) + rr + replace_all(y, pattern, replacement),
{
    let rest3 = rr + y;
    let rest2 = v + rest3;
    let rest1 = l + rest2;
    assert(x + l + v + rr + y =~= x + rest1);
    assert(rest1[0] == l[0]);
    lemma_straddle_free_by_next(x, rest1, pattern);
    lemma_replace_all_concat(x, rest1, pattern, replacement);
    lemma_straddle_free_by_prev(l, rest2, pattern);
    lemma_replace_all_concat(l, rest2, pattern, replacement);
    lemma_replace_all_absent(l, pattern, replacement);
    assert(rest3[0] == rr[0]);
    lemma_straddle_free_by_next(v, rest3, pattern);
    lemma_replace_all_concat(v, rest3, pattern, replacement);
    lemma_straddle_free_by_prev(rr, y, pattern);
    lemma_replace_all_concat(rr, y, pattern, replacement);
    lemma_replace_all_absent(rr, pattern, replacement);
    let rx = replace_all(x, pattern, replacement);
    let rv = replace_all(v, pattern, replacement);
    let ry = replace_all(y, pattern, replacement);
    assert(rx + (l + (rv + (rr + ry))) =~= rx + l + rv + rr + ry);
}

/// A text without `{` holds none of the brace-opened placeholders, and
/// replacing them leaves it as it is.
pub proof fn lemma_replace_all_braceless(s: Seq<char>, pattern: Seq<char>, replacement: Seq<char>)
    requires
        pattern.len() >= 2,
        pattern[0] == '{',
        forall|j: int| 0 <= j < s.len() ==> #[trigger] s[j] != '{',
    ensures
        replace_all(s, pattern, replacement) == s,
{
    lemma_occurs_nowhere(s, pattern);
    lemma_replace_all_absent(s, pattern, replacement);
}

} // verus!

verus! {

/// `l` and `rr` frame a value for the brace-opened `pattern` when each
/// begins with a character that is not among the pattern's later ones, and
/// each `{` in them is followed by a character other than the pattern's
/// second, with the whole pattern's length still inside them.
pub proof fn lemma_frames(l: Seq<char>, rr: Seq<char>, pattern: Seq<char>)
    requires
        pattern.len() >= 2,
        pattern[0] == '{',
        l.len() > 0,
        rr.len() > 0,
        forall|j: int| 1 <= j < pattern.len() ==> #[trigger] pattern[j] != l[0] && pattern[j] != rr[0],
        forall|j: int|
            0 <= j < l.len() && #[trigger] l[j] == '{' ==> j + pattern.len() <= l.len() && l[j + 1]
                != pattern[1],
        forall|j: int|
            0 <= j < rr.len() && #[trigger] rr[j] == '{' ==> j + pattern.len() <= rr.len() && rr[j
                + 1] != pattern[1],
    ensures
        frames(l, rr, pattern),
{
    lemma_occurs_nowhere(l, pattern);
    lemma_occurs_nowhere(rr, pattern);
}

/// A text of the form `x + l + v + rr + y` holds `l + v + rr`.
pub proof fn lemma_has_framed(x: Seq<char>, l: Seq<char>, v: Seq<char>, rr: Seq<char>, y: Seq<char>)
    ensures
        has_substring(x + l + v + rr + y, l + v + rr),
{
    let t = x + l + v + rr + y;
    let w = l + v + rr;
    assert(t.subrange(x.len() as int, (x.len() + w.len()) as int) =~= w);
    assert(occurs_at(t, w, x.len() as int));
}

/// Through three replacements, a framed value stays between its frame: the
/// result holds `l`, then the value after the three replacements, then `rr`.
pub proof fn lemma_framed_three_replacements(
    x: Seq<char>,
    l: Seq<char>,
    w: Seq<char>,
    rr: Seq<char>,
    y: Seq<char>,
    p1: Seq<char>,
    r1: Seq<char>,
    p2: Seq<char>,
    r2: Seq<char>,
    p3: Seq<char>,
    r3: Seq<char>,
)
    requires
        p1.len() > 0,
        p2.len() > 0,
        p3.len() > 0,
        frames(l, rr, p1),
        frames(l, rr, p2),
        frames(l, rr, p3),
    ensures
        has_substring(
            replace_all(replace_all(replace_all(x + l + w + rr + y, p1, r1), p2, r2), p3, r3),
            l + replace_all(replace_all(replace_all(w, p1, r1), p2, r2), p3, r3) + rr,
        ),
{
    lemma_replace_all_framed(x, l, w, rr, y, p1, r1);
    let x1 = replace_all(x, p1, r1);
    let w1 = replace_all(w, p1, r1);
    let y1 = replace_all(y, p1, r1);
    lemma_replace_all_framed(x1, l, w1, rr, y1, p2, r2);
    let x2 = replace_all(x1, p2, r2);
    let w2 = replace_all(w1, p2, r2);
    let y2 = replace_all(y1, p2, r2);
    lemma_replace_all_framed(x2, l, w2, rr, y2, p3, r3);
    lemma_has_framed(
        replace_all(x2, p3, r3),
        l,
        replace_all(w2, p3, r3),
        rr,
        replace_all(y2, p3, r3),
    );
}

/// Through one replacement, a framed value stays between its frame.
pub proof fn lemma_framed_one_replacement(
    x: Seq<char>,
    l: Seq<char>,
    w: Seq<char>,
    rr: Seq<char>,
    y: Seq<char>,
    p: Seq<char>,
    r: Seq<char>,
)
    requires
        p.len() > 0,
        frames(l, rr, p),
    ensures
        has_substring(replace_all(x + l + w + rr + y, p, r), l + replace_all(w, p, r) + rr),
{
    lemma_replace_all_framed(x, l, w, rr, y, p, r);
    lemma_has_framed(replace_all(x, p, r), l, replace_all(w, p, r), rr, replace_all(y, p, r));
}

} // verus!

verus! {

/// `t` holds `a + v + b`, so it holds `a2 + v + b2` for any end `a2` of `a`
/// and any beginning `b2` of `b`.
pub proof fn lemma_has_substring_within(
    t: Seq<char>,
    a: Seq<char>,
    v: Seq<char>,
    b: Seq<char>,
    a2: Seq<char>,
    b2: Seq<char>,
)
    requires
        has_substring(t, a + v + b),
        a2.len() <= a.len(),
        a.skip(a.len() - a2.len()) == a2,
        b2.len() <= b.len(),
        b.take(b2.len() as int) == b2,
    ensures
        has_substring(t, a2 + v + b2),
{
    let w = a + v + b;
    let i = choose|i: int| occurs_at(t, w, i);
    let k = a.len() - a2.len();
    let w2 = a2 + v + b2;
    assert(t.subrange(i + k, i + k + w2.len()) =~= w2) by {
        assert(t.subrange(i, i + w.len()) == w);
        assert forall|j: int| 0 <= j < w2.len() implies #[trigger] t.subrange(
            i + k,
            i + k + w2.len(),
        )[j] == w2[j] by {
            assert(t.subrange(i, i + w.len())[k + j] == w[k + j]);
        }
    }
    assert(occurs_at(t, w2, i + k));
}

/// Replacing distributes over `x + y` where `y` begins with a character
/// that the pattern holds nowhere but first.
pub proof fn lemma_replace_all_split_next(
    x: Seq<char>,
    y: Seq<char>,
    pattern: Seq<char>,
    replacement: Seq<char>,
)
    requires
        pattern.len() > 0,
        y.len() > 0,
        forall|j: int| 1 <= j < pattern.len() ==> #[trigger] pattern[j] != y[0],
    ensures
        replace_all(x + y, pattern, replacement) == replace_all(x, pattern, replacement)
            + replace_all(y, pattern, replacement),
{
    lemma_straddle_free_by_next(x, y, pattern);
    lemma_replace_all_concat(x, y, pattern, replacement);
}

/// Replacing distributes over `x + y` where the pattern's first character
/// is not among the last `pattern.len() - 1` characters of `x`.
pub proof fn lemma_replace_all_split_prev(
    x: Seq<char>,
    y: Seq<char>,
    pattern: Seq<char>,
    replacement: Seq<char>,
)
    requires
        pattern.len() > 0,
        forall|j: int|
            0 <= j < x.len() && j + pattern.len() > x.len() ==> #[trigger] x[j] != pattern[0],
    ensures
        replace_all(x + y, pattern, replacement) == replace_all(x, pattern, replacement)
            + replace_all(y, pattern, replacement),
{
    lemma_straddle_free_by_prev(x, y, pattern);
    lemma_replace_all_concat(x, y, pattern, replacement);
}

/// The pattern occurs nowhere in `s` when no place of `s` agrees with the
/// pattern's first nine characters.
pub proof fn lemma_occurs_nowhere_nine(s: Seq<char>, pattern: Seq<char>)
    requires
        pattern.len() >= 9,
        forall|j: int|
            0 <= j < s.len() && #[trigger] s[j] == pattern[0] && j + pattern.len() <= s.len() ==> {
                ||| s[j + 1] != pattern[1]
                ||| s[j + 2] != pattern[2]
                ||| s[j + 3] != pattern[3]
                ||| s[j + 4] != pattern[4]
                ||| s[j + 5] != pattern[5]
                ||| s[j + 6] != pattern[6]
                ||| s[j + 7] != pattern[7]
                ||| s[j + 8] != pattern[8]
            },
    ensures
        occurs_nowhere(s, pattern),
{
    assert forall|i: int| !#[trigger] occurs_at(s, pattern, i) by {
        if occurs_at(s, pattern, i) {
            let w = s.subrange(i, i + pattern.len());
            assert(w[0] == s[i] && w[1] == s[i + 1] && w[2] == s[i + 2] && w[3] == s[i + 3]);
            assert(w[4] == s[i + 4] && w[5] == s[i + 5] && w[6] == s[i + 6] && w[7] == s[i + 7]);
            assert(w[8] == s[i + 8]);
        }
    }
}

/// The concatenation of `pieces`, in order.
pub open spec fn concat_all(pieces: Seq<Seq<char>>) -> Seq<char>
    decreases pieces.len(),
{
    if pieces.len() == 0 {
        Seq::empty()
    } else {
        pieces[0] + concat_all(pieces.drop_first())
    }
}

/// No occurrence of `pattern` can run into `piece` from before it: the piece
/// begins with a character that the pattern holds nowhere but first.
pub open spec fn opens_apart(piece: Seq<char>, pattern: Seq<char>) -> bool {
    &&& piece.len() > 0
    &&& forall|j: int| 1 <= j < pattern.len() ==> #[trigger] pattern[j] != piece[0]
}

/// Replacing in a concatenation of pieces, each after the first opening
/// apart from the pattern, replaces in each piece on its own.
pub proof fn lemma_replace_all_pieces(
    pieces: Seq<Seq<char>>,
    pattern: Seq<char>,
    replacement: Seq<char>,
)
    requires
        pattern.len() > 0,
        forall|k: int| 0 < k < pieces.len() ==> opens_apart(#[trigger] pieces[k], pattern),
    ensures
        replace_all(concat_all(pieces), pattern, replacement) == concat_all(
            pieces.map_values(|x: Seq<char>| replace_all(x, pattern, replacement)),
        ),
    decreases pieces.len(),
{
    let f = |x: Seq<char>| replace_all(x, pattern, replacement);
    if pieces.len() == 0 {
        lemma_replace_all_empty(pattern, replacement);
    } else {
        let rest = pieces.drop_first();
        assert forall|k: int| 0 < k < rest.len() implies opens_apart(#[trigger] rest[k], pattern) by {
            assert(rest[k] == pieces[k + 1]);
        }
        lemma_replace_all_pieces(rest, pattern, replacement);
        let tail = concat_all(rest);
        if rest.len() > 0 {
            assert(opens_apart(pieces[1], pattern));
            assert(rest[0] == pieces[1]);
            assert(tail[0] == rest[0][0]);
            lemma_replace_all_split_next(pieces[0], tail, pattern, replacement);
        } else {
            assert(tail =~= Seq::<char>::empty());
            assert(pieces[0] + tail =~= pieces[0]);
            lemma_replace_all_empty(pattern, replacement);
            assert(f(pieces[0]) + Seq::<char>::empty() =~= f(pieces[0]));
        }
        let mapped = pieces.map_values(f);
        assert(mapped.drop_first() =~= rest.map_values(f));
        assert(mapped[0] == f(pieces[0]));
    }
}

/// Adding a piece at the end adds it to the concatenation.
pub proof fn lemma_concat_all_push(pieces: Seq<Seq<char>>, x: Seq<char>)
    ensures
        concat_all(pieces.push(x)) == concat_all(pieces) + x,
    decreases pieces.len(),
{
    let longer = pieces.push(x);
    if pieces.len() == 0 {
        assert(longer.drop_first() =~= Seq::<Seq<char>>::empty());
        assert(concat_all(longer.drop_first()) == Seq::<char>::empty());
        assert(longer[0] == x);
        assert(concat_all(longer) == x + Seq::<char>::empty());
        assert(concat_all(longer) =~= concat_all(pieces) + x);
    } else {
        lemma_concat_all_push(pieces.drop_first(), x);
        assert(longer.drop_first() =~= pieces.drop_first().push(x));
        assert(concat_all(longer) =~= concat_all(pieces) + x);
    }
}

} // verus!
