//! Whitespace repair for inline stylesheet text.
//!
//! Inline stylesheet text arrives with a space inserted between every pair of
//! tokens, which breaks class and id selectors (`. foo`) and hyphenated
//! property names (`margin - left`). Two textual passes undo that damage:
//! the first closes selector gaps, the second joins hyphen links.
use vstd::prelude::*;
use vstd::std_specs::iter::IteratorSpec;

verus! {

/// An ASCII letter or digit: a character of a selector name or of one word
/// of a hyphenated name.
pub open spec fn is_word_char(c: char) -> bool {
    ('a' <= c && c <= 'z') || ('A' <= c && c <= 'Z') || ('0' <= c && c <= '9')
}

/// A character with Unicode's `White_Space` property.
pub open spec fn is_space(c: char) -> bool {
    ('\t' <= c && c <= '\r') || c == ' ' || c == '\u{85}' || c == '\u{a0}' || c == '\u{1680}'
        || ('\u{2000}' <= c && c <= '\u{200a}') || c == '\u{2028}' || c == '\u{2029}'
        || c == '\u{202f}' || c == '\u{205f}' || c == '\u{3000}'
}

/// A character that opens a class (`.`) or id (`#`) selector.
pub open spec fn is_selector_mark(c: char) -> bool {
    c == '.' || c == '#'
}

/// The character at `j` is a space between a selector mark and a name.
pub open spec fn is_selector_gap(s: Seq<char>, j: int) -> bool {
    &&& 0 < j < s.len() - 1
    &&& is_selector_mark(s[j - 1])
    &&& is_space(s[j])
    &&& is_word_char(s[j + 1])
}

/// `s` from index `i` on, with every selector gap removed.
pub open spec fn close_selector_gaps_from(s: Seq<char>, i: int) -> Seq<char>
    decreases s.len() - i,
{
    if i < 0 || i >= s.len() {
        Seq::empty()
    } else if is_selector_gap(s, i) {
        close_selector_gaps_from(s, i + 1)
    } else {
        seq![s[i]] + close_selector_gaps_from(s, i + 1)
    }
}

/// The first pass: `s` with every selector gap removed.
pub open spec fn close_selector_gaps(s: Seq<char>) -> Seq<char> {
    close_selector_gaps_from(s, 0)
}

/// A hyphen link at `a`: a word character, a space at `a`, `-`, a space and
/// a word character; tokenization spaced out a hyphen between two words.
pub open spec fn is_hyphen_link(s: Seq<char>, a: int) -> bool {
    &&& 0 < a && a + 3 < s.len()
    &&& is_word_char(s[a - 1])
    &&& is_space(s[a])
    &&& s[a + 1] == '-'
    &&& is_space(s[a + 2])
    &&& is_word_char(s[a + 3])
}

/// The character at `j` is one of the two spaces of a hyphen link.
pub open spec fn is_link_space(s: Seq<char>, j: int) -> bool {
    is_hyphen_link(s, j) || is_hyphen_link(s, j - 2)
}

/// `s` from index `i` on, with the spaces of every hyphen link removed, so
/// that a chain `w - w - w` becomes `w-w-w` and what follows stays.
pub open spec fn join_hyphens_from(s: Seq<char>, i: int) -> Seq<char>
    decreases s.len() - i,
{
    if i < 0 || i >= s.len() {
        Seq::empty()
    } else if is_link_space(s, i) {
        join_hyphens_from(s, i + 1)
    } else {
        seq![s[i]] + join_hyphens_from(s, i + 1)
    }
}

/// The second pass: `s` with the spaces of its hyphen links removed.
pub open spec fn join_hyphens(s: Seq<char>) -> Seq<char> {
    join_hyphens_from(s, 0)
}

/// Inline stylesheet text after both passes, in their fixed order.
pub open spec fn repaired(s: Seq<char>) -> Seq<char> {
    join_hyphens(close_selector_gaps(s))
}

/// Whether `c` is an ASCII letter or digit.
pub fn word_char(c: char) -> (r: bool)
    ensures
        r == is_word_char(c),
{
    ('a' <= c && c <= 'z') || ('A' <= c && c <= 'Z') || ('0' <= c && c <= '9')
}

/// Whether `c` has Unicode's `White_Space` property.
pub fn space_char(c: char) -> (r: bool)
    ensures
        r == is_space(c),
{
    ('\t' <= c && c <= '\r') || c == ' ' || c == '\u{85}' || c == '\u{a0}' || c == '\u{1680}'
        || ('\u{2000}' <= c && c <= '\u{200a}') || c == '\u{2028}' || c == '\u{2029}'
        || c == '\u{202f}' || c == '\u{205f}' || c == '\u{3000}'
}

/// The first pass, on a character vector.
pub fn close_selector_gaps_exec(s: &Vec<char>) -> (r: Vec<char>)
    ensures
        r@ == close_selector_gaps(s@),
{
    let n = s.len();
    let mut out: Vec<char> = Vec::new();
    let mut i: usize = 0;
    while i < n
        invariant
            n == s@.len(),
            i <= n,
            out@ + close_selector_gaps_from(s@, i as int) == close_selector_gaps(s@),
        decreases n - i,
    {
        let gap = 0 < i && i + 1 < n && (s[i - 1] == '.' || s[i - 1] == '#') && space_char(s[i])
            && word_char(s[i + 1]);
        if !gap {
            out.push(s[i]);
        }
        proof {
            assert(gap == is_selector_gap(s@, i as int));
        }
        assert(out@ + close_selector_gaps_from(s@, i + 1) =~= close_selector_gaps(s@));
        i = i + 1;
    }
    assert(close_selector_gaps_from(s@, n as int) == Seq::<char>::empty());
    assert(out@ =~= out@ + close_selector_gaps_from(s@, n as int));
    out
}

/// Whether the character at `j` is a space of a hyphen link, on a
/// character vector.
fn link_space_exec(s: &Vec<char>, j: usize) -> (r: bool)
    requires
        j < s@.len(),
    ensures
        r == is_link_space(s@, j as int),
{
    let n = s.len();
    let first = 0 < j && n > 3 && j < n - 3 && word_char(s[j - 1]) && space_char(s[j]) && s[j + 1] == '-'
        && space_char(s[j + 2]) && word_char(s[j + 3]);
    let second = 2 < j && j + 1 < n && word_char(s[j - 3]) && space_char(s[j - 2]) && s[j - 1]
        == '-' && space_char(s[j]) && word_char(s[j + 1]);
    first || second
}

/// The second pass, on a character vector.
pub fn join_hyphens_exec(s: &Vec<char>) -> (r: Vec<char>)
    ensures
        r@ == join_hyphens(s@),
{
    let n = s.len();
    let mut out: Vec<char> = Vec::new();
    let mut i: usize = 0;
    while i < n
        invariant
            n == s@.len(),
            i <= n,
            out@ + join_hyphens_from(s@, i as int) == join_hyphens(s@),
        decreases n - i,
    {
        if !link_space_exec(s, i) {
            out.push(s[i]);
        }
        assert(out@ + join_hyphens_from(s@, i + 1) =~= join_hyphens(s@));
        i = i + 1;
    }
    assert(out@ =~= out@ + join_hyphens_from(s@, n as int));
    out
}

/// The characters of `s` in order, read through `str::chars`.
fn chars_of(s: &str) -> (r: Vec<char>)
    ensures
        r@ == s@,
{
    broadcast use vstd::string::group_string_axioms;

    let mut it = s.chars();
    let mut out: Vec<char> = Vec::new();
    loop
        invariant
            it.obeys_prophetic_iter_laws(),
            it.decrease() is Some,
            out@ + it.remaining() == s@,
        ensures
            out@ == s@,
        decreases it.decrease()->0,
    {
        match it.next() {
            Some(c) => {
                out.push(c);
            },
            None => {
                assert(out@ =~= s@);
                break;
            },
        }
        assert(out@ + it.remaining() =~= s@);
    }
    out
}

/// Relies on `String`'s `FromIterator<char>`: a string of the given
/// characters in order.
#[verifier::external_body]
pub(crate) fn string_of(v: &Vec<char>) -> (r: String)
    ensures
        r@ == v@,
{
    v.iter().collect()
}

/// Repairs inline stylesheet text: selector gaps are closed first, then
/// hyphen links are joined.
pub fn repair(text: &str) -> (r: String)
    ensures
        r@ == repaired(text@),
{
    let chars = chars_of(text);
    let closed = close_selector_gaps_exec(&chars);
    let joined = join_hyphens_exec(&closed);
    string_of(&joined)
}

/// No character of `s` is a selector gap.
pub open spec fn has_no_selector_gap(s: Seq<char>) -> bool {
    forall|j: int| !is_selector_gap(s, j)
}

/// No hyphen link starts anywhere in `s`.
pub open spec fn has_no_hyphen_link(s: Seq<char>) -> bool {
    forall|a: int| !is_hyphen_link(s, a)
}

/// Stylesheet text as written by hand: neither a selector gap nor a hyphen
/// link, the two marks that token spacing leaves.
pub open spec fn is_clean(s: Seq<char>) -> bool {
    has_no_selector_gap(s) && has_no_hyphen_link(s)
}

proof fn lemma_close_identity(s: Seq<char>, i: int)
    requires
        0 <= i <= s.len(),
        has_no_selector_gap(s),
    ensures
        close_selector_gaps_from(s, i) == s.subrange(i, s.len() as int),
    decreases s.len() - i,
{
    if i < s.len() {
        lemma_close_identity(s, i + 1);
    }
    assert(close_selector_gaps_from(s, i) =~= s.subrange(i, s.len() as int));
}

proof fn lemma_join_identity(s: Seq<char>, i: int)
    requires
        0 <= i <= s.len(),
        has_no_hyphen_link(s),
    ensures
        join_hyphens_from(s, i) == s.subrange(i, s.len() as int),
    decreases s.len() - i,
{
    if i < s.len() {
        assert(!is_link_space(s, i));
        lemma_join_identity(s, i + 1);
    }
    assert(join_hyphens_from(s, i) =~= s.subrange(i, s.len() as int));
}

/// Text as written by hand comes out of repair unchanged.
pub proof fn lemma_repair_keeps_clean_text(s: Seq<char>)
    requires
        is_clean(s),
    ensures
        repaired(s) == s,
{
    lemma_close_identity(s, 0);
    assert(close_selector_gaps(s) =~= s);
    lemma_join_identity(s, 0);
    assert(join_hyphens(s) =~= s);
}

proof fn lemma_close_first(s: Seq<char>, i: int)
    requires
        0 <= i < s.len(),
        !is_selector_gap(s, i),
    ensures
        close_selector_gaps_from(s, i) == seq![s[i]] + close_selector_gaps_from(s, i + 1),
        close_selector_gaps_from(s, i).len() > 0,
        close_selector_gaps_from(s, i)[0] == s[i],
{
}

proof fn lemma_close_has_no_gap(s: Seq<char>, i: int)
    requires
        0 <= i,
    ensures
        has_no_selector_gap(close_selector_gaps_from(s, i)),
    decreases s.len() - i,
{
    if i < s.len() {
        lemma_close_has_no_gap(s, i + 1);
        if !is_selector_gap(s, i) {
            let t = close_selector_gaps_from(s, i);
            let u = close_selector_gaps_from(s, i + 1);
            lemma_close_first(s, i);
            assert forall|j: int| !is_selector_gap(t, j) by {
                if is_selector_gap(t, j) {
                    if j >= 2 {
                        assert(is_selector_gap(u, j - 1));
                    } else {
                        if is_selector_gap(s, i + 1) {
                            assert(!is_selector_gap(s, i + 2));
                            lemma_close_first(s, i + 2);
                        } else {
                            lemma_close_first(s, i + 1);
                            if i + 2 >= s.len() {
                                assert(close_selector_gaps_from(s, i + 2) =~= Seq::<char>::empty());
                            } else {
                                assert(!is_selector_gap(s, i + 2));
                                lemma_close_first(s, i + 2);
                            }
                        }
                    }
                }
            }
        }
    }
}

/// Where, in `s`, the character at position `p` of
/// `join_hyphens_from(s, i)` comes from.
spec fn join_source(s: Seq<char>, i: int, p: int) -> int
    decreases s.len() - i,
{
    if i < 0 || i >= s.len() {
        i
    } else if is_link_space(s, i) {
        join_source(s, i + 1, p)
    } else if p <= 0 {
        i
    } else {
        join_source(s, i + 1, p - 1)
    }
}

/// Each character of the second pass's output comes from a kept character
/// of its input, in order, and only link spaces lie between two sources.
proof fn lemma_join_source(s: Seq<char>, i: int, p: int)
    requires
        0 <= i,
        0 <= p < join_hyphens_from(s, i).len(),
    ensures
        i <= join_source(s, i, p) < s.len(),
        join_hyphens_from(s, i)[p] == s[join_source(s, i, p)],
        !is_link_space(s, join_source(s, i, p)),
        p == 0 ==> forall|m: int| i <= m < join_source(s, i, 0) ==> is_link_space(s, m),
        p + 1 < join_hyphens_from(s, i).len() ==> {
            &&& join_source(s, i, p) < join_source(s, i, p + 1)
            &&& forall|m: int|
                join_source(s, i, p) < m < join_source(s, i, p + 1) ==> is_link_space(s, m)
        },
    decreases s.len() - i,
{
    let t = join_hyphens_from(s, i);
    if i >= s.len() {
        assert(t.len() == 0);
    } else if is_link_space(s, i) {
        lemma_join_source(s, i + 1, p);
    } else {
        let u = join_hyphens_from(s, i + 1);
        assert(t == seq![s[i]] + u);
        if p == 0 {
            if 1 < t.len() {
                lemma_join_source(s, i + 1, 0);
            }
        } else {
            lemma_join_source(s, i + 1, p - 1);
        }
    }
}

/// Only spaces are removed, and each sits beside a word character or `-`.
proof fn lemma_link_space_neighbours(s: Seq<char>, m: int)
    requires
        is_link_space(s, m),
    ensures
        is_space(s[m]),
        0 < m < s.len() - 1,
        is_word_char(s[m - 1]) || s[m - 1] == '-',
        is_word_char(s[m + 1]) || s[m + 1] == '-',
{
}

proof fn lemma_join_keeps_no_gap(s: Seq<char>)
    requires
        has_no_selector_gap(s),
    ensures
        has_no_selector_gap(join_hyphens(s)),
{
    let t = join_hyphens(s);
    assert forall|j: int| !is_selector_gap(t, j) by {
        if is_selector_gap(t, j) {
            lemma_join_source(s, 0, j - 1);
            lemma_join_source(s, 0, j);
            lemma_join_source(s, 0, j + 1);
            let x = join_source(s, 0, j - 1);
            let y = join_source(s, 0, j);
            let z = join_source(s, 0, j + 1);
            if y > x + 1 {
                lemma_link_space_neighbours(s, x + 1);
            }
            if z > y + 1 {
                lemma_link_space_neighbours(s, y + 1);
            }
            assert(is_selector_gap(s, y));
        }
    }
}

proof fn lemma_join_leaves_no_link(s: Seq<char>)
    ensures
        has_no_hyphen_link(join_hyphens(s)),
{
    let t = join_hyphens(s);
    assert forall|a: int| !is_hyphen_link(t, a) by {
        if is_hyphen_link(t, a) {
            lemma_join_source(s, 0, a - 1);
            lemma_join_source(s, 0, a);
            lemma_join_source(s, 0, a + 1);
            lemma_join_source(s, 0, a + 2);
            lemma_join_source(s, 0, a + 3);
            let x0 = join_source(s, 0, a - 1);
            let x1 = join_source(s, 0, a);
            let x2 = join_source(s, 0, a + 1);
            let x3 = join_source(s, 0, a + 2);
            let x4 = join_source(s, 0, a + 3);
            if x1 > x0 + 1 {
                let m = x0 + 1;
                lemma_link_space_neighbours(s, m);
                assert(is_link_space(s, m));
                if is_hyphen_link(s, m) {
                    assert(s[m + 1] == '-');
                    assert(!is_link_space(s, m + 1));
                    assert(x1 == m + 1);
                    assert(false);
                } else {
                    assert(is_hyphen_link(s, m - 2));
                    assert(s[x0] == '-');
                    assert(false);
                }
            }
            assert(x1 == x0 + 1);
            if x2 > x1 + 1 {
                lemma_link_space_neighbours(s, x1 + 1);
            }
            assert(x2 == x1 + 1);
            if x3 > x2 + 1 {
                let m = x2 + 1;
                assert(is_link_space(s, m));
                if is_hyphen_link(s, m - 2) {
                    assert(is_hyphen_link(s, x1));
                }
            }
            assert(x3 == x2 + 1);
            if x4 > x3 + 1 {
                lemma_link_space_neighbours(s, x3 + 1);
            }
            assert(x4 == x3 + 1);
            assert(is_hyphen_link(s, x1));
        }
    }
}

/// Repair is idempotent: repairing its output changes nothing. The first
/// pass leaves no selector gap, and the second leaves no hyphen link and
/// makes no selector gap, so the output is clean.
pub proof fn lemma_repair_idempotent(s: Seq<char>)
    ensures
        repaired(repaired(s)) == repaired(s),
{
    let c = close_selector_gaps(s);
    lemma_close_has_no_gap(s, 0);
    lemma_join_keeps_no_gap(c);
    lemma_join_leaves_no_link(c);
    lemma_repair_keeps_clean_text(repaired(s));
}

} // verus!
