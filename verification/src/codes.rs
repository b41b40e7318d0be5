//! Authorization-code text handling.
//!
//! The operator's line is trimmed of surrounding whitespace before it is
//! exchanged; a line that is empty or whitespace-only is a fatal input
//! error for that interactive attempt.  Whitespace here is the ASCII kind
//! an operator's line can carry: space, tab, and the line-break characters.

use vstd::prelude::*;
use vstd::string::StrSliceExecFns;

verus! {

/// Whitespace characters stripped from an operator-supplied line.
pub open spec fn is_space_char(c: char) -> bool {
    c == ' ' || c == '\t' || c == '\n' || c == '\r' || c == '\u{b}' || c == '\u{c}'
}

/// A line with no content: empty, or whitespace throughout.
pub open spec fn blank(s: Seq<char>) -> bool {
    forall|i: int| 0 <= i < s.len() ==> is_space_char(s[i])
}

/// The sequence with its leading whitespace removed.
pub open spec fn drop_leading_spaces(s: Seq<char>) -> Seq<char>
    decreases s.len(),
{
    if s.len() > 0 && is_space_char(s[0]) {
        drop_leading_spaces(s.drop_first())
    } else {
        s
    }
}

/// The sequence with its trailing whitespace removed.
pub open spec fn drop_trailing_spaces(s: Seq<char>) -> Seq<char>
    decreases s.len(),
{
    if s.len() > 0 && is_space_char(s[s.len() - 1]) {
        drop_trailing_spaces(s.drop_last())
    } else {
        s
    }
}

/// The sequence with whitespace removed from both ends.
pub open spec fn trimmed(s: Seq<char>) -> Seq<char> {
    drop_trailing_spaces(drop_leading_spaces(s))
}

proof fn lemma_drop_leading_is_suffix(s: Seq<char>, f: int)
    requires
        0 <= f <= s.len(),
        forall|i: int| 0 <= i < f ==> is_space_char(s[i]),
        f < s.len() ==> !is_space_char(s[f]),
    ensures
        drop_leading_spaces(s) =~= s.subrange(f, s.len() as int),
    decreases f,
{
    if f == 0 {
        if s.len() > 0 && is_space_char(s[0]) {
            assert(false);
        }
        assert(drop_leading_spaces(s) =~= s.subrange(0, s.len() as int));
    } else {
        let t = s.drop_first();
        assert(forall|i: int| 0 <= i < f - 1 ==> is_space_char(#[trigger] t[i]));
        lemma_drop_leading_is_suffix(t, f - 1);
        assert(t.subrange(f - 1, t.len() as int) =~= s.subrange(f, s.len() as int));
    }
}

proof fn lemma_drop_trailing_is_prefix(s: Seq<char>, l: int)
    requires
        0 <= l <= s.len(),
        forall|j: int| l <= j < s.len() ==> is_space_char(s[j]),
        l > 0 ==> !is_space_char(s[l - 1]),
    ensures
        drop_trailing_spaces(s) =~= s.subrange(0, l),
    decreases s.len() - l,
{
    if l == s.len() {
        if s.len() > 0 && is_space_char(s[s.len() - 1]) {
            assert(false);
        }
        assert(drop_trailing_spaces(s) =~= s.subrange(0, l));
    } else {
        let t = s.drop_last();
        assert(forall|j: int| l <= j < t.len() ==> is_space_char(#[trigger] t[j]));
        lemma_drop_trailing_is_prefix(t, l);
        assert(t.subrange(0, l) =~= s.subrange(0, l));
    }
}

/// A blank line trims to nothing.
pub proof fn lemma_blank_trims_to_empty(s: Seq<char>)
    requires
        blank(s),
    ensures
        trimmed(s) =~= Seq::<char>::empty(),
{
    lemma_drop_leading_is_suffix(s, s.len() as int);
    assert(drop_leading_spaces(s) =~= Seq::<char>::empty());
}

/// When the first and last non-whitespace characters sit at `f` and `l`,
/// trimming yields exactly the characters from `f` through `l`.
proof fn lemma_trimmed_is_core(s: Seq<char>, f: int, l: int)
    requires
        0 <= f <= l < s.len(),
        !is_space_char(s[f]),
        !is_space_char(s[l]),
        forall|i: int| 0 <= i < f ==> is_space_char(s[i]),
        forall|j: int| l < j < s.len() ==> is_space_char(s[j]),
    ensures
        trimmed(s) =~= s.subrange(f, l + 1),
{
    lemma_drop_leading_is_suffix(s, f);
    let t = s.subrange(f, s.len() as int);
    assert(forall|j: int| l + 1 - f <= j < t.len() ==> is_space_char(#[trigger] t[j]));
    lemma_drop_trailing_is_prefix(t, l + 1 - f);
    assert(t.subrange(0, l + 1 - f) =~= s.subrange(f, l + 1));
}

/// Whether this character is whitespace.
pub fn is_space(c: char) -> (r: bool)
    ensures
        r == is_space_char(c),
{
    c == ' ' || c == '\t' || c == '\n' || c == '\r' || c == '\u{b}' || c == '\u{c}'
}

/// Removes leading and trailing whitespace from an operator-supplied line.
pub fn trim_spaces(line: &str) -> (r: String)
    ensures
        r@ == trimmed(line@),
        r@.len() == 0 <==> blank(line@),
{
    let n = line.unicode_len();
    let mut f: usize = 0;
    while f < n && is_space(line.get_char(f))
        invariant
            n == line@.len(),
            0 <= f <= n,
            forall|i: int| 0 <= i < f ==> is_space_char(line@[i]),
        decreases n - f,
    {
        f = f + 1;
    }
    if f == n {
        proof {
            lemma_blank_trims_to_empty(line@);
        }
        return String::new();
    }
    let mut l: usize = n - 1;
    while l > f && is_space(line.get_char(l))
        invariant
            n == line@.len(),
            0 <= f <= l < n,
            !is_space_char(line@[f as int]),
            forall|j: int| l < j < n ==> is_space_char(line@[j]),
        decreases l,
    {
        l = l - 1;
    }
    let core = line.substring_char(f, l + 1);
    proof {
        lemma_trimmed_is_core(line@, f as int, l as int);
        assert(!blank(line@));
    }
    core.to_owned()
}

} // verus!
