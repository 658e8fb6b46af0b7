//! Text operations on markers and field values.

use vstd::prelude::*;

verus! {

/// What `str::trim` returns for the characters `s`: `s` without its leading
/// and trailing white space.
pub uninterp spec fn trim_of(s: Seq<char>) -> Seq<char>;

/// Relies on `str::trim`, which removes leading and trailing white space; its
/// result depends on the characters alone.
#[verifier::external_body]
pub(crate) fn trim(s: &str) -> (r: String)
    ensures
        r@ == trim_of(s@),
{
    s.trim().to_string()
}

/// The characters that open a marker tag and carry no part of its name.
pub open spec fn is_escape(c: char) -> bool {
    c == '\\' || c == '+'
}

/// `s` with every escape character taken out.
pub open spec fn strip_spec(s: Seq<char>) -> Seq<char> {
    s.filter(|c: char| !is_escape(c))
}

/// The name of a marker tag: its text without escape characters, trimmed.
pub open spec fn tag_name(s: Seq<char>) -> Seq<char> {
    trim_of(strip_spec(s))
}

/// Removes every backslash and plus sign from `s`.
pub fn strip_escapes(s: &str) -> (r: String)
    ensures
        r@ == strip_spec(s@),
{
    let n = s.unicode_len();
    let mut r = String::new();
    let mut i: usize = 0;
    while i < n
        invariant
            n == s@.len(),
            i <= n,
            r@ == strip_spec(s@.subrange(0, i as int)),
        decreases n - i,
    {
        let c = s.get_char(i);
        let piece = s.substring_char(i, i + 1);
        if c != '\\' && c != '+' {
            r.append(piece);
        }
        proof {
            reveal(Seq::filter);
            let pre = s@.subrange(0, i as int + 1);
            assert(pre.drop_last() =~= s@.subrange(0, i as int));
            assert(pre.last() == c);
            assert(piece@ =~= seq![c]);
            assert(strip_spec(pre) == if is_escape(c) {
                strip_spec(pre.drop_last())
            } else {
                strip_spec(pre.drop_last()).push(c)
            });
            assert(r@ =~= strip_spec(pre));
        }
        i = i + 1;
    }
    proof {
        assert(s@.subrange(0, n as int) =~= s@);
    }
    r
}

/// The name of the marker tag written `s`.
pub fn tag_name_of(s: &str) -> (r: String)
    ensures
        r@ == tag_name(s@),
{
    let stripped = strip_escapes(s);
    trim(stripped.as_str())
}

/// Whether the character `c` occurs in `s`.
pub fn has_char(s: &str, c: char) -> (r: bool)
    ensures
        r == s@.contains(c),
{
    let n = s.unicode_len();
    let mut i: usize = 0;
    while i < n
        invariant
            n == s@.len(),
            i <= n,
            forall|j: int| 0 <= j < i ==> s@[j] != c,
        decreases n - i,
    {
        if s.get_char(i) == c {
            return true;
        }
        i = i + 1;
    }
    false
}

/// `a` followed by `b`.
pub fn join(a: &str, b: &str) -> (r: String)
    ensures
        r@ == a@ + b@,
{
    let mut r = String::from_str(a);
    r.append(b);
    r
}

} // verus!
