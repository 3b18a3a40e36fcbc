//! Verified text utilities: string equality, substring search, identifier
//! validity, and the pascal-casing used to derive state-type names.

use vstd::prelude::*;
use vstd::string::StrSliceExecFns;

verus! {

/// Relies on `String::push` of std: appends the given character to the end
/// of the string.
pub assume_specification[ String::push ](s: &mut String, c: char)
    ensures
        final(s)@ == old(s)@.push(c),
;

/// Compares two strings character by character.
pub fn str_eq(a: &str, b: &str) -> (r: bool)
    ensures
        r == (a@ == b@),
{
    let an = a.unicode_len();
    let bn = b.unicode_len();
    if an != bn {
        assert(a@ != b@) by {
            assert(a@.len() != b@.len());
        }
        return false;
    }
    let mut i: usize = 0;
    while i < an
        invariant
            an == a@.len(),
            an == b@.len(),
            i <= an,
            forall|k: int| 0 <= k < i ==> a@[k] == b@[k],
        decreases an - i,
    {
        if a.get_char(i) != b.get_char(i) {
            assert(a@ != b@) by {
                assert(a@[i as int] != b@[i as int]);
            }
            return false;
        }
        i = i + 1;
    }
    assert(a@ =~= b@);
    true
}

/// `needle` occurs as a contiguous run of characters inside `hay`.
pub open spec fn spec_contains(hay: Seq<char>, needle: Seq<char>) -> bool {
    exists|i: int|
        0 <= i && i + needle.len() <= hay.len() && #[trigger] hay.subrange(
            i,
            i + needle.len(),
        ) == needle
}

/// Searches `hay` for an occurrence of `needle`.
pub fn contains_substr(hay: &str, needle: &str) -> (r: bool)
    ensures
        r == spec_contains(hay@, needle@),
{
    let n = hay.unicode_len();
    let m = needle.unicode_len();
    if m > n {
        assert(!spec_contains(hay@, needle@));
        return false;
    }
    if m == 0 {
        assert(hay@.subrange(0, 0 + needle@.len() as int) =~= needle@);
        assert(spec_contains(hay@, needle@));
        return true;
    }
    let mut i: usize = 0;
    loop
        invariant
            n == hay@.len(),
            m == needle@.len(),
            1 <= m <= n,
            i <= n - m + 1,
            forall|k: int|
                0 <= k < i ==> #[trigger] hay@.subrange(k, k + needle@.len()) != needle@,
        decreases n - m + 1 - i,
    {
        if i > n - m {
            assert(!spec_contains(hay@, needle@)) by {
                assert(forall|k: int|
                    0 <= k && k + needle@.len() <= hay@.len() ==> #[trigger] hay@.subrange(
                        k,
                        k + needle@.len(),
                    ) != needle@);
            }
            return false;
        }
        let mut j: usize = 0;
        let mut matched = true;
        while j < m
            invariant
                n == hay@.len(),
                m == needle@.len(),
                m <= n,
                i <= n - m,
                j <= m,
                matched ==> forall|t: int| 0 <= t < j ==> hay@[i + t] == needle@[t],
                !matched ==> hay@.subrange(i as int, i + needle@.len()) != needle@,
            decreases m - j,
        {
            if matched && hay.get_char(i + j) != needle.get_char(j) {
                assert(hay@.subrange(i as int, i + needle@.len()) != needle@) by {
                    assert(hay@.subrange(i as int, i + needle@.len())[j as int] == hay@[i + j]);
                }
                matched = false;
            }
            j = j + 1;
        }
        if matched {
            assert(hay@.subrange(i as int, i + needle@.len()) =~= needle@);
            assert(spec_contains(hay@, needle@));
            return true;
        }
        i = i + 1;
    }
}

/// A character that may start an identifier.
pub open spec fn spec_is_ident_start(c: char) -> bool {
    ('a' <= c && c <= 'z') || ('A' <= c && c <= 'Z') || c == '_'
}

/// A character that may continue an identifier.
pub open spec fn spec_is_ident_continue(c: char) -> bool {
    spec_is_ident_start(c) || ('0' <= c && c <= '9')
}

/// A well-formed identifier: non-empty, starts with a letter or underscore,
/// continues with letters, digits or underscores, and is not the lone
/// underscore (which names no item).
pub open spec fn spec_is_valid_ident(s: Seq<char>) -> bool {
    &&& s.len() > 0
    &&& spec_is_ident_start(s[0])
    &&& (forall|i: int| 1 <= i < s.len() ==> spec_is_ident_continue(#[trigger] s[i]))
    &&& !(s.len() == 1 && s[0] == '_')
}

fn is_ident_start(c: char) -> (r: bool)
    ensures
        r == spec_is_ident_start(c),
{
    ('a' <= c && c <= 'z') || ('A' <= c && c <= 'Z') || c == '_'
}

fn is_ident_continue(c: char) -> (r: bool)
    ensures
        r == spec_is_ident_continue(c),
{
    is_ident_start(c) || ('0' <= c && c <= '9')
}

/// Decides whether `s` is a well-formed identifier.
pub fn is_valid_ident(s: &str) -> (r: bool)
    ensures
        r == spec_is_valid_ident(s@),
{
    let n = s.unicode_len();
    if n == 0 {
        return false;
    }
    let first = s.get_char(0);
    if !is_ident_start(first) {
        return false;
    }
    if n == 1 && first == '_' {
        return false;
    }
    let mut i: usize = 1;
    while i < n
        invariant
            n == s@.len(),
            1 <= i <= n,
            forall|k: int| 1 <= k < i ==> spec_is_ident_continue(#[trigger] s@[k]),
        decreases n - i,
    {
        if !is_ident_continue(s.get_char(i)) {
            return false;
        }
        i = i + 1;
    }
    true
}

/// The upper-case form of an ASCII letter; any other character is unchanged.
pub open spec fn spec_upper(c: char) -> char {
    if 'a' <= c && c <= 'z' {
        ((c as u8) - 32) as char
    } else {
        c
    }
}

fn upper(c: char) -> (r: char)
    ensures
        r == spec_upper(c),
{
    if 'a' <= c && c <= 'z' {
        ((c as u8) - 32) as char
    } else {
        c
    }
}

/// The pascal-cased form of `s`, reading left to right: underscores are
/// dropped, the first character of each underscore-separated segment is
/// upper-cased, and all other characters are kept unchanged. `cap` says
/// whether the next non-underscore character starts a segment.
pub open spec fn spec_pascal_rec(s: Seq<char>, cap: bool) -> Seq<char>
    decreases s.len(),
{
    if s.len() == 0 {
        Seq::empty()
    } else if s[0] == '_' {
        spec_pascal_rec(s.drop_first(), true)
    } else if cap {
        seq![spec_upper(s[0])] + spec_pascal_rec(s.drop_first(), false)
    } else {
        seq![s[0]] + spec_pascal_rec(s.drop_first(), false)
    }
}

/// The pascal-cased form of `s`.
pub open spec fn spec_pascal(s: Seq<char>) -> Seq<char> {
    spec_pascal_rec(s, true)
}

proof fn lemma_pascal_rec_step(s: Seq<char>, i: int, cap: bool)
    requires
        0 <= i < s.len(),
    ensures
        spec_pascal_rec(s.skip(i), cap) == if s[i] == '_' {
            spec_pascal_rec(s.skip(i + 1), true)
        } else if cap {
            seq![spec_upper(s[i])] + spec_pascal_rec(s.skip(i + 1), false)
        } else {
            seq![s[i]] + spec_pascal_rec(s.skip(i + 1), false)
        },
{
    assert(s.skip(i).drop_first() =~= s.skip(i + 1));
    assert(s.skip(i)[0] == s[i]);
}

/// Computes the pascal-cased form of `s`, used to derive the name of the
/// per-member slot in the generated typestate trait.
pub fn to_pascal_case(s: &str) -> (r: String)
    ensures
        r@ == spec_pascal(s@),
{
    let n = s.unicode_len();
    let mut out = String::new();
    let mut cap = true;
    let mut i: usize = 0;
    proof {
        assert(s@.skip(0) =~= s@);
        assert(out@ + spec_pascal_rec(s@, true) =~= spec_pascal(s@));
    }
    while i < n
        invariant
            n == s@.len(),
            i <= n,
            spec_pascal(s@) == out@ + spec_pascal_rec(s@.skip(i as int), cap),
        decreases n - i,
    {
        let c = s.get_char(i);
        proof {
            lemma_pascal_rec_step(s@, i as int, cap);
        }
        if c == '_' {
            cap = true;
        } else if cap {
            out.push(upper(c));
            cap = false;
            assert(out@ + spec_pascal_rec(s@.skip(i + 1), false) =~= spec_pascal(s@));
        } else {
            out.push(c);
            assert(out@ + spec_pascal_rec(s@.skip(i + 1), false) =~= spec_pascal(s@));
        }
        i = i + 1;
    }
    proof {
        assert(s@.skip(n as int) =~= Seq::empty());
        assert(out@ + spec_pascal_rec(s@.skip(n as int), cap) =~= out@);
    }
    out
}

} // verus!
