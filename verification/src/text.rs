//! Text helpers shared by the matrix tags, the path-key builder and the
//! renderer: ASCII lowercasing, the kebab / snake project-name
//! derivations, and comparison of a string against a lowercase tag.

use vstd::prelude::*;

verus! {

/// ASCII lowercasing of a single character; every other character is
/// left unchanged.
pub open spec fn spec_lower_char(c: char) -> char {
    if 'A' <= c && c <= 'Z' {
        ((c as u32) + 32) as char
    } else {
        c
    }
}

/// ASCII lowercasing of a character sequence.
pub open spec fn spec_lower(s: Seq<char>) -> Seq<char> {
    s.map_values(|c: char| spec_lower_char(c))
}

/// ASCII lowercasing of a single character.
pub fn lower_char(c: char) -> (r: char)
    ensures
        r == spec_lower_char(c),
{
    let u = c as u32;
    if 65 <= u && u <= 90 {
        ((u + 32) as u8) as char
    } else {
        c
    }
}

/// Relies on `String::push`: appends exactly the given character.
#[verifier::external_body]
pub(crate) fn push_char(s: &mut String, c: char)
    ensures
        final(s)@ == old(s)@.push(c),
{
    s.push(c);
}

/// ASCII lowercasing of a whole string.
pub fn lower_str(s: &str) -> (r: String)
    ensures
        r@ == spec_lower(s@),
{
    let n = s.unicode_len();
    let mut out = String::new();
    let mut i: usize = 0;
    while i < n
        invariant
            n == s@.len(),
            0 <= i <= n,
            out@ =~= spec_lower(s@).subrange(0, i as int),
        decreases n - i,
    {
        let c = lower_char(s.get_char(i));
        push_char(&mut out, c);
        i = i + 1;
    }
    proof {
        assert(out@ =~= spec_lower(s@));
    }
    out
}

/// Whether the ASCII-lowercased form of `s` equals `lit`.
pub fn eq_lower(s: &str, lit: &str) -> (r: bool)
    ensures
        r == (spec_lower(s@) == lit@),
{
    let n = s.unicode_len();
    let m = lit.unicode_len();
    if n != m {
        proof {
            assert(spec_lower(s@).len() == s@.len());
        }
        return false;
    }
    let mut i: usize = 0;
    while i < n
        invariant
            n == s@.len(),
            n == lit@.len(),
            0 <= i <= n,
            forall|j: int| 0 <= j < i ==> spec_lower(s@)[j] == lit@[j],
        decreases n - i,
    {
        if lower_char(s.get_char(i)) != lit.get_char(i) {
            proof {
                assert(spec_lower(s@)[i as int] != lit@[i as int]);
            }
            return false;
        }
        i = i + 1;
    }
    proof {
        assert(spec_lower(s@) =~= lit@);
    }
    true
}

/// The kebab derivation of a name, from position `i` on: every run of
/// underscores and spaces becomes one hyphen, everything else is
/// lowercased.  `prev_sep` records whether the previous character
/// belonged to such a run.
pub open spec fn kebab_rec(s: Seq<char>, i: int, prev_sep: bool) -> Seq<char>
    decreases s.len() - i,
    when 0 <= i <= s.len()
{
    if i >= s.len() {
        Seq::empty()
    } else {
        let c = s[i];
        if c == '_' || c == ' ' {
            if prev_sep {
                kebab_rec(s, i + 1, true)
            } else {
                seq!['-'] + kebab_rec(s, i + 1, true)
            }
        } else {
            seq![spec_lower_char(c)] + kebab_rec(s, i + 1, false)
        }
    }
}

/// The kebab derivation of a whole name.
pub open spec fn spec_kebab(s: Seq<char>) -> Seq<char> {
    kebab_rec(s, 0, false)
}

/// The snake derivation of a name, from position `i` on: every run of
/// hyphens and spaces becomes one underscore, everything else is
/// lowercased.
pub open spec fn snake_rec(s: Seq<char>, i: int, prev_sep: bool) -> Seq<char>
    decreases s.len() - i,
    when 0 <= i <= s.len()
{
    if i >= s.len() {
        Seq::empty()
    } else {
        let c = s[i];
        if c == '-' || c == ' ' {
            if prev_sep {
                snake_rec(s, i + 1, true)
            } else {
                seq!['_'] + snake_rec(s, i + 1, true)
            }
        } else {
            seq![spec_lower_char(c)] + snake_rec(s, i + 1, false)
        }
    }
}

/// The snake derivation of a whole name.
pub open spec fn spec_snake(s: Seq<char>) -> Seq<char> {
    snake_rec(s, 0, false)
}

/// Kebab-case form of a project name: runs of underscores and spaces
/// collapse to a single hyphen, and letters are lowercased.
pub fn to_kebab_case(s: &str) -> (r: String)
    ensures
        r@ == spec_kebab(s@),
{
    let n = s.unicode_len();
    let mut out = String::new();
    let mut prev_sep = false;
    let mut i: usize = 0;
    while i < n
        invariant
            n == s@.len(),
            0 <= i <= n,
            spec_kebab(s@) == out@ + kebab_rec(s@, i as int, prev_sep),
        decreases n - i,
    {
        let c = s.get_char(i);
        if c == '_' || c == ' ' {
            if !prev_sep {
                push_char(&mut out, '-');
            }
            proof {
                assert(spec_kebab(s@) =~= out@ + kebab_rec(s@, i as int + 1, true));
            }
            prev_sep = true;
        } else {
            push_char(&mut out, lower_char(c));
            proof {
                assert(spec_kebab(s@) =~= out@ + kebab_rec(s@, i as int + 1, false));
            }
            prev_sep = false;
        }
        i = i + 1;
    }
    proof {
        assert(spec_kebab(s@) =~= out@);
    }
    out
}

/// Snake-case form of a project name: runs of hyphens and spaces
/// collapse to a single underscore, and letters are lowercased.
pub fn to_snake_case(s: &str) -> (r: String)
    ensures
        r@ == spec_snake(s@),
{
    let n = s.unicode_len();
    let mut out = String::new();
    let mut prev_sep = false;
    let mut i: usize = 0;
    while i < n
        invariant
            n == s@.len(),
            0 <= i <= n,
            spec_snake(s@) == out@ + snake_rec(s@, i as int, prev_sep),
        decreases n - i,
    {
        let c = s.get_char(i);
        if c == '-' || c == ' ' {
            if !prev_sep {
                push_char(&mut out, '_');
            }
            proof {
                assert(spec_snake(s@) =~= out@ + snake_rec(s@, i as int + 1, true));
            }
            prev_sep = true;
        } else {
            push_char(&mut out, lower_char(c));
            proof {
                assert(spec_snake(s@) =~= out@ + snake_rec(s@, i as int + 1, false));
            }
            prev_sep = false;
        }
        i = i + 1;
    }
    proof {
        assert(spec_snake(s@) =~= out@);
    }
    out
}

} // verus!
