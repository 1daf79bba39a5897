//! Validation of a project name before it becomes a destination
//! directory.  Whether the directory already exists on disk is the
//! caller's check; everything about the name itself is decided here.

use vstd::prelude::*;

use crate::text::{eq_lower, spec_lower};

verus! {

/// A character a project name may consist of.
pub open spec fn is_name_char(c: char) -> bool {
    ('a' <= c && c <= 'z') || ('A' <= c && c <= 'Z') || ('0' <= c && c <= '9') || c == '-' || c
        == '_' || c == '.'
}

/// Every character of the name is allowed.
pub open spec fn spec_all_name_chars(s: Seq<char>) -> bool {
    forall|i: int| 0 <= i < s.len() ==> is_name_char(#[trigger] s[i])
}

/// Whether the lowercased name is reserved on Windows.
pub open spec fn spec_reserved(l: Seq<char>) -> bool {
    ||| l == "con"@
    ||| l == "prn"@
    ||| l == "aux"@
    ||| l == "nul"@
    ||| l == "com1"@
    ||| l == "com2"@
    ||| l == "com3"@
    ||| l == "com4"@
    ||| l == "com5"@
    ||| l == "com6"@
    ||| l == "com7"@
    ||| l == "com8"@
    ||| l == "com9"@
    ||| l == "lpt1"@
    ||| l == "lpt2"@
    ||| l == "lpt3"@
    ||| l == "lpt4"@
    ||| l == "lpt5"@
    ||| l == "lpt6"@
    ||| l == "lpt7"@
    ||| l == "lpt8"@
    ||| l == "lpt9"@
}

/// The first rule a name violates, as the message reported for it;
/// `None` means the name is acceptable.
pub open spec fn spec_name_error(s: Seq<char>) -> Option<Seq<char>> {
    if s.len() == 0 {
        Some("Project name cannot be empty"@)
    } else if s.len() > 255 {
        Some("Project name is too long (max 255 characters)"@)
    } else if !spec_all_name_chars(s) {
        Some("Project name can only contain letters, numbers, hyphens, underscores, and dots"@)
    } else if s[0] == '.' {
        Some("Project name cannot start with a dot"@)
    } else if s[s.len() - 1] == '.' || s[s.len() - 1] == ' ' {
        Some("Project name cannot end with a dot or space"@)
    } else if spec_reserved(spec_lower(s)) {
        Some("Project name is a reserved name in Windows"@)
    } else {
        None
    }
}

/// A character a project name may consist of.
fn name_char(c: char) -> (r: bool)
    ensures
        r == is_name_char(c),
{
    let u = c as u32;
    (97 <= u && u <= 122) || (65 <= u && u <= 90) || (48 <= u && u <= 57) || u == 45 || u == 95
        || u == 46
}

/// Whether the lowercased name is reserved on Windows.
fn is_reserved(name: &str) -> (r: bool)
    ensures
        r == spec_reserved(spec_lower(name@)),
{
    eq_lower(name, "con") || eq_lower(name, "prn") || eq_lower(name, "aux") || eq_lower(
        name,
        "nul",
    ) || eq_lower(name, "com1") || eq_lower(name, "com2") || eq_lower(name, "com3") || eq_lower(
        name,
        "com4",
    ) || eq_lower(name, "com5") || eq_lower(name, "com6") || eq_lower(name, "com7") || eq_lower(
        name,
        "com8",
    ) || eq_lower(name, "com9") || eq_lower(name, "lpt1") || eq_lower(name, "lpt2") || eq_lower(
        name,
        "lpt3",
    ) || eq_lower(name, "lpt4") || eq_lower(name, "lpt5") || eq_lower(name, "lpt6") || eq_lower(
        name,
        "lpt7",
    ) || eq_lower(name, "lpt8") || eq_lower(name, "lpt9")
}

/// Check a project name against every naming rule, reporting the first
/// violation in a fixed order: non-empty, at most 255 characters, only
/// letters, digits, hyphens, underscores and dots, no leading dot, no
/// trailing dot or space, and not a name Windows reserves.
pub fn validate_project_name(name: &str) -> (r: Result<(), String>)
    ensures
        match r {
            Ok(_) => spec_name_error(name@) is None,
            Err(e) => spec_name_error(name@) == Some(e@),
        },
{
    let n = name.unicode_len();
    if n == 0 {
        return Err("Project name cannot be empty".to_owned());
    }
    if n > 255 {
        return Err("Project name is too long (max 255 characters)".to_owned());
    }
    let mut i: usize = 0;
    while i < n
        invariant
            n == name@.len(),
            1 <= n <= 255,
            0 <= i <= n,
            forall|j: int| 0 <= j < i ==> is_name_char(#[trigger] name@[j]),
        decreases n - i,
    {
        if !name_char(name.get_char(i)) {
            proof {
                assert(!is_name_char(name@[i as int]));
                assert(!spec_all_name_chars(name@));
            }
            return Err(
                "Project name can only contain letters, numbers, hyphens, underscores, and dots".to_owned(),
            );
        }
        i = i + 1;
    }
    if name.get_char(0) == '.' {
        return Err("Project name cannot start with a dot".to_owned());
    }
    let last = name.get_char(n - 1);
    if last == '.' || last == ' ' {
        return Err("Project name cannot end with a dot or space".to_owned());
    }
    if is_reserved(name) {
        return Err("Project name is a reserved name in Windows".to_owned());
    }
    Ok(())
}

} // verus!
