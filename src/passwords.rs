//! Password strength rules for new accounts.
use vstd::prelude::*;
use vstd::string::{StrSliceExecFns, StringExecFns, StringSliceAdditionalSpecFns};
use crate::text::{contains_text, lower_of, lowercase, text_contains};

verus! {

pub open spec fn is_upper(c: char) -> bool {
    'A' <= c && c <= 'Z'
}

pub open spec fn is_lower(c: char) -> bool {
    'a' <= c && c <= 'z'
}

pub open spec fn is_digit(c: char) -> bool {
    '0' <= c && c <= '9'
}

pub open spec fn is_special(c: char) -> bool {
    !(is_upper(c) || is_lower(c) || is_digit(c))
}

/// Character classes a password must show: upper case, lower case, digit,
/// other.
pub open spec fn in_class(kind: u8, c: char) -> bool {
    if kind == 0 {
        is_upper(c)
    } else if kind == 1 {
        is_lower(c)
    } else if kind == 2 {
        is_digit(c)
    } else {
        is_special(c)
    }
}

pub open spec fn has_class(s: Seq<char>, kind: u8) -> bool {
    exists|i: int| 0 <= i < s.len() && in_class(kind, #[trigger] s[i])
}

/// Whether the lowered text holds one of the easily guessed words.
pub open spec fn is_common(lowered: Seq<char>) -> bool {
    contains_text(lowered, "password"@) || contains_text(lowered, "123456"@) || contains_text(lowered, "qwerty"@)
        || contains_text(lowered, "admin"@) || contains_text(lowered, "letmein"@)
}

/// The first rule a password breaks, given its length in bytes, its text and
/// its lowercase form; none where it is strong enough.
pub open spec fn password_problem(bytes: nat, s: Seq<char>, lowered: Seq<char>) -> Option<Seq<char>> {
    if bytes < 12 {
        Some("Password must be at least 12 characters long"@)
    } else if bytes > 128 {
        Some("Password is too long"@)
    } else if !has_class(s, 0) {
        Some("Password must contain at least one uppercase letter"@)
    } else if !has_class(s, 1) {
        Some("Password must contain at least one lowercase letter"@)
    } else if !has_class(s, 2) {
        Some("Password must contain at least one digit"@)
    } else if !has_class(s, 3) {
        Some("Password must contain at least one special character"@)
    } else if is_common(lowered) {
        Some("Password is too common or easily guessable"@)
    } else {
        None
    }
}

pub open spec fn verdict_is(r: Result<(), String>, p: Option<Seq<char>>) -> bool {
    match p {
        None => r is Ok,
        Some(m) => r is Err && r->Err_0@ == m,
    }
}

fn has_matching(s: &str, kind: u8) -> (r: bool)
    ensures
        r == has_class(s@, kind),
{
    let n = s.unicode_len();
    let mut i: usize = 0;
    while i < n
        invariant
            n == s@.len(),
            i <= n,
            forall|k: int| 0 <= k < i ==> !in_class(kind, #[trigger] s@[k]),
        decreases n - i,
    {
        let c = s.get_char(i);
        let up = 'A' <= c && c <= 'Z';
        let lo = 'a' <= c && c <= 'z';
        let dg = '0' <= c && c <= '9';
        let hit = if kind == 0 {
            up
        } else if kind == 1 {
            lo
        } else if kind == 2 {
            dg
        } else {
            !(up || lo || dg)
        };
        if hit {
            proof {
                assert(in_class(kind, s@[i as int]));
            }
            return true;
        }
        i = i + 1;
    }
    false
}

/// The verdict on a password, given its lowercase form.
pub fn check_password(password: &str, lowered: &str) -> (r: Result<(), String>)
    ensures
        verdict_is(r, password_problem(password.spec_bytes().len(), password@, lowered@)),
{
    let bytes = password.as_bytes().len();
    if bytes < 12 {
        return Err(String::from_str("Password must be at least 12 characters long"));
    }
    if bytes > 128 {
        return Err(String::from_str("Password is too long"));
    }
    if !has_matching(password, 0) {
        return Err(String::from_str("Password must contain at least one uppercase letter"));
    }
    if !has_matching(password, 1) {
        return Err(String::from_str("Password must contain at least one lowercase letter"));
    }
    if !has_matching(password, 2) {
        return Err(String::from_str("Password must contain at least one digit"));
    }
    if !has_matching(password, 3) {
        return Err(String::from_str("Password must contain at least one special character"));
    }
    if text_contains(lowered, "password") || text_contains(lowered, "123456") || text_contains(lowered, "qwerty")
        || text_contains(lowered, "admin") || text_contains(lowered, "letmein") {
        return Err(String::from_str("Password is too common or easily guessable"));
    }
    Ok(())
}

/// Checks a new password: at least 12 and at most 128 bytes, an upper-case
/// letter, a lower-case letter, a digit, a character of none of these, and no
/// easily guessed word in its lowercase form.
pub fn validate_password(password: &str) -> (r: Result<(), String>)
    ensures
        verdict_is(r, password_problem(password.spec_bytes().len(), password@, lower_of(password@))),
{
    let lowered = lowercase(password);
    check_password(password, lowered.as_str())
}

} // verus!
