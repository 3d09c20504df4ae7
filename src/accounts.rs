//! Checks on the fields of a new account.
use vstd::prelude::*;
use vstd::string::{StrSliceExecFns, StringExecFns, StringSliceAdditionalSpecFns};
use crate::passwords::verdict_is;

verus! {

/// The address pattern.
pub const EMAIL_PATTERN: &'static str = r"^[a-zA-Z0-9.!#$%&'*+/=?^_`{|}~-]+@[a-zA-Z0-9](?:[a-zA-Z0-9-]{0,61}[a-zA-Z0-9])?(?:\.[a-zA-Z0-9](?:[a-zA-Z0-9-]{0,61}[a-zA-Z0-9])?)*$";

/// The name pattern: letters, whitespace, hyphens, apostrophes and dots.
pub const NAME_PATTERN: &'static str = r"^[\p{L}\s\-'\.]+$";

/// The phone pattern: an optional `+`, a digit from 1 to 9, 9 to 14 more.
pub const PHONE_PATTERN: &'static str = r"^\+?[1-9]\d{9,14}$";

/// Whether a text matches a regular expression; none where the expression
/// does not compile.
pub uninterp spec fn regex_verdict(pattern: Seq<char>, text: Seq<char>) -> Option<bool>;

/// Relies on `regex::Regex::new` and `regex::Regex::is_match`: whether the
/// text matches, or none for a pattern that is not a regular expression.
#[verifier::external_body]
fn regex_matches(pattern: &str, text: &str) -> (r: Option<bool>)
    ensures
        r == regex_verdict(pattern@, text@),
{
    match regex::Regex::new(pattern) {
        Ok(re) => Some(re.is_match(text)),
        Err(_) => None,
    }
}

fn matches_pattern(pattern: &str, text: &str) -> (r: bool)
    ensures
        r == (regex_verdict(pattern@, text@) == Some(true)),
{
    match regex_matches(pattern, text) {
        Some(b) => b,
        None => false,
    }
}

pub open spec fn email_shape(s: Seq<char>) -> bool {
    regex_verdict(EMAIL_PATTERN@, s) == Some(true)
}

pub open spec fn name_shape(s: Seq<char>) -> bool {
    regex_verdict(NAME_PATTERN@, s) == Some(true)
}

pub open spec fn phone_shape(s: Seq<char>) -> bool {
    regex_verdict(PHONE_PATTERN@, s) == Some(true)
}

pub open spec fn email_problem(bytes: nat, s: Seq<char>) -> Option<Seq<char>> {
    if s.len() == 0 {
        Some("Email is required"@)
    } else if bytes > 254 {
        Some("Email is too long"@)
    } else if !email_shape(s) {
        Some("Invalid email format"@)
    } else {
        None
    }
}

/// An e-mail address must be given, fit in 254 bytes and have the shape of
/// an address.
pub fn validate_email(email: &str) -> (r: Result<(), String>)
    ensures
        verdict_is(r, email_problem(email.spec_bytes().len(), email@)),
{
    if email.unicode_len() == 0 {
        return Err(String::from_str("Email is required"));
    }
    if email.as_bytes().len() > 254 {
        return Err(String::from_str("Email is too long"));
    }
    if !matches_pattern(EMAIL_PATTERN, email) {
        return Err(String::from_str("Invalid email format"));
    }
    Ok(())
}

pub open spec fn name_problem(bytes: nat, s: Seq<char>) -> Option<Seq<char>> {
    if s.len() == 0 {
        Some("Name is required"@)
    } else if bytes < 2 {
        Some("Name must be at least 2 characters long"@)
    } else if bytes > 100 {
        Some("Name is too long"@)
    } else if !name_shape(s) {
        Some("Name contains invalid characters"@)
    } else {
        None
    }
}

/// A name must be given, take 2 to 100 bytes, and hold letters, spaces,
/// hyphens, apostrophes and dots only.
pub fn validate_name(name: &str) -> (r: Result<(), String>)
    ensures
        verdict_is(r, name_problem(name.spec_bytes().len(), name@)),
{
    if name.unicode_len() == 0 {
        return Err(String::from_str("Name is required"));
    }
    let bytes = name.as_bytes().len();
    if bytes < 2 {
        return Err(String::from_str("Name must be at least 2 characters long"));
    }
    if bytes > 100 {
        return Err(String::from_str("Name is too long"));
    }
    if !matches_pattern(NAME_PATTERN, name) {
        return Err(String::from_str("Name contains invalid characters"));
    }
    Ok(())
}

/// The digits and `+` signs of a text, in order.
pub open spec fn dial_chars(s: Seq<char>) -> Seq<char> {
    s.filter(|c: char| ('0' <= c && c <= '9') || c == '+')
}

/// The digits and `+` signs of `s`.
pub fn keep_dial_chars(s: &str) -> (r: String)
    ensures
        r@ == dial_chars(s@),
{
    let n = s.unicode_len();
    let mut r = String::new();
    let mut i: usize = 0;
    proof {
        assert(s@.subrange(0, 0).filter(|c: char| ('0' <= c && c <= '9') || c == '+') =~= Seq::<char>::empty());
    }
    while i < n
        invariant
            n == s@.len(),
            i <= n,
            r@ == dial_chars(s@.subrange(0, i as int)),
        decreases n - i,
    {
        let c = s.get_char(i);
        proof {
            let pre = s@.subrange(0, i + 1);
            assert(pre.drop_last() =~= s@.subrange(0, i as int));
            pre.drop_last().lemma_filter_push(c, |c: char| ('0' <= c && c <= '9') || c == '+');
            assert(pre =~= pre.drop_last().push(c));
        }
        if ('0' <= c && c <= '9') || c == '+' {
            r.push(c);
        }
        i = i + 1;
    }
    proof {
        assert(s@.subrange(0, n as int) =~= s@);
    }
    r
}

pub open spec fn phone_problem(s: Seq<char>) -> Option<Seq<char>> {
    if s.len() == 0 || phone_shape(dial_chars(s)) {
        None
    } else {
        Some("Invalid phone number format. Use E.164 format (+1234567890)"@)
    }
}

/// A phone number is optional; where given, its digits and `+` signs must
/// form an E.164 number.
pub fn validate_phone(phone: &str) -> (r: Result<(), String>)
    ensures
        verdict_is(r, phone_problem(phone@)),
{
    if phone.unicode_len() == 0 {
        return Ok(());
    }
    let cleaned = keep_dial_chars(phone);
    if !matches_pattern(PHONE_PATTERN, cleaned.as_str()) {
        return Err(String::from_str("Invalid phone number format. Use E.164 format (+1234567890)"));
    }
    Ok(())
}

} // verus!
