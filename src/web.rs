//! Checks made on requests before they reach the supervisor.
use vstd::prelude::*;
use vstd::string::{StringExecFns, StringSliceAdditionalSpecFns};
use crate::text::{is_trim_end_of, lower_ascii, split_on, split_spec, strings_of, to_ascii_lower, trim, trim_end_char, trimmed};

verus! {

/// Compares two secrets in time that depends on their length alone: equal
/// exactly when their bytes are.
pub fn constant_time_eq(a: &str, b: &str) -> (r: bool)
    ensures
        r == (a.spec_bytes() == b.spec_bytes()),
{
    let ab = a.as_bytes();
    let bb = b.as_bytes();
    if ab.len() != bb.len() {
        return false;
    }
    let mut acc: u8 = 0;
    let mut i: usize = 0;
    while i < ab.len()
        invariant
            ab@ == a.spec_bytes(),
            bb@ == b.spec_bytes(),
            ab@.len() == bb@.len(),
            i <= ab@.len(),
            (acc == 0) == (forall|k: int| 0 <= k < i ==> ab@[k] == bb@[k]),
        decreases ab@.len() - i,
    {
        let x = ab[i];
        let y = bb[i];
        let next = acc | (x ^ y);
        proof {
            assert((next == 0) == (acc == 0 && x == y)) by (bit_vector)
                requires
                    next == acc | (x ^ y),
            ;
        }
        acc = next;
        i = i + 1;
    }
    proof {
        if acc == 0 {
            assert(ab@ =~= bb@);
        }
    }
    acc == 0
}

/// The text without surrounding whitespace and without the slashes at its
/// end.
pub open spec fn without_trailing_slash(s: Seq<char>) -> Seq<char> {
    choose|r: Seq<char>| is_trim_end_of(r, trimmed(s), '/')
}

proof fn lemma_trim_end_is(r: Seq<char>, s: Seq<char>, c: char)
    requires
        is_trim_end_of(r, s, c),
    ensures
        (choose|t: Seq<char>| is_trim_end_of(t, s, c)) == r,
{
    let t = choose|t: Seq<char>| is_trim_end_of(t, s, c);
    let j1 = choose|j: int|
        0 <= j <= s.len() && r == s.subrange(0, j) && (forall|k: int| j <= k < s.len() ==> #[trigger] s[k] == c)
            && (j > 0 ==> s[j - 1] != c);
    let j2 = choose|j: int|
        0 <= j <= s.len() && t == s.subrange(0, j) && (forall|k: int| j <= k < s.len() ==> #[trigger] s[k] == c)
            && (j > 0 ==> s[j - 1] != c);
    if j1 < j2 {
        assert(s[j2 - 1] == c);
    } else if j2 < j1 {
        assert(s[j1 - 1] == c);
    }
}

/// A base URL as it is stored: trimmed, without slashes at its end.
pub fn trim_trailing_slash(input: &str) -> (r: String)
    ensures
        r@ == without_trailing_slash(input@),
{
    let t = trim(input);
    let r = trim_end_char(t.as_str(), '/');
    proof {
        lemma_trim_end_is(r@, t@, '/');
    }
    r
}

/// `s` without the slashes at its end.
pub open spec fn slashless(s: Seq<char>) -> Seq<char> {
    choose|r: Seq<char>| is_trim_end_of(r, s, '/')
}

/// An origin is allowed when, slashes at the end aside, it equals one of the
/// allowed origins up to ASCII case.
pub open spec fn origin_allowed_spec(origin: Seq<char>, allowed: Seq<Seq<char>>) -> bool {
    exists|i: int| 0 <= i < allowed.len() && lower_ascii(slashless(origin)) == lower_ascii(slashless(#[trigger] allowed[i]))
}

pub fn is_origin_allowed(origin: &str, allowed: &[String]) -> (r: bool)
    ensures
        r == origin_allowed_spec(origin@, strings_of(allowed@)),
{
    let o = trim_end_char(origin, '/');
    proof {
        lemma_trim_end_is(o@, origin@, '/');
    }
    let lo = to_ascii_lower(o.as_str());
    let ghost av = strings_of(allowed@);
    let mut i: usize = 0;
    while i < allowed.len()
        invariant
            i <= allowed@.len(),
            av == strings_of(allowed@),
            lo@ == lower_ascii(slashless(origin@)),
            forall|k: int| 0 <= k < i ==> lower_ascii(slashless(origin@)) != lower_ascii(slashless(#[trigger] av[k])),
        decreases allowed@.len() - i,
    {
        let a = trim_end_char(allowed[i].as_str(), '/');
        proof {
            lemma_trim_end_is(a@, av[i as int], '/');
        }
        let la = to_ascii_lower(a.as_str());
        if lo == la {
            return true;
        }
        i = i + 1;
    }
    false
}

/// The allowed origins configured as a comma-separated list, each trimmed;
/// the local development origins where nothing is configured.
pub open spec fn allowed_origins_spec(configured: Option<Seq<char>>) -> Seq<Seq<char>> {
    let v = match configured {
        Some(c) => c,
        None => "http://localhost:3000,http://127.0.0.1:3000"@,
    };
    split_spec(v, ',').map_values(|p: Seq<char>| trimmed(p))
}

pub fn parse_allowed_origins(configured: Option<&str>) -> (r: Vec<String>)
    ensures
        strings_of(r@) == allowed_origins_spec(match configured {
            Some(c) => Some(c@),
            None => None,
        }),
{
    let pieces = match configured {
        Some(c) => split_on(c, ','),
        None => split_on("http://localhost:3000,http://127.0.0.1:3000", ','),
    };
    let ghost pv = strings_of(pieces@);
    let mut r: Vec<String> = Vec::new();
    let mut i: usize = 0;
    while i < pieces.len()
        invariant
            i <= pieces@.len(),
            pv == strings_of(pieces@),
            r@.len() == i,
            forall|k: int| 0 <= k < i ==> (#[trigger] r@[k])@ == trimmed(pv[k]),
        decreases pieces@.len() - i,
    {
        r.push(trim(pieces[i].as_str()));
        i = i + 1;
    }
    proof {
        assert(strings_of(r@) =~= pv.map_values(|p: Seq<char>| trimmed(p)));
    }
    r
}

/// The value of the allow-origin header: the request's origin where it is
/// allowed, else `null`.
pub fn cors_allow_origin(origin: Option<&str>, allowed: &[String]) -> (r: String)
    ensures
        r@ == (match origin {
            Some(o) => if origin_allowed_spec(o@, strings_of(allowed@)) {
                o@
            } else {
                "null"@
            },
            None => "null"@,
        }),
{
    match origin {
        Some(o) => {
            if is_origin_allowed(o, allowed) {
                String::from_str(o)
            } else {
                String::from_str("null")
            }
        },
        None => String::from_str("null"),
    }
}

} // verus!
