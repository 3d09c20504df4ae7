//! Character-level string helpers with exact specifications.
use vstd::prelude::*;
use vstd::string::StrSliceExecFns;
use vstd::string::StringExecFns;

verus! {

/// Relies on `String::push`: appends one character.
pub assume_specification[ String::push ](s: &mut String, ch: char)
    ensures
        final(s)@ == old(s)@.push(ch),
;

/// Unicode `White_Space`, the set that `str::trim` removes.
pub open spec fn is_ws(c: char) -> bool {
    c == '\t' || c == '\n' || c == '\u{0B}' || c == '\u{0C}' || c == '\r' || c == ' '
        || c == '\u{85}' || c == '\u{A0}' || c == '\u{1680}' || ('\u{2000}' <= c && c
        <= '\u{200A}') || c == '\u{2028}' || c == '\u{2029}' || c == '\u{202F}' || c
        == '\u{205F}' || c == '\u{3000}'
}

pub fn is_ws_char(c: char) -> (r: bool)
    ensures
        r == is_ws(c),
{
    c == '\t' || c == '\n' || c == '\u{0B}' || c == '\u{0C}' || c == '\r' || c == ' '
        || c == '\u{85}' || c == '\u{A0}' || c == '\u{1680}' || ('\u{2000}' <= c && c
        <= '\u{200A}') || c == '\u{2028}' || c == '\u{2029}' || c == '\u{202F}' || c
        == '\u{205F}' || c == '\u{3000}'
}

/// `r` is `s` without its leading and trailing whitespace.
pub open spec fn is_trim_of(r: Seq<char>, s: Seq<char>) -> bool {
    exists|i: int, j: int|
        0 <= i <= j <= s.len() && r == s.subrange(i, j) && (forall|k: int|
            0 <= k < i ==> is_ws(#[trigger] s[k])) && (forall|k: int|
            j <= k < s.len() ==> is_ws(#[trigger] s[k])) && (i < j ==> !is_ws(s[i]) && !is_ws(
            s[j - 1]))
}

/// The trimmed text of `s` is a single value.
pub proof fn lemma_trim_unique(r1: Seq<char>, r2: Seq<char>, s: Seq<char>)
    requires
        is_trim_of(r1, s),
        is_trim_of(r2, s),
    ensures
        r1 == r2,
{
    let (i1, j1) = choose|i: int, j: int|
        0 <= i <= j <= s.len() && r1 == s.subrange(i, j) && (forall|k: int|
            0 <= k < i ==> is_ws(#[trigger] s[k])) && (forall|k: int|
            j <= k < s.len() ==> is_ws(#[trigger] s[k])) && (i < j ==> !is_ws(s[i]) && !is_ws(
            s[j - 1]));
    let (i2, j2) = choose|i: int, j: int|
        0 <= i <= j <= s.len() && r2 == s.subrange(i, j) && (forall|k: int|
            0 <= k < i ==> is_ws(#[trigger] s[k])) && (forall|k: int|
            j <= k < s.len() ==> is_ws(#[trigger] s[k])) && (i < j ==> !is_ws(s[i]) && !is_ws(
            s[j - 1]));
    if i1 < j1 && i2 < j2 {
        assert(i1 == i2);
        assert(j1 == j2);
    } else if i1 < j1 {
        assert(!is_ws(s[i1]));
        if i1 < i2 {
        } else {
            assert(i1 >= j2);
        }
    } else if i2 < j2 {
        assert(!is_ws(s[i2]));
        if i2 < i1 {
        } else {
            assert(i2 >= j1);
        }
    }
}

/// The trimmed text of `s`.
pub open spec fn trimmed(s: Seq<char>) -> Seq<char> {
    choose|r: Seq<char>| is_trim_of(r, s)
}

proof fn lemma_trimmed_is(r: Seq<char>, s: Seq<char>)
    requires
        is_trim_of(r, s),
    ensures
        trimmed(s) == r,
{
    lemma_trim_unique(trimmed(s), r, s);
}

/// `s` with leading and trailing whitespace removed.
pub fn trim(s: &str) -> (r: String)
    ensures
        is_trim_of(r@, s@),
        r@ == trimmed(s@),
{
    let n = s.unicode_len();
    let mut i: usize = 0;
    while i < n && is_ws_char(s.get_char(i))
        invariant
            n == s@.len(),
            i <= n,
            forall|k: int| 0 <= k < i ==> is_ws(#[trigger] s@[k]),
        decreases n - i,
    {
        i = i + 1;
    }
    let mut j: usize = n;
    while j > i && is_ws_char(s.get_char(j - 1))
        invariant
            n == s@.len(),
            i <= j <= n,
            forall|k: int| j <= k < n ==> is_ws(#[trigger] s@[k]),
        decreases j,
    {
        j = j - 1;
    }
    let r = String::from_str(s.substring_char(i, j));
    proof {
        assert(i < j ==> !is_ws(s@[i as int]));
        assert(r@ == s@.subrange(i as int, j as int));
        assert(is_trim_of(r@, s@));
        lemma_trimmed_is(r@, s@);
    }
    r
}

pub open spec fn lower_char(c: char) -> char {
    if 'A' <= c && c <= 'Z' {
        ((c as u8) + 32) as u8 as char
    } else {
        c
    }
}

/// ASCII lowercase of each character; others are kept.
pub open spec fn lower_ascii(s: Seq<char>) -> Seq<char> {
    s.map_values(|c: char| lower_char(c))
}

pub fn to_lower_char(c: char) -> (r: char)
    ensures
        r == lower_char(c),
{
    if 'A' <= c && c <= 'Z' {
        let b: u8 = c as u8;
        (b + 32) as char
    } else {
        c
    }
}

/// ASCII lowercase of `s`.
pub fn to_ascii_lower(s: &str) -> (r: String)
    ensures
        r@ == lower_ascii(s@),
{
    let n = s.unicode_len();
    let mut r = String::new();
    let mut i: usize = 0;
    while i < n
        invariant
            n == s@.len(),
            i <= n,
            r@ == lower_ascii(s@.subrange(0, i as int)),
        decreases n - i,
    {
        let c = s.get_char(i);
        r.push(to_lower_char(c));
        proof {
            assert(s@.subrange(0, i + 1) == s@.subrange(0, i as int).push(c));
        }
        i = i + 1;
    }
    proof {
        assert(s@.subrange(0, n as int) == s@);
    }
    r
}

/// Whether two strings hold the same characters.
pub fn same_text(a: &str, b: &str) -> (r: bool)
    ensures
        r == (a@ == b@),
{
    let n = a.unicode_len();
    let m = b.unicode_len();
    if n != m {
        return false;
    }
    let mut i: usize = 0;
    while i < n
        invariant
            n == a@.len(),
            m == b@.len(),
            n == m,
            i <= n,
            forall|k: int| 0 <= k < i ==> a@[k] == b@[k],
        decreases n - i,
    {
        if a.get_char(i) != b.get_char(i) {
            return false;
        }
        i = i + 1;
    }
    proof {
        assert(a@ =~= b@);
    }
    true
}

/// The decimal digits of `n`, most significant first, with no leading zero.
pub open spec fn decimal_digits(n: nat) -> Seq<char>
    decreases n,
{
    if n < 10 {
        seq![digit_char(n)]
    } else {
        decimal_digits(n / 10).push(digit_char(n % 10))
    }
}

pub open spec fn digit_char(d: nat) -> char {
    if d == 0 { '0' } else if d == 1 { '1' } else if d == 2 { '2' } else if d == 3 { '3' }
    else if d == 4 { '4' } else if d == 5 { '5' } else if d == 6 { '6' } else if d == 7 { '7' }
    else if d == 8 { '8' } else { '9' }
}

/// The decimal text of an integer, with a leading `-` where it is negative.
pub open spec fn int_text(n: int) -> Seq<char> {
    if n < 0 {
        seq!['-'] + decimal_digits((-n) as nat)
    } else {
        decimal_digits(n as nat)
    }
}

fn digit_to_char(d: u64) -> (c: char)
    requires
        d < 10,
    ensures
        c == digit_char(d as nat),
{
    if d == 0 { '0' } else if d == 1 { '1' } else if d == 2 { '2' } else if d == 3 { '3' }
    else if d == 4 { '4' } else if d == 5 { '5' } else if d == 6 { '6' } else if d == 7 { '7' }
    else if d == 8 { '8' } else { '9' }
}

/// Decimal text of `n`.
pub fn u64_text(n: u64) -> (r: String)
    ensures
        r@ == decimal_digits(n as nat),
    decreases n,
{
    if n < 10 {
        let mut r = String::new();
        r.push(digit_to_char(n));
        proof {
            assert(r@ =~= seq![digit_char(n as nat)]);
        }
        r
    } else {
        let mut r = u64_text(n / 10);
        r.push(digit_to_char(n % 10));
        r
    }
}

/// Decimal text of `n`, signed.
pub fn i64_text(n: i64) -> (r: String)
    ensures
        r@ == int_text(n as int),
{
    if n < 0 {
        let m: u64 = if n == i64::MIN {
            9223372036854775808u64
        } else {
            (-n) as u64
        };
        let mut r = String::new();
        r.push('-');
        let d = u64_text(m);
        let r = r.concat(d.as_str());
        proof {
            assert(r@ =~= seq!['-'] + decimal_digits((-(n as int)) as nat));
        }
        r
    } else {
        u64_text(n as u64)
    }
}

/// The pieces of `s` between occurrences of `sep`; as many as there are
/// separators, plus one.
pub open spec fn split_spec(s: Seq<char>, sep: char) -> Seq<Seq<char>>
    decreases s.len(),
{
    if s.len() == 0 {
        seq![Seq::empty()]
    } else {
        let p = split_spec(s.drop_last(), sep);
        if s.last() == sep {
            p.push(Seq::empty())
        } else {
            p.update(p.len() - 1, p.last().push(s.last()))
        }
    }
}

pub open spec fn strings_of(v: Seq<String>) -> Seq<Seq<char>> {
    v.map_values(|x: String| x@)
}

/// `s` cut at each `sep`.
pub fn split_on(s: &str, sep: char) -> (r: Vec<String>)
    ensures
        strings_of(r@) == split_spec(s@, sep),
        r@.len() >= 1,
{
    let n = s.unicode_len();
    let mut pieces: Vec<String> = Vec::new();
    let mut cur = String::new();
    let mut i: usize = 0;
    proof {
        assert(s@.subrange(0, 0) =~= Seq::<char>::empty());
        assert(strings_of(pieces@).push(cur@) =~= seq![Seq::<char>::empty()]);
    }
    while i < n
        invariant
            n == s@.len(),
            i <= n,
            strings_of(pieces@).push(cur@) == split_spec(s@.subrange(0, i as int), sep),
        decreases n - i,
    {
        let c = s.get_char(i);
        let ghost pre = s@.subrange(0, i + 1);
        proof {
            assert(pre.drop_last() =~= s@.subrange(0, i as int));
            assert(pre.last() == c);
        }
        if c == sep {
            let done = cur;
            pieces.push(done);
            cur = String::new();
            proof {
                assert(strings_of(pieces@).push(cur@) =~= split_spec(pre, sep));
            }
        } else {
            cur.push(c);
            proof {
                assert(strings_of(pieces@).push(cur@) =~= split_spec(pre, sep));
            }
        }
        i = i + 1;
    }
    pieces.push(cur);
    proof {
        assert(s@.subrange(0, n as int) =~= s@);
        assert(strings_of(pieces@) =~= split_spec(s@, sep));
    }
    pieces
}

/// `s` without the characters `c` at its end.
pub open spec fn is_trim_end_of(r: Seq<char>, s: Seq<char>, c: char) -> bool {
    exists|j: int|
        0 <= j <= s.len() && r == s.subrange(0, j) && (forall|k: int| j <= k < s.len() ==> #[trigger] s[k] == c)
            && (j > 0 ==> s[j - 1] != c)
}

/// `s` with every trailing `c` removed.
pub fn trim_end_char(s: &str, c: char) -> (r: String)
    ensures
        is_trim_end_of(r@, s@, c),
{
    let n = s.unicode_len();
    let mut j: usize = n;
    while j > 0 && s.get_char(j - 1) == c
        invariant
            n == s@.len(),
            j <= n,
            forall|k: int| j <= k < n ==> #[trigger] s@[k] == c,
        decreases j,
    {
        j = j - 1;
    }
    let r = String::from_str(s.substring_char(0, j));
    proof {
        assert(is_trim_end_of(r@, s@, c));
    }
    r
}

/// `s` without `suffix` at its end, where it ends so.
pub open spec fn strip_suffix_spec(s: Seq<char>, suffix: Seq<char>) -> Option<Seq<char>> {
    if suffix.len() <= s.len() && s.subrange(s.len() - suffix.len(), s.len() as int) == suffix {
        Some(s.subrange(0, s.len() - suffix.len()))
    } else {
        None
    }
}

pub fn strip_suffix_text(s: &str, suffix: &str) -> (r: Option<String>)
    ensures
        match r {
            Some(t) => strip_suffix_spec(s@, suffix@) == Some(t@),
            None => strip_suffix_spec(s@, suffix@) is None,
        },
{
    let n = s.unicode_len();
    let m = suffix.unicode_len();
    if m > n {
        return None;
    }
    let tail = s.substring_char(n - m, n);
    if same_text(tail, suffix) {
        Some(String::from_str(s.substring_char(0, n - m)))
    } else {
        None
    }
}

/// The lowercase mapping of a text, in the full Unicode sense.
pub uninterp spec fn lower_of(s: Seq<char>) -> Seq<char>;

/// Relies on `str::to_lowercase`: the result depends on the characters alone.
#[verifier::external_body]
pub(crate) fn lowercase(s: &str) -> (r: String)
    ensures
        r@ == lower_of(s@),
{
    s.to_lowercase()
}

pub open spec fn contains_text(hay: Seq<char>, needle: Seq<char>) -> bool {
    exists|i: int| 0 <= i && i + needle.len() <= hay.len() && #[trigger] hay.subrange(i, i + needle.len()) == needle
}

/// Whether `needle` occurs in `hay`.
pub fn text_contains(hay: &str, needle: &str) -> (r: bool)
    ensures
        r == contains_text(hay@, needle@),
{
    let n = hay.unicode_len();
    let m = needle.unicode_len();
    if m > n {
        proof {
            assert forall|i: int| 0 <= i && i + m <= n implies #[trigger] hay@.subrange(i, i + needle@.len()) != needle@ by {}
        }
        return false;
    }
    let mut i: usize = 0;
    while i <= n - m
        invariant
            n == hay@.len(),
            m == needle@.len(),
            m <= n,
            forall|k: int| 0 <= k < i ==> #[trigger] hay@.subrange(k, k + needle@.len()) != needle@,
        decreases n - m + 1 - i,
    {
        let mut j: usize = 0;
        let mut same = true;
        while j < m
            invariant
                n == hay@.len(),
                m == needle@.len(),
                i + m <= n,
                j <= m,
                same == (forall|k: int| 0 <= k < j ==> hay@[i + k] == needle@[k]),
            decreases m - j,
        {
            if hay.get_char(i + j) != needle.get_char(j) {
                same = false;
            }
            j = j + 1;
        }
        if same {
            proof {
                assert(hay@.subrange(i as int, i + needle@.len()) =~= needle@);
            }
            return true;
        }
        proof {
            let k = choose|k: int| 0 <= k < m && hay@[i + k] != needle@[k];
            assert(hay@.subrange(i as int, i + needle@.len())[k] != needle@[k]);
        }
        i = i + 1;
    }
    false
}

} // verus!
