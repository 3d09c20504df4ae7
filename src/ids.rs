//! Identifiers of instances and records.
use vstd::prelude::*;
use vstd::string::StringExecFns;

verus! {

/// Relies on `uuid::Uuid::new_v4`, read out with `as_u128`: random bits of a
/// version 4 UUID. Nothing is promised of their value.
#[verifier::external_body]
fn new_v4_bits() -> (r: u128) {
    uuid::Uuid::new_v4().as_u128()
}

pub open spec fn hex_char(d: nat) -> char {
    if d < 10 {
        ((d + 48) as u8) as char
    } else {
        ((d + 87) as u8) as char
    }
}

/// The last `k` hexadecimal digits of `n`, most significant first, in lower
/// case.
pub open spec fn hex_digits(n: nat, k: nat) -> Seq<char>
    decreases k,
{
    if k == 0 {
        Seq::empty()
    } else {
        hex_digits(n / 16, (k - 1) as nat).push(hex_char(n % 16))
    }
}

fn hex_char_of(d: u8) -> (c: char)
    requires
        d < 16,
    ensures
        c == hex_char(d as nat),
{
    if d < 10 {
        (d + 48) as char
    } else {
        (d + 87) as char
    }
}

fn push_hex(out: &mut String, n: u128, k: u32)
    ensures
        final(out)@ == old(out)@ + hex_digits(n as nat, k as nat),
    decreases k,
{
    if k == 0 {
        proof {
            assert(old(out)@ + hex_digits(n as nat, 0) =~= old(out)@);
        }
        return;
    }
    push_hex(out, n / 16, k - 1);
    out.push(hex_char_of((n % 16) as u8));
    proof {
        assert(final(out)@ =~= old(out)@ + hex_digits(n as nat, k as nat));
    }
}

/// The 32 digits of a UUID without hyphens.
pub open spec fn simple_form(n: nat) -> Seq<char> {
    hex_digits(n, 32)
}

/// The digits of a UUID in groups of 8, 4, 4, 4 and 12, joined by hyphens.
pub open spec fn hyphenated_form(n: nat) -> Seq<char> {
    hex_digits(n / 0x1_0000_0000_0000_0000_0000_0000, 8) + seq!['-'] + hex_digits(n / 0x1_0000_0000_0000_0000_0000, 4)
        + seq!['-'] + hex_digits(n / 0x1_0000_0000_0000_0000, 4) + seq!['-'] + hex_digits(n / 0x1_0000_0000_0000, 4)
        + seq!['-'] + hex_digits(n, 12)
}

/// A UUID's simple form.
pub fn uuid_simple(bits: u128) -> (r: String)
    ensures
        r@ == simple_form(bits as nat),
{
    let mut r = String::new();
    push_hex(&mut r, bits, 32);
    proof {
        assert(r@ =~= simple_form(bits as nat));
    }
    r
}

/// A UUID's hyphenated form.
pub fn uuid_hyphenated(bits: u128) -> (r: String)
    ensures
        r@ == hyphenated_form(bits as nat),
{
    let mut r = String::new();
    push_hex(&mut r, bits / 0x1_0000_0000_0000_0000_0000_0000, 8);
    r.push('-');
    push_hex(&mut r, bits / 0x1_0000_0000_0000_0000_0000, 4);
    r.push('-');
    push_hex(&mut r, bits / 0x1_0000_0000_0000_0000, 4);
    r.push('-');
    push_hex(&mut r, bits / 0x1_0000_0000_0000, 4);
    r.push('-');
    push_hex(&mut r, bits, 12);
    proof {
        assert(r@ =~= hyphenated_form(bits as nat));
    }
    r
}

/// An instance identifier: `inst_` and a UUID's simple form.
pub open spec fn is_instance_id(s: Seq<char>) -> bool {
    exists|n: nat| n < 0x1_0000_0000_0000_0000_0000_0000_0000_0000 && s == "inst_"@ + simple_form(n)
}

/// A fresh instance identifier.
pub fn new_instance_id() -> (r: String)
    ensures
        is_instance_id(r@),
{
    let bits = new_v4_bits();
    let r = String::from_str("inst_").concat(uuid_simple(bits).as_str());
    proof {
        assert(r@ == "inst_"@ + simple_form(bits as nat));
    }
    r
}

/// A fresh record identifier: a UUID's hyphenated form.
pub fn new_record_id() -> (r: String)
    ensures
        exists|n: nat| n < 0x1_0000_0000_0000_0000_0000_0000_0000_0000 && r@ == hyphenated_form(n),
{
    let bits = new_v4_bits();
    uuid_hyphenated(bits)
}

} // verus!
