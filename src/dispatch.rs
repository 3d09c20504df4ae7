//! Dispatch rules of inbound telephony calls: which rule a request asks for,
//! and when an existing rule already is that rule.
use vstd::prelude::*;
use vstd::string::StringExecFns;
use crate::lists::normalize_string_list;
use crate::text::strings_of;
use crate::text::{lower_ascii, to_ascii_lower, trim, trimmed};

verus! {

/// Where a call is placed.
#[derive(Debug, Clone, PartialEq, Eq)]
pub enum DispatchRule {
    /// Every call into one room.
    Direct { room_name: String, pin: String },
    /// Each caller into a room of their own, named from a prefix.
    Individual { room_prefix: String, pin: String },
    /// Calls by callee number into rooms named from a prefix.
    Callee { room_prefix: String, pin: String, randomize: bool },
}

pub open spec fn or_else_text(o: Option<String>, d: Seq<char>) -> Seq<char> {
    match o {
        Some(s) => s@,
        None => d,
    }
}

/// The kind of rule asked for: the one named, else `callee` where the room
/// is randomized, `individual` where a prefix is given, `direct` otherwise;
/// in ASCII lower case.
pub open spec fn rule_kind_spec(rule_type: Option<String>, randomize: Option<bool>, room_prefix: Option<String>) -> Seq<char> {
    match rule_type {
        Some(t) => lower_ascii(t@),
        None => if randomize == Some(true) {
            "callee"@
        } else if room_prefix is Some {
            "individual"@
        } else {
            "direct"@
        },
    }
}

/// The rule a request asks for, with the defaults of missing fields.
pub open spec fn requested_rule_ok(
    r: DispatchRule,
    rule_type: Option<String>,
    randomize: Option<bool>,
    room_prefix: Option<String>,
    room_name: Option<String>,
    pin: Option<String>,
) -> bool {
    let kind = rule_kind_spec(rule_type, randomize, room_prefix);
    if kind == "callee"@ {
        r matches DispatchRule::Callee { room_prefix: p, pin: q, randomize: z } && p@ == or_else_text(room_prefix, "callee-"@)
            && q@ == or_else_text(pin, Seq::empty()) && z == (match randomize {
            Some(b) => b,
            None => true,
        })
    } else if kind == "individual"@ || room_prefix is Some {
        r matches DispatchRule::Individual { room_prefix: p, pin: q } && p@ == or_else_text(room_prefix, "inbound-"@)
            && q@ == or_else_text(pin, Seq::empty())
    } else {
        r matches DispatchRule::Direct { room_name: n, pin: q } && n@ == or_else_text(room_name, "default-sip-room"@)
            && q@ == or_else_text(pin, Seq::empty())
    }
}

fn text_or(o: Option<String>, d: &str) -> (r: String)
    ensures
        r@ == or_else_text(o, d@),
{
    match o {
        Some(s) => s,
        None => String::from_str(d),
    }
}

/// The rule a creation request asks for.
pub fn choose_dispatch_rule(
    rule_type: Option<String>,
    randomize: Option<bool>,
    room_prefix: Option<String>,
    room_name: Option<String>,
    pin: Option<String>,
) -> (r: DispatchRule)
    ensures
        requested_rule_ok(r, rule_type, randomize, room_prefix, room_name, pin),
{
    let kind = match &rule_type {
        Some(t) => to_ascii_lower(t.as_str()),
        None => if match randomize {
            Some(b) => b,
            None => false,
        } {
            String::from_str("callee")
        } else if room_prefix.is_some() {
            String::from_str("individual")
        } else {
            String::from_str("direct")
        },
    };
    let k = kind.as_str();
    let has_prefix = room_prefix.is_some();
    let pin = match pin {
        Some(p) => p,
        None => String::new(),
    };
    if crate::text::same_text(k, "callee") {
        DispatchRule::Callee {
            room_prefix: text_or(room_prefix, "callee-"),
            pin: pin,
            randomize: match randomize {
                Some(b) => b,
                None => true,
            },
        }
    } else if crate::text::same_text(k, "individual") || has_prefix {
        DispatchRule::Individual { room_prefix: text_or(room_prefix, "inbound-"), pin: pin }
    } else {
        DispatchRule::Direct { room_name: text_or(room_name, "default-sip-room"), pin: pin }
    }
}

pub open spec fn folded(s: Seq<char>) -> Seq<char> {
    lower_ascii(trimmed(s))
}

/// What makes two rules the same: their kind and their fields, trimmed and
/// in ASCII lower case, joined by `|`.
pub open spec fn signature_spec(r: DispatchRule) -> Seq<char> {
    match r {
        DispatchRule::Direct { room_name, pin } => "direct|"@ + folded(room_name@) + "|"@ + folded(pin@),
        DispatchRule::Individual { room_prefix, pin } => "individual|"@ + folded(room_prefix@) + "|"@ + folded(pin@),
        DispatchRule::Callee { room_prefix, pin, randomize } => "callee|"@ + folded(room_prefix@) + "|"@ + folded(pin@) + "|"@
            + (if randomize { "true"@ } else { "false"@ }),
    }
}

fn fold_text(s: &String) -> (r: String)
    ensures
        r@ == folded(s@),
{
    let t = trim(s.as_str());
    to_ascii_lower(t.as_str())
}

/// The signature of a rule.
pub fn rule_signature(rule: &DispatchRule) -> (r: String)
    ensures
        r@ == signature_spec(*rule),
{
    match rule {
        DispatchRule::Direct { room_name, pin } => {
            String::from_str("direct|").concat(fold_text(room_name).as_str()).concat("|").concat(fold_text(pin).as_str())
        },
        DispatchRule::Individual { room_prefix, pin } => {
            String::from_str("individual|").concat(fold_text(room_prefix).as_str()).concat("|").concat(
                fold_text(pin).as_str(),
            )
        },
        DispatchRule::Callee { room_prefix, pin, randomize } => {
            let z = if *randomize {
                "true"
            } else {
                "false"
            };
            String::from_str("callee|").concat(fold_text(room_prefix).as_str()).concat("|").concat(
                fold_text(pin).as_str(),
            ).concat("|").concat(z)
        },
    }
}

/// A rule that already exists, with its trunks and inbound numbers.
#[derive(Debug, Clone)]
pub struct ExistingRule {
    pub rule: Option<DispatchRule>,
    pub trunk_ids: Vec<String>,
    pub inbound_numbers: Vec<String>,
}

fn copy_strings(v: &Vec<String>) -> (r: Vec<String>)
    ensures
        strings_of(r@) == strings_of(v@),
{
    let mut r: Vec<String> = Vec::new();
    let mut i: usize = 0;
    while i < v.len()
        invariant
            i <= v@.len(),
            r@.len() == i,
            strings_of(r@) == strings_of(v@).subrange(0, i as int),
        decreases v@.len() - i,
    {
        let ghost before = r@;
        let c = v[i].clone();
        r.push(c);
        proof {
            assert(r@ == before.push(c));
            assert(c@ == v@[i as int]@);
            assert forall|k: int| 0 <= k < i + 1 implies #[trigger] strings_of(r@)[k] == strings_of(v@).subrange(0, i + 1)[k] by {
                if k < i {
                    assert(strings_of(r@)[k] == r@[k]@);
                    assert(r@[k] == before[k]);
                    assert(strings_of(before)[k] == before[k]@);
                }
            }
            assert(strings_of(r@) =~= strings_of(v@).subrange(0, i + 1));
        }
        i = i + 1;
    }
    proof {
        assert(strings_of(v@).subrange(0, v@.len() as int) =~= strings_of(v@));
    }
    r
}

fn same_strings(a: &Vec<String>, b: &Vec<String>) -> (r: bool)
    ensures
        r == (strings_of(a@) == strings_of(b@)),
{
    if a.len() != b.len() {
        proof {
            assert(strings_of(a@).len() != strings_of(b@).len());
        }
        return false;
    }
    let mut i: usize = 0;
    while i < a.len()
        invariant
            a@.len() == b@.len(),
            i <= a@.len(),
            forall|k: int| 0 <= k < i ==> a@[k]@ == b@[k]@,
        decreases a@.len() - i,
    {
        if a[i] != b[i] {
            proof {
                assert(strings_of(a@)[i as int] != strings_of(b@)[i as int]);
            }
            return false;
        }
        i = i + 1;
    }
    proof {
        assert(strings_of(a@) =~= strings_of(b@));
    }
    true
}

/// Whether an existing rule is the requested one: the same signature, and
/// the same trunks and inbound numbers once normalized (the normalized lists
/// of the request are given).
pub open spec fn rule_matches(e: ExistingRule, signature: Seq<char>, trunks: Seq<Seq<char>>, numbers: Seq<Seq<char>>) -> bool {
    &&& e.rule is Some
    &&& signature_spec(e.rule->Some_0) == signature
    &&& crate::lists::strictly_sorted(trunks) && crate::lists::strictly_sorted(numbers)
    &&& (forall|x: Seq<char>| trunks.contains(x) <==> crate::lists::is_kept(strings_of(e.trunk_ids@), x))
    &&& (forall|x: Seq<char>| numbers.contains(x) <==> crate::lists::is_kept(strings_of(e.inbound_numbers@), x))
}

/// The first existing rule that is the requested one, if any. `trunks` and
/// `numbers` are the request's lists after `normalize_string_list`.
pub fn find_existing_rule(
    existing: &Vec<ExistingRule>,
    requested: &DispatchRule,
    trunks: &Vec<String>,
    numbers: &Vec<String>,
) -> (r: Option<usize>)
    requires
        crate::lists::strictly_sorted(strings_of(trunks@)),
        crate::lists::strictly_sorted(strings_of(numbers@)),
    ensures
        match r {
            Some(k) => k < existing@.len() && rule_matches(existing@[k as int], signature_spec(*requested), strings_of(trunks@), strings_of(numbers@))
                && forall|j: int| 0 <= j < k ==> !rule_matches(existing@[j], signature_spec(*requested), strings_of(trunks@), strings_of(numbers@)),
            None => forall|j: int| 0 <= j < existing@.len() ==> !rule_matches(existing@[j], signature_spec(*requested), strings_of(trunks@), strings_of(numbers@)),
        },
{
    let sig = rule_signature(requested);
    let mut i: usize = 0;
    while i < existing.len()
        invariant
            i <= existing@.len(),
            sig@ == signature_spec(*requested),
            crate::lists::strictly_sorted(strings_of(trunks@)),
            crate::lists::strictly_sorted(strings_of(numbers@)),
            forall|j: int| 0 <= j < i ==> !rule_matches(existing@[j], signature_spec(*requested), strings_of(trunks@), strings_of(numbers@)),
        decreases existing@.len() - i,
    {
        let e = &existing[i];
        match &e.rule {
            Some(rule) => {
                let s = rule_signature(rule);
                if s == sig {
                    let et = normalize_string_list(copy_strings(&e.trunk_ids));
                    let en = normalize_string_list(copy_strings(&e.inbound_numbers));
                    let same_t = same_strings(&et, trunks);
                    let same_n = same_strings(&en, numbers);
                    proof {
                        if !same_t {
                            if rule_matches(*e, sig@, strings_of(trunks@), strings_of(numbers@)) {
                                crate::lists::lemma_sorted_sets_equal(strings_of(et@), strings_of(trunks@));
                            }
                        }
                        if !same_n {
                            if rule_matches(*e, sig@, strings_of(trunks@), strings_of(numbers@)) {
                                crate::lists::lemma_sorted_sets_equal(strings_of(en@), strings_of(numbers@));
                            }
                        }
                    }
                    if same_t && same_n {
                        return Some(i);
                    }
                }
            },
            None => {},
        }
        i = i + 1;
    }
    None
}

/// The first existing rule that is the one a request asks for: the same
/// signature, the same trunks and the same inbound numbers, each list
/// normalized first.
pub fn find_duplicate_rule(
    existing: &Vec<ExistingRule>,
    requested: &DispatchRule,
    trunk_ids: Vec<String>,
    inbound_numbers: Vec<String>,
) -> (r: Option<usize>)
    ensures
        exists|t: Seq<Seq<char>>, n: Seq<Seq<char>>|
            crate::lists::strictly_sorted(t) && crate::lists::strictly_sorted(n)
            && (forall|x: Seq<char>| t.contains(x) <==> crate::lists::is_kept(strings_of(trunk_ids@), x))
            && (forall|x: Seq<char>| n.contains(x) <==> crate::lists::is_kept(strings_of(inbound_numbers@), x))
            && match r {
                Some(k) => k < existing@.len() && rule_matches(existing@[k as int], signature_spec(*requested), t, n)
                    && forall|j: int| 0 <= j < k ==> !rule_matches(existing@[j], signature_spec(*requested), t, n),
                None => forall|j: int| 0 <= j < existing@.len() ==> !rule_matches(existing@[j], signature_spec(*requested), t, n),
            },
{
    let ghost tv = strings_of(trunk_ids@);
    let ghost nv = strings_of(inbound_numbers@);
    let trunks = normalize_string_list(trunk_ids);
    let numbers = normalize_string_list(inbound_numbers);
    let r = find_existing_rule(existing, requested, &trunks, &numbers);
    proof {
        assert(forall|x: Seq<char>| strings_of(trunks@).contains(x) <==> crate::lists::is_kept(tv, x));
    }
    r
}

} // verus!
