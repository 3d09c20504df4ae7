use agent_supervisor::dispatch::{choose_dispatch_rule, find_duplicate_rule, find_existing_rule, rule_signature, DispatchRule, ExistingRule};
use agent_supervisor::lists::normalize_string_list;

fn s(x: &str) -> String {
    x.to_string()
}

#[test]
fn rule_kind_from_request() {
    assert_eq!(
        choose_dispatch_rule(None, None, None, None, None),
        DispatchRule::Direct { room_name: s("default-sip-room"), pin: s("") }
    );
    assert_eq!(
        choose_dispatch_rule(None, None, Some(s("call-")), None, Some(s("1234"))),
        DispatchRule::Individual { room_prefix: s("call-"), pin: s("1234") }
    );
    assert_eq!(
        choose_dispatch_rule(None, Some(true), None, None, None),
        DispatchRule::Callee { room_prefix: s("callee-"), pin: s(""), randomize: true }
    );
    assert_eq!(
        choose_dispatch_rule(Some(s("CALLEE")), Some(false), None, None, None),
        DispatchRule::Callee { room_prefix: s("callee-"), pin: s(""), randomize: false }
    );
    assert_eq!(
        choose_dispatch_rule(Some(s("individual")), None, None, Some(s("lobby")), None),
        DispatchRule::Individual { room_prefix: s("inbound-"), pin: s("") }
    );
    assert_eq!(
        choose_dispatch_rule(Some(s("direct")), None, None, Some(s("lobby")), None),
        DispatchRule::Direct { room_name: s("lobby"), pin: s("") }
    );
}

#[test]
fn signatures_ignore_case_and_spaces() {
    let a = DispatchRule::Direct { room_name: s(" Lobby "), pin: s("12") };
    assert_eq!(rule_signature(&a), "direct|lobby|12");
    let b = DispatchRule::Callee { room_prefix: s("Callee-"), pin: s(""), randomize: true };
    assert_eq!(rule_signature(&b), "callee|callee-||true");
    let c = DispatchRule::Individual { room_prefix: s("in-"), pin: s(" X ") };
    assert_eq!(rule_signature(&c), "individual|in-|x");
}

#[test]
fn existing_rule_is_found_when_identical() {
    let requested = DispatchRule::Direct { room_name: s("lobby"), pin: s("") };
    let trunks = normalize_string_list(vec![s("ST_b"), s("st_a")]);
    let numbers = normalize_string_list(vec![]);
    let existing = vec![
        ExistingRule { rule: None, trunk_ids: vec![], inbound_numbers: vec![] },
        ExistingRule { rule: Some(DispatchRule::Direct { room_name: s("LOBBY"), pin: s("") }), trunk_ids: vec![s("st_a")], inbound_numbers: vec![] },
        ExistingRule {
            rule: Some(DispatchRule::Direct { room_name: s("Lobby "), pin: s("") }),
            trunk_ids: vec![s("st_b "), s("ST_A"), s("st_a")],
            inbound_numbers: vec![s(" ")],
        },
    ];
    assert_eq!(find_existing_rule(&existing, &requested, &trunks, &numbers), Some(2));
    let other = DispatchRule::Direct { room_name: s("hall"), pin: s("") };
    assert_eq!(find_existing_rule(&existing, &other, &trunks, &numbers), None);
}

#[test]
fn duplicate_rule_lookup_normalizes_request_lists() {
    let existing = vec![ExistingRule {
        rule: Some(DispatchRule::Individual { room_prefix: s("in-"), pin: s("") }),
        trunk_ids: vec![s("st_1")],
        inbound_numbers: vec![s("+15550100")],
    }];
    let requested = DispatchRule::Individual { room_prefix: s(" IN- "), pin: s("") };
    assert_eq!(find_duplicate_rule(&existing, &requested, vec![s(" ST_1 "), s("st_1")], vec![s("+15550100")]), Some(0));
    assert_eq!(find_duplicate_rule(&existing, &requested, vec![s("st_2")], vec![s("+15550100")]), None);
}
