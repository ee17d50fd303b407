use rust_languagetool::client::{
    convert_match, convert_response, LtCategory, LtClient, LtMatch, LtReplacement, LtResponse, LtRule,
};
use rust_languagetool::error::Error;
use rust_languagetool::state::{EngineState, SharedState};

fn make_lt_match(offset: usize, length: usize, replacement: &str) -> LtMatch {
    LtMatch {
        message: String::new(),
        short_message: String::new(),
        replacements: vec![LtReplacement { value: replacement.to_string() }],
        offset,
        length,
        rule: LtRule {
            id: "TEST".to_string(),
            issue_type: "grammar".to_string(),
            category: LtCategory { id: "TEST".to_string(), name: "Test".to_string() },
        },
    }
}

fn snippet(text: &str, offset: usize, length: usize) -> String {
    text.chars().skip(offset).take(length).collect()
}

#[test]
fn offset_ascii_passthrough() {
    let text = "She go to school";
    let gm = convert_match(make_lt_match(4, 2, "goes"), text);
    assert_eq!(snippet(text, gm.offset, gm.length), "go");
    assert_eq!(gm.offset, 4);
    assert_eq!(gm.length, 2);
}

#[test]
fn offset_multibyte_ano() {
    let text = "Ella tiene veinte año y estudia";
    let gm = convert_match(make_lt_match(18, 3, "años"), text);
    assert_eq!(snippet(text, gm.offset, gm.length), "año", "must select the full word including ñ");
    assert_eq!(gm.offset, 18);
    assert_eq!(gm.length, 3);
}

#[test]
fn offset_after_multibyte() {
    let text = "Los niños son malo";
    let gm = convert_match(make_lt_match(14, 4, "malos"), text);
    assert_eq!(snippet(text, gm.offset, gm.length), "malo");
}

#[test]
fn offset_clamped_oob() {
    let text = "abc";
    let gm = convert_match(make_lt_match(999, 5, "x"), text);
    assert_eq!(gm.offset, 3);
    assert_eq!(gm.length, 0);
}

#[test]
fn length_clamped_to_the_rest_of_the_text() {
    let gm = convert_match(make_lt_match(1, usize::MAX, "x"), "niños");
    assert_eq!(gm.offset, 1);
    assert_eq!(gm.length, 4);
}

#[test]
fn match_fields_are_handed_on() {
    let m = LtMatch {
        message: "Agreement".to_string(),
        short_message: "Agr".to_string(),
        replacements: vec![
            LtReplacement { value: "goes".to_string() },
            LtReplacement { value: "went".to_string() },
        ],
        offset: 0,
        length: 1,
        rule: LtRule {
            id: "HE_VERB_AGR".to_string(),
            issue_type: "grammar".to_string(),
            category: LtCategory { id: "GRAMMAR".to_string(), name: "Grammar".to_string() },
        },
    };
    let gm = convert_match(m, "She go");
    assert_eq!(gm.message, "Agreement");
    assert_eq!(gm.short_message, "Agr");
    assert_eq!(gm.replacements, vec!["goes".to_string(), "went".to_string()]);
    assert_eq!(gm.rule_id, "HE_VERB_AGR");
    assert_eq!(gm.category_id, "GRAMMAR");
    assert_eq!(gm.category_name, "Grammar");
    assert_eq!(gm.issue_type, "grammar");
    let copy = gm.clone();
    assert_eq!(copy.message, gm.message);
    assert_eq!(copy.replacements, gm.replacements);
}

#[test]
fn char_offsets_select_valid_slices() {
    let text = "niños camina mal";
    let matches = vec![make_lt_match(0, 5, "x"), make_lt_match(13, 9, "y"), make_lt_match(40, 1, "z")];
    let converted = convert_response(LtResponse { matches }, text);
    assert_eq!(converted.len(), 3);
    for m in &converted {
        assert!(m.offset + m.length <= text.chars().count());
    }
    assert_eq!(snippet(text, converted[0].offset, converted[0].length), "niños");
    assert_eq!(snippet(text, converted[1].offset, converted[1].length), "mal");
    assert_eq!(converted[2].replacements[0], "z");
}

fn ready() -> SharedState {
    let mut shared = SharedState::new();
    shared.set_port(8081);
    shared.set(EngineState::Ready);
    shared
}

fn pairs(params: &[(String, String)]) -> Vec<(&str, &str)> {
    params.iter().map(|(k, v)| (k.as_str(), v.as_str())).collect()
}

#[test]
fn check_request_without_options() {
    let request = LtClient::new(8081).check("I goes", "en-US", &[], &[], &ready()).unwrap();
    assert_eq!(request.url, "http://127.0.0.1:8081/v2/check");
    assert_eq!(pairs(&request.params), vec![("text", "I goes"), ("language", "en-US")]);
    assert_eq!(request.timeout_secs, 30);
}

#[test]
fn check_request_with_disabled_rules_and_categories() {
    let rules = vec!["MORFOLOGIK_RULE_ES".to_string(), "B".to_string(), "C".to_string()];
    let categories = vec!["STYLE".to_string()];
    let request = LtClient::new(65535).check("t", "es", &rules, &categories, &ready()).unwrap();
    assert_eq!(request.url, "http://127.0.0.1:65535/v2/check");
    assert_eq!(
        pairs(&request.params),
        vec![
            ("text", "t"),
            ("language", "es"),
            ("disabledRules", "MORFOLOGIK_RULE_ES,B,C"),
            ("disabledCategories", "STYLE"),
        ]
    );
    let only = LtClient::new(1).check("t", "es", &[], &categories, &ready()).unwrap();
    assert_eq!(only.params.len(), 3);
    assert_eq!(only.params[2].0, "disabledCategories");
}

#[test]
fn check_is_refused_in_every_other_state() {
    let states = vec![
        (EngineState::NotInstalled, "not_installed"),
        (EngineState::Downloading { downloaded: 5, total: None }, "downloading (5 bytes)"),
        (EngineState::Installing, "installing"),
        (EngineState::Starting, "starting"),
        (EngineState::Stopped, "stopped"),
        (EngineState::Error { message: "x".to_string() }, "error: x"),
    ];
    for (state, name) in states {
        let mut shared = ready();
        shared.set(state);
        match LtClient::new(8081).check("t", "es", &[], &[], &shared) {
            Err(Error::NotReady { state }) => assert_eq!(state, name),
            other => panic!("expected NotReady, got {:?}", other),
        }
    }
}
