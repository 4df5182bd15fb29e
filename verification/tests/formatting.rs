use serde_json::Value;
use siun::formatting::{
    abbreviate, block_text, can_abbreviate, classify, render, render_fancy, render_i3status,
    render_plain, status_block, try_render_i3status, OutputFormat, RenderError, StateCode,
};
use siun::state::{PyType, State};

fn tagged(value: &str) -> PyType {
    PyType { py_type: String::from("str"), value: String::from(value) }
}

fn criteria(keys: &[&str]) -> Value {
    let mut map = serde_json::Map::new();
    for key in keys {
        map.insert(String::from(*key), Value::Array(Vec::new()));
    }
    Value::Object(map)
}

fn snapshot(code: &str, keys: &[&str]) -> State {
    State {
        last_update: tagged("2024-01-01T00:00:00"),
        criteria_settings: Value::Null,
        thresholds: Value::Null,
        available_updates: vec![String::from("linux"), String::from("vim")],
        matched_criteria: criteria(keys),
        state: tagged(code),
    }
}

fn two() -> [&'static str; 2] {
    ["disk-space", "kernel"]
}

fn block(code: &str) -> String {
    try_render_i3status(&snapshot(code, &two())).unwrap()
}

#[test]
fn i3status_ok() {
    assert_eq!(block("OK"), "{\"icon\":\"narchive\",\"state\":\"Idle\",\"text\":\"\"}");
}

#[test]
fn i3status_available_updates() {
    assert_eq!(
        block("AVAILABLE_UPDATES"),
        "{\"icon\":\"narchive\",\"state\":\"Idle\",\"text\":\"\"}"
    );
}

#[test]
fn i3status_warning_updates() {
    assert_eq!(
        block("WARNING_UPDATES"),
        "{\"icon\":\"narchive\",\"state\":\"Warning\",\"text\":\"di,ke\"}"
    );
}

#[test]
fn i3status_critical_updates() {
    assert_eq!(
        block("CRITICAL_UPDATES"),
        "{\"icon\":\"narchive\",\"state\":\"Critical\",\"text\":\"di,ke\"}"
    );
}

#[test]
fn i3status_unknown() {
    assert_eq!(block("UNKNOWN"), "{\"icon\":\"narchive\",\"state\":\"Idle\",\"text\":\"…\"}");
}

#[test]
fn i3status_unrecognized_code_is_null() {
    assert_eq!(block("BOGUS"), "{\"icon\":\"narchive\",\"state\":null,\"text\":null}");
    let parsed: Value = serde_json::from_str(&block("BOGUS")).unwrap();
    assert_eq!(parsed["icon"], Value::String(String::from("narchive")));
    assert_eq!(parsed["state"], Value::Null);
    assert_eq!(parsed["text"], Value::Null);
    assert_eq!(parsed.as_object().unwrap().len(), 3);
}

#[test]
fn plain_ok() {
    assert_eq!(render_plain(&snapshot("OK", &two())), "Ok");
}

#[test]
fn plain_available_updates() {
    assert_eq!(render_plain(&snapshot("AVAILABLE_UPDATES", &two())), "Updates available");
}

#[test]
fn plain_warning_updates() {
    assert_eq!(render_plain(&snapshot("WARNING_UPDATES", &two())), "Updates recommended");
}

#[test]
fn plain_critical_updates() {
    assert_eq!(render_plain(&snapshot("CRITICAL_UPDATES", &two())), "Updates required");
}

#[test]
fn plain_unknown() {
    assert_eq!(render_plain(&snapshot("UNKNOWN", &two())), "Unknown");
}

#[test]
fn plain_unrecognized_code() {
    assert_eq!(render_plain(&snapshot("BOGUS", &two())), "Unknown");
    assert_eq!(render_plain(&snapshot("", &two())), "Unknown");
    assert_eq!(render_plain(&snapshot("ok", &two())), "Unknown");
}

#[test]
fn fancy_ok() {
    assert_eq!(render_fancy(&snapshot("OK", &two())), "\x1b[32mOk\x1b[0m");
}

#[test]
fn fancy_available_updates() {
    assert_eq!(
        render_fancy(&snapshot("AVAILABLE_UPDATES", &two())),
        "\x1b[34mUpdates available\x1b[0m"
    );
}

#[test]
fn fancy_warning_updates() {
    assert_eq!(
        render_fancy(&snapshot("WARNING_UPDATES", &two())),
        "\x1b[33mUpdates recommended\x1b[0m"
    );
}

#[test]
fn fancy_critical_updates() {
    assert_eq!(
        render_fancy(&snapshot("CRITICAL_UPDATES", &two())),
        "\x1b[31mUpdates required\x1b[0m"
    );
}

#[test]
fn fancy_unknown() {
    assert_eq!(render_fancy(&snapshot("UNKNOWN", &two())), "\x1b[35mUnknown\x1b[0m");
}

#[test]
fn fancy_unrecognized_code() {
    assert_eq!(render_fancy(&snapshot("BOGUS", &two())), "\x1b[35mUnknown\x1b[0m");
}

#[test]
fn classify_reads_the_vocabulary() {
    assert_eq!(classify("OK"), Some(StateCode::UpToDate));
    assert_eq!(classify("AVAILABLE_UPDATES"), Some(StateCode::AvailableUpdates));
    assert_eq!(classify("WARNING_UPDATES"), Some(StateCode::WarningUpdates));
    assert_eq!(classify("CRITICAL_UPDATES"), Some(StateCode::CriticalUpdates));
    assert_eq!(classify("UNKNOWN"), Some(StateCode::Unknown));
    assert_eq!(classify("BOGUS"), None);
    assert_eq!(classify("OK "), None);
}

#[test]
fn abbreviation_of_two_criteria() {
    let keys = vec![String::from("disk-space"), String::from("kernel")];
    assert!(can_abbreviate(&keys));
    assert_eq!(abbreviate(&keys), "di,ke");
}

#[test]
fn abbreviation_of_no_criteria_is_empty() {
    let keys: Vec<String> = Vec::new();
    assert!(can_abbreviate(&keys));
    assert_eq!(abbreviate(&keys), "");
    let state = snapshot("WARNING_UPDATES", &[]);
    assert_eq!(
        try_render_i3status(&state).unwrap(),
        "{\"icon\":\"narchive\",\"state\":\"Warning\",\"text\":\"\"}"
    );
}

#[test]
fn abbreviation_of_one_criterion_has_no_comma() {
    assert_eq!(abbreviate(&vec![String::from("kernel")]), "ke");
    assert_eq!(abbreviate(&vec![String::from("ab")]), "ab");
}

#[test]
fn abbreviation_keeps_the_stored_order() {
    let state = snapshot("CRITICAL_UPDATES", &["kernel", "disk-space", "age"]);
    assert_eq!(
        try_render_i3status(&state).unwrap(),
        "{\"icon\":\"narchive\",\"state\":\"Critical\",\"text\":\"ke,di,ag\"}"
    );
}

#[test]
fn abbreviation_counts_characters() {
    assert_eq!(abbreviate(&vec![String::from("äbc"), String::from("日本語")]), "äb,日本");
    assert!(!can_abbreviate(&vec![String::from("ä")]));
}

#[test]
fn short_criterion_is_refused() {
    for code in ["OK", "WARNING_UPDATES", "UNKNOWN", "BOGUS"] {
        let state = snapshot(code, &["kernel", "k"]);
        assert_eq!(try_render_i3status(&state), Err(RenderError::CriterionTooShort));
    }
    let state = snapshot("WARNING_UPDATES", &[""]);
    assert_eq!(try_render_i3status(&state), Err(RenderError::CriterionTooShort));
    assert!(!can_abbreviate(&vec![String::from("kernel"), String::from("k")]));
}

#[test]
fn short_criterion_does_not_touch_the_text_formats() {
    let state = snapshot("OK", &["k"]);
    assert_eq!(render(&state, OutputFormat::Plain), Ok(String::from("Ok")));
    assert_eq!(render(&state, OutputFormat::Fancy), Ok(String::from("\x1b[32mOk\x1b[0m")));
    assert_eq!(render(&state, OutputFormat::I3status), Err(RenderError::CriterionTooShort));
}

#[test]
fn criteria_that_are_no_object_are_refused() {
    let mut state = snapshot("OK", &two());
    state.matched_criteria = Value::Array(Vec::new());
    assert_eq!(try_render_i3status(&state), Err(RenderError::CriteriaNotAnObject));
    state.matched_criteria = Value::Null;
    assert_eq!(render(&state, OutputFormat::I3status), Err(RenderError::CriteriaNotAnObject));
    assert_eq!(render(&state, OutputFormat::Plain), Ok(String::from("Ok")));
}

#[test]
fn render_dispatches_on_the_format() {
    let state = snapshot("WARNING_UPDATES", &two());
    assert_eq!(render(&state, OutputFormat::Plain), Ok(String::from("Updates recommended")));
    assert_eq!(
        render(&state, OutputFormat::Fancy),
        Ok(String::from("\x1b[33mUpdates recommended\x1b[0m"))
    );
    assert_eq!(
        render(&state, OutputFormat::I3status),
        Ok(String::from("{\"icon\":\"narchive\",\"state\":\"Warning\",\"text\":\"di,ke\"}"))
    );
}

#[test]
fn default_format_is_plain() {
    assert!(OutputFormat::default() == OutputFormat::Plain);
    assert!(OutputFormat::or_default(None) == OutputFormat::Plain);
}

#[test]
fn chosen_format_is_kept() {
    assert!(OutputFormat::or_default(Some(OutputFormat::Fancy)) == OutputFormat::Fancy);
    assert!(OutputFormat::or_default(Some(OutputFormat::I3status)) == OutputFormat::I3status);
    assert!(OutputFormat::or_default(Some(OutputFormat::Plain)) == OutputFormat::Plain);
}

#[test]
fn abbreviation_has_two_characters_per_name_and_commas_between() {
    let keys = vec![String::from("alpha"), String::from("be"), String::from("gamma")];
    assert_eq!(abbreviate(&keys), "al,be,ga");
    assert_eq!(abbreviate(&keys).chars().count(), 3 * keys.len() - 1);
}

#[test]
fn render_i3status_of_a_well_formed_snapshot() {
    let state = snapshot("CRITICAL_UPDATES", &two());
    assert_eq!(
        render_i3status(&state),
        "{\"icon\":\"narchive\",\"state\":\"Critical\",\"text\":\"di,ke\"}"
    );
}

#[test]
fn block_text_for_given_names() {
    let keys = vec![String::from("uptime"), String::from("age")];
    assert_eq!(
        block_text("WARNING_UPDATES", &keys),
        "{\"icon\":\"narchive\",\"state\":\"Warning\",\"text\":\"up,ag\"}"
    );
    assert_eq!(
        block_text("OK", &keys),
        "{\"icon\":\"narchive\",\"state\":\"Idle\",\"text\":\"\"}"
    );
}

#[test]
fn block_text_escapes_what_json_reserves() {
    let keys = vec![String::from("\"quoted"), String::from("\\n")];
    assert_eq!(
        block_text("CRITICAL_UPDATES", &keys),
        "{\"icon\":\"narchive\",\"state\":\"Critical\",\"text\":\"\\\"q,\\\\n\"}"
    );
}

#[test]
fn status_block_has_three_members() {
    let keys = vec![String::from("disk-space"), String::from("kernel")];
    let members = status_block("WARNING_UPDATES", &keys);
    assert_eq!(members.len(), 3);
    assert_eq!(members[0].key, "icon");
    assert_eq!(members[0].value, Some(String::from("narchive")));
    assert_eq!(members[1].key, "state");
    assert_eq!(members[1].value, Some(String::from("Warning")));
    assert_eq!(members[2].key, "text");
    assert_eq!(members[2].value, Some(String::from("di,ke")));
    let bogus = status_block("BOGUS", &keys);
    assert_eq!(bogus[1].value, None);
    assert_eq!(bogus[2].value, None);
}

#[test]
fn criteria_of_other_kinds_are_no_objects() {
    for other in [Value::Bool(true), Value::String(String::from("kernel")), Value::Null] {
        let mut state = snapshot("WARNING_UPDATES", &two());
        state.matched_criteria = other;
        assert_eq!(try_render_i3status(&state), Err(RenderError::CriteriaNotAnObject));
    }
}
