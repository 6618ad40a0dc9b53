use vimgram::config::AIConfig;

#[test]
fn default_config_is_unready() {
    let c = AIConfig::default();
    assert_eq!(c.api_key, "");
    assert_eq!(c.model, "gemini-2.0-flash");
    assert_eq!(c.base_url, "https://generativelanguage.googleapis.com/v1beta");
    assert!(c.enabled);
    assert!(!c.is_ready());
}

#[test]
fn readiness_needs_key_and_enabled() {
    let mut c = AIConfig::default();
    c.api_key = String::from("k");
    assert!(c.is_ready());
    c.enabled = false;
    assert!(!c.is_ready());
    c.enabled = true;
    c.api_key = String::new();
    assert!(!c.is_ready());
}

#[test]
fn environment_wins_over_file() {
    let file = "{\"api_key\":\"from-file\",\"model\":\"file-model\",\"base_url\":\"http://file\",\"enabled\":false}";
    let c = AIConfig::load_from(Some(String::from("X")), Some(file));
    assert_eq!(c.api_key, "X");
    assert_eq!(c.model, "gemini-2.0-flash");
    assert_eq!(c.base_url, "https://generativelanguage.googleapis.com/v1beta");
    assert!(c.enabled);
}

#[test]
fn file_taken_verbatim_without_environment() {
    let file = "{\"api_key\":\"from-file\",\"model\":\"file-model\",\"base_url\":\"http://file\",\"enabled\":false}";
    let c = AIConfig::load_from(None, Some(file));
    assert_eq!(c.api_key, "from-file");
    assert_eq!(c.model, "file-model");
    assert_eq!(c.base_url, "http://file");
    assert!(!c.enabled);
}

#[test]
fn file_optional_fields_take_defaults() {
    let c = AIConfig::load_from(None, Some("{\"api_key\":\"k\"}"));
    assert_eq!(c.api_key, "k");
    assert_eq!(c.model, "gemini-2.0-flash");
    assert_eq!(c.base_url, "https://generativelanguage.googleapis.com/v1beta");
    assert!(c.enabled);
}

#[test]
fn file_extra_fields_are_ignored() {
    let c = AIConfig::load_from(None, Some("{\"api_key\":\"k\",\"note\":[1,2,{}]}"));
    assert_eq!(c.api_key, "k");
}

#[test]
fn file_without_api_key_yields_default() {
    let c = AIConfig::load_from(None, Some("{\"model\":\"m\"}"));
    assert_eq!(c.api_key, "");
    assert_eq!(c.model, "gemini-2.0-flash");
}

#[test]
fn file_with_wrong_types_yields_default() {
    let c = AIConfig::load_from(None, Some("{\"api_key\":\"k\",\"enabled\":\"yes\"}"));
    assert_eq!(c.api_key, "");
    let c = AIConfig::load_from(None, Some("{\"api_key\":7}"));
    assert_eq!(c.api_key, "");
}

#[test]
fn unparseable_file_yields_default() {
    let c = AIConfig::load_from(None, Some("not json"));
    assert_eq!(c.api_key, "");
    assert!(c.enabled);
}

#[test]
fn no_sources_yield_default() {
    let c = AIConfig::load_from(None, None);
    assert_eq!(c.api_key, "");
    assert!(!c.is_ready());
}

#[test]
fn pretty_form_matches_schema() {
    let mut c = AIConfig::default();
    c.api_key = String::from("secret");
    c.enabled = false;
    let text = c.to_json_pretty();
    assert_eq!(
        text,
        "{\n  \"api_key\": \"secret\",\n  \"model\": \"gemini-2.0-flash\",\n  \"base_url\": \"https://generativelanguage.googleapis.com/v1beta\",\n  \"enabled\": false\n}"
    );
}

#[test]
fn pretty_form_escapes_strings() {
    let mut c = AIConfig::default();
    c.api_key = String::from("a\"b\\c\nd");
    let text = c.to_json_pretty();
    assert!(text.contains("\"api_key\": \"a\\\"b\\\\c\\nd\""));
}

#[test]
fn pretty_form_round_trips() {
    let mut c = AIConfig::default();
    c.api_key = String::from("k\"ey");
    c.model = String::from("m");
    c.base_url = String::from("http://b");
    c.enabled = false;
    let text = c.to_json_pretty();
    let back = AIConfig::load_from(None, Some(text.as_str()));
    assert_eq!(back.api_key, c.api_key);
    assert_eq!(back.model, c.model);
    assert_eq!(back.base_url, c.base_url);
    assert_eq!(back.enabled, c.enabled);
}
