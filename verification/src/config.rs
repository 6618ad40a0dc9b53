//! Configuration of the completion client: credential, model identifier,
//! endpoint base address, and an enable switch.

use vstd::prelude::*;
use vstd::string::*;
use crate::json::{
    lemma_obj_fields, obj_get, parse_json, spec_obj_get, spec_parse_json, Json, JsonView,
};
use crate::strutil::{escape_json, spec_escape};

verus! {

/// Mathematical image of an [`AIConfig`]: every field as a plain value.
pub struct ConfigView {
    pub api_key: Seq<char>,
    pub model: Seq<char>,
    pub base_url: Seq<char>,
    pub enabled: bool,
}

/// Credentials and endpoint selection for the completion client.
pub struct AIConfig {
    pub api_key: String,
    pub model: String,
    pub base_url: String,
    pub enabled: bool,
}

impl View for AIConfig {
    type V = ConfigView;

    open spec fn view(&self) -> ConfigView {
        ConfigView {
            api_key: self.api_key@,
            model: self.model@,
            base_url: self.base_url@,
            enabled: self.enabled,
        }
    }
}

/// The model identifier used when none is configured.
pub open spec fn spec_default_model() -> Seq<char> {
    "gemini-2.0-flash"@
}

/// The endpoint base address used when none is configured.
pub open spec fn spec_default_base_url() -> Seq<char> {
    "https://generativelanguage.googleapis.com/v1beta"@
}

/// The configuration in force when neither the environment nor a persisted
/// file supplies one: empty credential, defaults everywhere else.
pub open spec fn spec_default_config() -> ConfigView {
    ConfigView {
        api_key: Seq::empty(),
        model: spec_default_model(),
        base_url: spec_default_base_url(),
        enabled: true,
    }
}

pub fn default_model() -> (s: String)
    ensures
        s@ == spec_default_model(),
{
    String::from_str("gemini-2.0-flash")
}

pub fn default_base_url() -> (s: String)
    ensures
        s@ == spec_default_base_url(),
{
    String::from_str("https://generativelanguage.googleapis.com/v1beta")
}

pub fn default_enabled() -> (b: bool)
    ensures
        b,
{
    true
}

impl Default for AIConfig {
    /// The unready default configuration: no credential, default model and
    /// endpoint, feature enabled.
    fn default() -> (c: Self)
        ensures
            c@ == spec_default_config(),
    {
        AIConfig {
            api_key: String::new(),
            model: default_model(),
            base_url: default_base_url(),
            enabled: true,
        }
    }
}

impl AIConfig {
    /// Readiness: the completion client may be used iff the feature is
    /// enabled and a credential is present.
    pub open spec fn spec_ready(&self) -> bool {
        self.enabled && self.api_key@.len() > 0
    }

    /// Check if AI is configured and enabled.
    pub fn is_ready(&self) -> (r: bool)
        ensures
            r == self.spec_ready(),
    {
        self.enabled && !self.api_key.as_str().is_empty()
    }
}

/// Law: a configuration with an empty credential or with the feature
/// disabled is never ready; by the contract of
/// `AIClient::completion_request`, a client holding such a configuration
/// answers every completion with `NotConfigured` and prepares no request
/// to send.
pub proof fn lemma_unready_refuses(c: AIConfig)
    requires
        c.api_key@.len() == 0 || !c.enabled,
    ensures
        !c.spec_ready(),
{
}

/// The persisted schema: an object whose `api_key` holds a string, whose
/// `model` and `base_url` hold strings when present, and whose `enabled`
/// holds a boolean when present, absent optional fields taking the
/// defaults; any other tree decodes to nothing. Fields not named here are
/// ignored.
pub open spec fn spec_decode_config(j: JsonView) -> Option<ConfigView> {
    match j {
        JsonView::Obj(fs) => match spec_obj_get(fs, "api_key"@) {
            Some(JsonView::Str(k)) => {
                let m = match spec_obj_get(fs, "model"@) {
                    None => Some(spec_default_model()),
                    Some(JsonView::Str(s)) => Some(s),
                    Some(_) => None,
                };
                let b = match spec_obj_get(fs, "base_url"@) {
                    None => Some(spec_default_base_url()),
                    Some(JsonView::Str(s)) => Some(s),
                    Some(_) => None,
                };
                let e = match spec_obj_get(fs, "enabled"@) {
                    None => Some(true),
                    Some(JsonView::Bool(x)) => Some(x),
                    Some(_) => None,
                };
                match (m, b, e) {
                    (Some(m), Some(b), Some(e)) => Some(
                        ConfigView { api_key: k, model: m, base_url: b, enabled: e },
                    ),
                    _ => None,
                }
            },
            _ => None,
        },
        _ => None,
    }
}

/// What loading resolves to: a credential from the environment wins and
/// takes defaults for the rest; else a persisted file that parses against
/// the schema is taken verbatim; else the default configuration. Loading
/// never fails: a missing credential merely yields an unready
/// configuration.
pub open spec fn spec_load(env_key: Option<Seq<char>>, file: Option<Seq<char>>) -> ConfigView {
    match env_key {
        Some(k) => ConfigView {
            api_key: k,
            model: spec_default_model(),
            base_url: spec_default_base_url(),
            enabled: true,
        },
        None => match file {
            Some(text) => match spec_parse_json(text) {
                Ok(j) => match spec_decode_config(j) {
                    Some(c) => c,
                    None => spec_default_config(),
                },
                Err(_) => spec_default_config(),
            },
            None => spec_default_config(),
        },
    }
}

/// Decode a JSON tree against the persisted schema.
fn decode_config(j: &Json) -> (r: Option<AIConfig>)
    ensures
        (match r {
            Some(c) => spec_decode_config(j@) == Some(c@),
            None => spec_decode_config(j@) is None,
        }),
{
    let fs = match j {
        Json::Obj(fs) => fs,
        _ => {
            return None;
        },
    };
    proof {
        lemma_obj_fields(*j, *fs);
    }
    let api_key = match obj_get(fs, "api_key") {
        Some(Json::Str(k)) => k.clone(),
        _ => {
            return None;
        },
    };
    let model = match obj_get(fs, "model") {
        None => default_model(),
        Some(Json::Str(s)) => s.clone(),
        Some(_) => {
            return None;
        },
    };
    let base_url = match obj_get(fs, "base_url") {
        None => default_base_url(),
        Some(Json::Str(s)) => s.clone(),
        Some(_) => {
            return None;
        },
    };
    let enabled = match obj_get(fs, "enabled") {
        None => true,
        Some(Json::Bool(x)) => *x,
        Some(_) => {
            return None;
        },
    };
    Some(AIConfig { api_key, model, base_url, enabled })
}

impl AIConfig {
    /// Load config from the environment's credential, when one is set,
    /// else from the persisted file's text, when one was read.
    pub fn load_from(env_key: Option<String>, file: Option<&str>) -> (c: AIConfig)
        ensures
            c@ == spec_load(env_key.deep_view(), file.deep_view()),
    {
        match env_key {
            Some(k) => AIConfig {
                api_key: k,
                model: default_model(),
                base_url: default_base_url(),
                enabled: true,
            },
            None => match file {
                Some(text) => match parse_json(text) {
                    Ok(j) => match decode_config(&j) {
                        Some(c) => c,
                        None => AIConfig::default(),
                    },
                    Err(_) => AIConfig::default(),
                },
                None => AIConfig::default(),
            },
        }
    }
}

/// The persisted form of a configuration: the schema's four fields,
/// pretty-printed with two-space indent.
pub open spec fn spec_config_json_pretty(c: ConfigView) -> Seq<char> {
    "{\n  \"api_key\": \""@ + spec_escape(c.api_key) + "\",\n  \"model\": \""@ + spec_escape(
        c.model,
    ) + "\",\n  \"base_url\": \""@ + spec_escape(c.base_url) + "\",\n  \"enabled\": "@ + (if c.enabled {
        "true"@
    } else {
        "false"@
    }) + "\n}"@
}

impl AIConfig {
    /// Write the configuration as the persisted file's text.
    pub fn to_json_pretty(&self) -> (s: String)
        ensures
            s@ == spec_config_json_pretty(self@),
    {
        let mut s = String::from_str("{\n  \"api_key\": \"");
        s.append(escape_json(self.api_key.as_str()).as_str());
        s.append("\",\n  \"model\": \"");
        s.append(escape_json(self.model.as_str()).as_str());
        s.append("\",\n  \"base_url\": \"");
        s.append(escape_json(self.base_url.as_str()).as_str());
        s.append("\",\n  \"enabled\": ");
        if self.enabled {
            s.append("true");
        } else {
            s.append("false");
        }
        s.append("\n}");
        s
    }
}

} // verus!
