//! The completion transport: building the single request a completion call
//! sends, and interpreting the status and body that come back as a typed
//! outcome. The network exchange itself is the caller's; everything on
//! either side of it is verified here.

use vstd::prelude::*;
use vstd::string::*;
use crate::config::{AIConfig, ConfigView};
use crate::error::{res_view, AIError, ErrView};
use crate::json::{
    elems_view, fields_view, lemma_arr_elems, lemma_obj_fields, obj_get, parse_json,
    spec_obj_get, spec_parse_json, Json, JsonView,
};
use crate::strutil::{dec_u64, escape_json, spec_dec, spec_escape};

verus! {

/// The image of a well-shaped response body: the logical error message, if
/// the endpoint reported one, and the first candidate's first text part, if
/// there is one.
pub struct GemView {
    pub error: Option<Seq<char>>,
    pub text: Option<Seq<char>>,
}

/// One part of a response candidate: an object whose `text` field holds a
/// string.
pub open spec fn spec_part_text(p: JsonView) -> Option<Seq<char>> {
    match p {
        JsonView::Obj(fs) => match spec_obj_get(fs, "text"@) {
            Some(JsonView::Str(t)) => Some(t),
            _ => None,
        },
        _ => None,
    }
}

/// Every part from position `i` on is well shaped.
pub open spec fn spec_parts_ok_from(a: Seq<JsonView>, i: int) -> bool
    decreases a.len() - i,
{
    if i < 0 || i >= a.len() {
        true
    } else {
        spec_part_text(a[i]) is Some && spec_parts_ok_from(a, i + 1)
    }
}

/// A candidate's content: an object whose `role`, if present, is a string
/// or null, and whose `parts` is an array of well-shaped parts.
pub open spec fn spec_content_ok(c: JsonView) -> bool {
    match c {
        JsonView::Obj(fs) => (match spec_obj_get(fs, "role"@) {
            None => true,
            Some(JsonView::Null) => true,
            Some(JsonView::Str(_)) => true,
            Some(_) => false,
        }) && (match spec_obj_get(fs, "parts"@) {
            Some(JsonView::Arr(ps)) => spec_parts_ok_from(ps, 0),
            _ => false,
        }),
        _ => false,
    }
}

/// The text of the first part of a content, if any part exists.
pub open spec fn spec_content_first_text(c: JsonView) -> Option<Seq<char>> {
    match c {
        JsonView::Obj(fs) => match spec_obj_get(fs, "parts"@) {
            Some(JsonView::Arr(ps)) => if ps.len() > 0 {
                spec_part_text(ps[0])
            } else {
                None
            },
            _ => None,
        },
        _ => None,
    }
}

/// A candidate: an object with a well-shaped `content`.
pub open spec fn spec_candidate_ok(c: JsonView) -> bool {
    match c {
        JsonView::Obj(fs) => match spec_obj_get(fs, "content"@) {
            Some(ct) => spec_content_ok(ct),
            None => false,
        },
        _ => false,
    }
}

/// The first text of a candidate's content.
pub open spec fn spec_candidate_text(c: JsonView) -> Option<Seq<char>> {
    match c {
        JsonView::Obj(fs) => match spec_obj_get(fs, "content"@) {
            Some(ct) => spec_content_first_text(ct),
            None => None,
        },
        _ => None,
    }
}

/// Every candidate from position `i` on is well shaped.
pub open spec fn spec_cands_ok_from(a: Seq<JsonView>, i: int) -> bool
    decreases a.len() - i,
{
    if i < 0 || i >= a.len() {
        true
    } else {
        spec_candidate_ok(a[i]) && spec_cands_ok_from(a, i + 1)
    }
}

/// The `error` field: absent or null for no logical error, else an object
/// whose `message` holds a string.
pub open spec fn spec_error_field_ok(e: Option<JsonView>) -> bool {
    match e {
        None => true,
        Some(JsonView::Null) => true,
        Some(JsonView::Obj(fs)) => spec_obj_get(fs, "message"@) matches Some(JsonView::Str(_)),
        Some(_) => false,
    }
}

/// The logical error message, when one is present.
pub open spec fn spec_error_field_msg(e: Option<JsonView>) -> Option<Seq<char>> {
    match e {
        Some(JsonView::Obj(fs)) => match spec_obj_get(fs, "message"@) {
            Some(JsonView::Str(m)) => Some(m),
            _ => None,
        },
        _ => None,
    }
}

/// The `candidates` field: absent or null for none, else an array of
/// well-shaped candidates.
pub open spec fn spec_cands_field_ok(c: Option<JsonView>) -> bool {
    match c {
        None => true,
        Some(JsonView::Null) => true,
        Some(JsonView::Arr(a)) => spec_cands_ok_from(a, 0),
        Some(_) => false,
    }
}

/// The first candidate's first text, when candidates exist.
pub open spec fn spec_cands_first_text(c: Option<JsonView>) -> Option<Seq<char>> {
    match c {
        Some(JsonView::Arr(a)) => if a.len() > 0 {
            spec_candidate_text(a[0])
        } else {
            None
        },
        _ => None,
    }
}

/// The decoded response body, or `None` when the tree does not have the
/// endpoint's documented shape.
pub open spec fn spec_decode_gemini(j: JsonView) -> Option<GemView> {
    match j {
        JsonView::Obj(fs) => {
            let e = spec_obj_get(fs, "error"@);
            let c = spec_obj_get(fs, "candidates"@);
            if spec_error_field_ok(e) && spec_cands_field_ok(c) {
                Some(GemView { error: spec_error_field_msg(e), text: spec_cands_first_text(c) })
            } else {
                None
            }
        },
        _ => None,
    }
}

fn part_text(p: &Json) -> (r: Option<String>)
    ensures
        (match r {
            Some(t) => spec_part_text(p@) == Some(t@),
            None => spec_part_text(p@) is None,
        }),
{
    match p {
        Json::Obj(fs) => {
            proof {
                lemma_obj_fields(*p, *fs);
            }
            match obj_get(fs, "text") {
                Some(Json::Str(t)) => Some(t.clone()),
                _ => None,
            }
        },
        _ => None,
    }
}

fn content_first_text(c: &Json) -> (r: Option<Option<String>>)
    ensures
        (match r {
            Some(t) => spec_content_ok(c@) && (match t {
                Some(s) => spec_content_first_text(c@) == Some(s@),
                None => spec_content_first_text(c@) is None,
            }),
            None => !spec_content_ok(c@),
        }),
{
    let fs = match c {
        Json::Obj(fs) => fs,
        _ => {
            return None;
        },
    };
    proof {
        lemma_obj_fields(*c, *fs);
    }
    match obj_get(fs, "role") {
        None => (),
        Some(Json::Null) => (),
        Some(Json::Str(_)) => (),
        Some(_) => {
            return None;
        },
    }
    let ps = match obj_get(fs, "parts") {
        Some(Json::Arr(ps)) => ps,
        _ => {
            return None;
        },
    };
    proof {
        lemma_arr_elems(Json::Arr(*ps), *ps);
    }
    let ghost pv = elems_view(ps@);
    let n = ps.len();
    let mut i: usize = 0;
    while i < n
        invariant
            0 <= i <= n,
            n == pv.len(),
            n == ps@.len(),
            pv == elems_view(ps@),
            spec_parts_ok_from(pv, 0) == spec_parts_ok_from(pv, i as int),
            c@ == JsonView::Obj(fields_view(fs@)),
            spec_obj_get(fields_view(fs@), "parts"@) == Some(JsonView::Arr(pv)),
        decreases n - i,
    {
        if part_text(&ps[i]).is_none() {
            return None;
        }
        i += 1;
    }
    if n == 0 {
        Some(None)
    } else {
        Some(part_text(&ps[0]))
    }
}

fn candidate_text(c: &Json) -> (r: Option<Option<String>>)
    ensures
        (match r {
            Some(t) => spec_candidate_ok(c@) && (match t {
                Some(s) => spec_candidate_text(c@) == Some(s@),
                None => spec_candidate_text(c@) is None,
            }),
            None => !spec_candidate_ok(c@),
        }),
{
    match c {
        Json::Obj(fs) => {
            proof {
                lemma_obj_fields(*c, *fs);
            }
            match obj_get(fs, "content") {
                Some(ct) => content_first_text(ct),
                None => None,
            }
        },
        _ => None,
    }
}

/// The decoded response body held as executable values.
struct GemOut {
    error: Option<String>,
    text: Option<String>,
}

fn decode_gemini(j: &Json) -> (r: Option<GemOut>)
    ensures
        (match r {
            Some(g) => spec_decode_gemini(j@) == Some(
                GemView { error: g.error.deep_view(), text: g.text.deep_view() },
            ),
            None => spec_decode_gemini(j@) is None,
        }),
{
    let fs = match j {
        Json::Obj(fs) => fs,
        _ => {
            return None;
        },
    };
    proof {
        lemma_obj_fields(*j, *fs);
    }
    let err_msg: Option<String> = match obj_get(fs, "error") {
        None => None,
        Some(Json::Null) => None,
        Some(Json::Obj(efs)) => {
            proof {
                lemma_obj_fields(Json::Obj(*efs), *efs);
            }
            match obj_get(efs, "message") {
                Some(Json::Str(m)) => Some(m.clone()),
                _ => {
                    return None;
                },
            }
        },
        Some(_) => {
            return None;
        },
    };
    let text: Option<String> = match obj_get(fs, "candidates") {
        None => None,
        Some(Json::Null) => None,
        Some(Json::Arr(cs)) => {
            proof {
                lemma_arr_elems(Json::Arr(*cs), *cs);
            }
            let ghost cv = elems_view(cs@);
            let n = cs.len();
            let mut i: usize = 0;
            while i < n
                invariant
                    0 <= i <= n,
                    n == cv.len(),
                    n == cs@.len(),
                    cv == elems_view(cs@),
                    spec_cands_ok_from(cv, 0) == spec_cands_ok_from(cv, i as int),
                    j@ == JsonView::Obj(fields_view(fs@)),
                    spec_obj_get(fields_view(fs@), "candidates"@) == Some(JsonView::Arr(cv)),
                decreases n - i,
            {
                if candidate_text(&cs[i]).is_none() {
                    return None;
                }
                i += 1;
            }
            if n == 0 {
                None
            } else {
                match candidate_text(&cs[0]) {
                    Some(t) => t,
                    None => {
                        return None;
                    },
                }
            }
        },
        Some(_) => {
            return None;
        },
    };
    Some(GemOut { error: err_msg, text })
}

/// The fixed generation parameters every request carries, as they stand on
/// the wire: sampling temperature 0.7 and at most 2048 output tokens. The
/// one place this policy is written.
pub open spec fn spec_generation_config() -> Seq<char> {
    "\"generationConfig\":{\"temperature\":0.7,\"maxOutputTokens\":2048}"@
}

/// The image of an optional borrowed string.
pub open spec fn opt_str_view(o: Option<&str>) -> Option<Seq<char>> {
    match o {
        Some(s) => Some(s@),
        None => None,
    }
}

/// The request body: the user message as a role-tagged content block, the
/// optional system instruction as an untagged one, and the fixed
/// generation parameters.
pub open spec fn spec_request_body(system: Option<Seq<char>>, user: Seq<char>) -> Seq<char> {
    "{\"contents\":[{\"role\":\"user\",\"parts\":[{\"text\":\""@ + spec_escape(user)
        + "\"}]}]"@ + (match system {
        Some(s) => ",\"system_instruction\":{\"parts\":[{\"text\":\""@ + spec_escape(s)
            + "\"}]}"@,
        None => Seq::empty(),
    }) + ","@ + spec_generation_config() + "}"@
}

/// The endpoint address a request is sent to, composed per the provider's
/// documented scheme from base address, model identifier and credential.
pub open spec fn spec_url(c: ConfigView) -> Seq<char> {
    c.base_url + "/models/"@ + c.model + ":generateContent?key="@ + c.api_key
}

/// What interpreting a response yields: the fixed rate-limit hint on
/// status 429; the status and raw body on any other non-success status;
/// then, on a success status, the parse diagnostic for an unreadable body,
/// the endpoint's own message for a logical error, the first candidate's
/// first text when present, and a fixed diagnostic when none is.
pub open spec fn spec_outcome(status: int, body: Seq<char>) -> Result<Seq<char>, ErrView> {
    if status == 429 {
        Err(ErrView::RateLimited(60))
    } else if !(200 <= status && status < 300) {
        Err(ErrView::Api(spec_dec(status) + ": "@ + body))
    } else {
        match spec_parse_json(body) {
            Err(d) => Err(ErrView::Parse(d)),
            Ok(j) => match spec_decode_gemini(j) {
                None => Err(ErrView::Parse("response body does not match the expected shape"@)),
                Some(g) => match g.error {
                    Some(m) => Err(ErrView::Api(m)),
                    None => match g.text {
                        Some(t) => Ok(t),
                        None => Err(ErrView::Parse("No response from AI"@)),
                    },
                },
            },
        }
    }
}

/// One prepared exchange: where to send it and what to send.
#[derive(Debug, PartialEq)]
pub struct CompletionRequest {
    pub url: String,
    pub body: String,
}

/// AI client for the completion endpoint: holds the configuration a
/// session was started with.
pub struct AIClient {
    pub config: AIConfig,
}

impl AIClient {
    /// Create a new AI client.
    pub fn new(config: AIConfig) -> (c: Self)
        ensures
            c.config == config,
    {
        AIClient { config }
    }

    /// Check if the client is ready to make requests.
    pub fn is_ready(&self) -> (r: bool)
        ensures
            r == self.config.spec_ready(),
    {
        self.config.is_ready()
    }

    /// Prepare the one exchange a completion performs. When the
    /// configuration is not ready, no request exists and the call reports
    /// `NotConfigured` instead; nothing is to be sent in that case.
    pub fn completion_request(&self, system: Option<&str>, user: &str) -> (r: Result<
        CompletionRequest,
        AIError,
    >)
        ensures
            (match r {
                Ok(req) => self.config.spec_ready() && req.url@ == spec_url(self.config@)
                    && req.body@ == spec_request_body(opt_str_view(system), user@),
                Err(e) => !self.config.spec_ready() && e@ == ErrView::NotConfigured,
            }),
    {
        if !self.config.is_ready() {
            return Err(AIError::NotConfigured);
        }
        let mut url = self.config.base_url.clone();
        url.append("/models/");
        url.append(self.config.model.as_str());
        url.append(":generateContent?key=");
        url.append(self.config.api_key.as_str());
        let mut body = String::from_str("{\"contents\":[{\"role\":\"user\",\"parts\":[{\"text\":\"");
        body.append(escape_json(user).as_str());
        body.append("\"}]}]");
        match system {
            Some(s) => {
                body.append(",\"system_instruction\":{\"parts\":[{\"text\":\"");
                body.append(escape_json(s).as_str());
                body.append("\"}]}");
            },
            None => (),
        }
        body.append(",");
        body.append("\"generationConfig\":{\"temperature\":0.7,\"maxOutputTokens\":2048}");
        body.append("}");
        Ok(CompletionRequest { url, body })
    }

    /// Interpret the status and body of a completion response.
    pub fn completion_outcome(status: u16, body: &str) -> (r: Result<String, AIError>)
        ensures
            res_view(r) == spec_outcome(status as int, body@),
    {
        if status == 429 {
            return Err(AIError::RateLimited(60));
        }
        if !(200 <= status && status < 300) {
            let mut d = dec_u64(status as u64);
            d.append(": ");
            d.append(body);
            return Err(AIError::ApiError(d));
        }
        let tree = match parse_json(body) {
            Ok(t) => t,
            Err(e) => {
                return Err(AIError::ParseError(e));
            },
        };
        let decoded = match decode_gemini(&tree) {
            Some(g) => g,
            None => {
                return Err(
                    AIError::ParseError(
                        String::from_str("response body does not match the expected shape"),
                    ),
                );
            },
        };
        if let Some(m) = decoded.error {
            return Err(AIError::ApiError(m));
        }
        match decoded.text {
            Some(t) => Ok(t),
            None => Err(AIError::ParseError(String::from_str("No response from AI"))),
        }
    }
}

} // verus!
