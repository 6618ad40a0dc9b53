//! The command interpreter: the task prompts sent with each completion,
//! and the decoding of the model's free text into a closed set of typed
//! actions.

use vstd::prelude::*;
use vstd::string::*;
use crate::error::{AIError, ErrView};
use crate::json::{
    fields_view, lemma_obj_fields, obj_get, parse_json, spec_obj_get, spec_parse_json, Json,
    JsonView,
};
use crate::strutil::{
    spec_starts_with, spec_strip_prefix_reps, spec_strip_suffix_reps, spec_trim,
    str_eq_str, str_starts_with, strip_prefix_reps, strip_suffix_reps, trim_str,
};
use crate::transport::opt_str_view;

verus! {

/// A decoded command: exactly one variant per model answer.
#[derive(Debug, PartialEq)]
pub enum AICommand {
    Mute { duration_seconds: u32 },
    Unmute,
    Search { query: String, from_user: Option<String> },
    Send { to: String, text: String },
    Reply { tone: Option<String> },
    Unknown { reason: String },
}

/// Mathematical image of an [`AICommand`].
pub enum CmdView {
    Mute { duration_seconds: u32 },
    Unmute,
    Search { query: Seq<char>, from_user: Option<Seq<char>> },
    Send { to: Seq<char>, text: Seq<char> },
    Reply { tone: Option<Seq<char>> },
    Unknown { reason: Seq<char> },
}

impl View for AICommand {
    type V = CmdView;

    open spec fn view(&self) -> CmdView {
        match self {
            AICommand::Mute { duration_seconds } => CmdView::Mute {
                duration_seconds: *duration_seconds,
            },
            AICommand::Unmute => CmdView::Unmute,
            AICommand::Search { query, from_user } => CmdView::Search {
                query: query@,
                from_user: from_user.deep_view(),
            },
            AICommand::Send { to, text } => CmdView::Send { to: to@, text: text@ },
            AICommand::Reply { tone } => CmdView::Reply { tone: tone.deep_view() },
            AICommand::Unknown { reason } => CmdView::Unknown { reason: reason@ },
        }
    }
}

/// The image of a command decoding outcome.
pub open spec fn cmd_res_view(r: Result<AICommand, AIError>) -> Result<CmdView, ErrView> {
    match r {
        Ok(c) => Ok(c@),
        Err(e) => Err(e@),
    }
}

/// A required string field: present and a string, or nothing.
pub open spec fn spec_str_field(fs: Seq<(Seq<char>, JsonView)>, key: Seq<char>) -> Option<
    Seq<char>,
> {
    match spec_obj_get(fs, key) {
        Some(JsonView::Str(s)) => Some(s),
        _ => None,
    }
}

/// An optional string field: `None` when it is present with another type,
/// else the string when one is there, absent and null alike standing for
/// no value.
pub open spec fn spec_opt_str_field(fs: Seq<(Seq<char>, JsonView)>, key: Seq<char>) -> Option<
    Option<Seq<char>>,
> {
    match spec_obj_get(fs, key) {
        None => Some(None),
        Some(JsonView::Null) => Some(None),
        Some(JsonView::Str(s)) => Some(Some(s)),
        Some(_) => None,
    }
}

/// The closed command schema: an object whose `action` names one of six
/// shapes, each with its required fields; any other tree decodes to
/// nothing. Fields not named by the shape are ignored.
pub open spec fn spec_decode_command(j: JsonView) -> Option<CmdView> {
    match j {
        JsonView::Obj(fs) => match spec_obj_get(fs, "action"@) {
            Some(JsonView::Str(a)) => if a == "mute"@ {
                match spec_obj_get(fs, "duration_seconds"@) {
                    Some(JsonView::Int(n)) => if n <= u32::MAX as u64 {
                        Some(CmdView::Mute { duration_seconds: n as u32 })
                    } else {
                        None
                    },
                    _ => None,
                }
            } else if a == "unmute"@ {
                Some(CmdView::Unmute)
            } else if a == "search"@ {
                match (spec_str_field(fs, "query"@), spec_opt_str_field(fs, "from_user"@)) {
                    (Some(q), Some(f)) => Some(CmdView::Search { query: q, from_user: f }),
                    _ => None,
                }
            } else if a == "send"@ {
                match (spec_str_field(fs, "to"@), spec_str_field(fs, "text"@)) {
                    (Some(t), Some(x)) => Some(CmdView::Send { to: t, text: x }),
                    _ => None,
                }
            } else if a == "reply"@ {
                match spec_opt_str_field(fs, "tone"@) {
                    Some(t) => Some(CmdView::Reply { tone: t }),
                    None => None,
                }
            } else if a == "unknown"@ {
                match spec_str_field(fs, "reason"@) {
                    Some(r) => Some(CmdView::Unknown { reason: r }),
                    None => None,
                }
            } else {
                None
            },
            _ => None,
        },
        _ => None,
    }
}

fn get_str_field(fs: &Vec<(String, Json)>, key: &str) -> (r: Option<String>)
    ensures
        (match r {
            Some(s) => spec_str_field(fields_view(fs@), key@) == Some(s@),
            None => spec_str_field(fields_view(fs@), key@) is None,
        }),
{
    match obj_get(fs, key) {
        Some(Json::Str(s)) => Some(s.clone()),
        _ => None,
    }
}

fn get_opt_str_field(fs: &Vec<(String, Json)>, key: &str) -> (r: Option<Option<String>>)
    ensures
        (match r {
            Some(o) => spec_opt_str_field(fields_view(fs@), key@) == Some(o.deep_view()),
            None => spec_opt_str_field(fields_view(fs@), key@) is None,
        }),
{
    match obj_get(fs, key) {
        None => Some(None),
        Some(Json::Null) => Some(None),
        Some(Json::Str(s)) => Some(Some(s.clone())),
        Some(_) => None,
    }
}

/// Decode a JSON tree against the closed command schema.
pub fn decode_command(j: &Json) -> (r: Option<AICommand>)
    ensures
        (match r {
            Some(c) => spec_decode_command(j@) == Some(c@),
            None => spec_decode_command(j@) is None,
        }),
{
    let fs = match j {
        Json::Obj(fs) => fs,
        _ => {
            return None;
        },
    };
    proof {
        lemma_obj_fields(*j, *fs);
    }
    let a = match obj_get(fs, "action") {
        Some(Json::Str(a)) => a,
        _ => {
            return None;
        },
    };
    if str_eq_str(a.as_str(), "mute") {
        match obj_get(fs, "duration_seconds") {
            Some(Json::Int(n)) => {
                if *n <= u32::MAX as u64 {
                    Some(AICommand::Mute { duration_seconds: *n as u32 })
                } else {
                    None
                }
            },
            _ => None,
        }
    } else if str_eq_str(a.as_str(), "unmute") {
        Some(AICommand::Unmute)
    } else if str_eq_str(a.as_str(), "search") {
        match (get_str_field(fs, "query"), get_opt_str_field(fs, "from_user")) {
            (Some(q), Some(f)) => Some(AICommand::Search { query: q, from_user: f }),
            _ => None,
        }
    } else if str_eq_str(a.as_str(), "send") {
        match (get_str_field(fs, "to"), get_str_field(fs, "text")) {
            (Some(t), Some(x)) => Some(AICommand::Send { to: t, text: x }),
            _ => None,
        }
    } else if str_eq_str(a.as_str(), "reply") {
        match get_opt_str_field(fs, "tone") {
            Some(t) => Some(AICommand::Reply { tone: t }),
            None => None,
        }
    } else if str_eq_str(a.as_str(), "unknown") {
        match get_str_field(fs, "reason") {
            Some(r) => Some(AICommand::Unknown { reason: r }),
            None => None,
        }
    } else {
        None
    }
}

/// The text handed to the JSON decoder: the trimmed model output, with a
/// surrounding markdown code fence (optionally tagged `json`) stripped
/// first when one is there.
pub open spec fn spec_extract_json(raw: Seq<char>) -> Seq<char> {
    let t = spec_trim(raw);
    if spec_starts_with(t, "```"@) {
        spec_trim(
            spec_strip_suffix_reps(
                spec_strip_prefix_reps(spec_strip_prefix_reps(t, "```json"@), "```"@),
                "```"@,
            ),
        )
    } else {
        t
    }
}

/// Strip an optional surrounding markdown code fence.
pub fn extract_json_text(raw: &str) -> (r: String)
    ensures
        r@ == spec_extract_json(raw@),
{
    let t = trim_str(raw);
    if str_starts_with(t.as_str(), "```") {
        let a = strip_prefix_reps(t.as_str(), "```json");
        let b = strip_prefix_reps(a.as_str(), "```");
        let c = strip_suffix_reps(b.as_str(), "```");
        trim_str(c.as_str())
    } else {
        t
    }
}

/// The diagnostic a failed command decoding carries: the underlying
/// diagnostic and the raw upstream text, both embedded.
pub open spec fn spec_parse_error_msg(diag: Seq<char>, raw: Seq<char>) -> Seq<char> {
    "Invalid JSON: "@ + diag + " - Response: "@ + raw
}

fn parse_error_msg(diag: &str, raw: &str) -> (r: String)
    ensures
        r@ == spec_parse_error_msg(diag@, raw@),
{
    let mut s = String::from_str("Invalid JSON: ");
    s.append(diag);
    s.append(" - Response: ");
    s.append(raw);
    s
}

/// What decoding raw model output into a command yields: the decoded
/// action when the fence-stripped text is JSON of one of the six shapes,
/// else a parse failure embedding the diagnostic and the raw text.
pub open spec fn spec_parse_command_output(raw: Seq<char>) -> Result<CmdView, ErrView> {
    let js = spec_extract_json(raw);
    match spec_parse_json(js) {
        Err(d) => Err(ErrView::Parse(spec_parse_error_msg(d, raw))),
        Ok(j) => match spec_decode_command(j) {
            Some(c) => Ok(c),
            None => Err(
                ErrView::Parse(spec_parse_error_msg("text does not name a known action"@, raw)),
            ),
        },
    }
}

/// Decode raw model output into a command.
pub fn parse_command_output(raw: &str) -> (r: Result<AICommand, AIError>)
    ensures
        cmd_res_view(r) == spec_parse_command_output(raw@),
{
    let js = extract_json_text(raw);
    match parse_json(js.as_str()) {
        Err(d) => Err(AIError::ParseError(parse_error_msg(d.as_str(), raw))),
        Ok(j) => match decode_command(&j) {
            Some(c) => Ok(c),
            None => Err(
                AIError::ParseError(parse_error_msg("text does not name a known action", raw)),
            ),
        },
    }
}

/// The task frame for command parsing: the six shapes, JSON only.
pub open spec fn spec_command_system_prompt() -> Seq<char> {
    "You are a Telegram command parser. Convert natural language to JSON actions.\nAvailable actions:\n- {\"action\": \"mute\", \"duration_seconds\": <int>} - Mute current chat (e.g., 3600 for 1 hour)\n- {\"action\": \"unmute\"} - Unmute current chat\n- {\"action\": \"search\", \"query\": \"<text>\", \"from_user\": \"<optional username>\"} - Search messages\n- {\"action\": \"send\", \"to\": \"<username>\", \"text\": \"<message>\"} - Send message to user\n- {\"action\": \"reply\", \"tone\": \"<casual|formal|technical>\"} - Generate a reply draft\n- {\"action\": \"unknown\", \"reason\": \"<explanation>\"} - If you can't understand the command\n\nRespond with ONLY valid JSON, no explanation."@
}

pub fn command_system_prompt() -> (s: String)
    ensures
        s@ == spec_command_system_prompt(),
{
    String::from_str(
        "You are a Telegram command parser. Convert natural language to JSON actions.\nAvailable actions:\n- {\"action\": \"mute\", \"duration_seconds\": <int>} - Mute current chat (e.g., 3600 for 1 hour)\n- {\"action\": \"unmute\"} - Unmute current chat\n- {\"action\": \"search\", \"query\": \"<text>\", \"from_user\": \"<optional username>\"} - Search messages\n- {\"action\": \"send\", \"to\": \"<username>\", \"text\": \"<message>\"} - Send message to user\n- {\"action\": \"reply\", \"tone\": \"<casual|formal|technical>\"} - Generate a reply draft\n- {\"action\": \"unknown\", \"reason\": \"<explanation>\"} - If you can't understand the command\n\nRespond with ONLY valid JSON, no explanation.",
    )
}

/// The sentence the chosen tone adds to the reply frame; an absent or
/// unrecognized tone falls back to the casual sentence.
pub open spec fn spec_tone_sentence(tone: Option<Seq<char>>) -> Seq<char> {
    match tone {
        Some(t) => if t == "formal"@ {
            "Use a professional, formal tone."@
        } else if t == "technical"@ {
            "Use a detailed, technical tone with specific terminology."@
        } else {
            "Use a friendly, casual tone."@
        },
        None => "Use a friendly, casual tone."@,
    }
}

/// What precedes the tone sentence in the reply frame.
pub open spec fn spec_reply_frame_head() -> Seq<char> {
    "You are helping draft a reply in a chat application.\nGiven the chat history, generate a helpful, concise reply.\n"@
}

/// What follows the tone sentence in the reply frame.
pub open spec fn spec_reply_frame_tail() -> Seq<char> {
    "\nDo NOT include greetings unless the conversation warrants it.\nKeep the reply brief and natural.\nRespond with ONLY the reply text, no quotes or explanation."@
}

/// The task frame for reply drafting: the fixed frame around the tone
/// sentence.
pub open spec fn spec_reply_system_prompt(tone: Option<Seq<char>>) -> Seq<char> {
    spec_reply_frame_head() + spec_tone_sentence(tone) + spec_reply_frame_tail()
}

fn tone_sentence(tone: Option<&str>) -> (s: &'static str)
    ensures
        s@ == spec_tone_sentence(opt_str_view(tone)),
{
    match tone {
        Some(t) => {
            if str_eq_str(t, "formal") {
                "Use a professional, formal tone."
            } else if str_eq_str(t, "technical") {
                "Use a detailed, technical tone with specific terminology."
            } else {
                "Use a friendly, casual tone."
            }
        },
        None => "Use a friendly, casual tone.",
    }
}

pub fn reply_system_prompt(tone: Option<&str>) -> (s: String)
    ensures
        s@ == spec_reply_system_prompt(opt_str_view(tone)),
{
    String::from_str(
        "You are helping draft a reply in a chat application.\nGiven the chat history, generate a helpful, concise reply.\n",
    ).concat(tone_sentence(tone)).concat(
        "\nDo NOT include greetings unless the conversation warrants it.\nKeep the reply brief and natural.\nRespond with ONLY the reply text, no quotes or explanation.",
    )
}

/// The user message for reply drafting: the labelled chat history and the
/// trailing instruction around the context.
pub open spec fn spec_reply_user_message(context: Seq<char>) -> Seq<char> {
    "Chat history:\n"@ + context + "\n\nDraft a reply:"@
}

pub fn reply_user_message(context: &str) -> (s: String)
    ensures
        s@ == spec_reply_user_message(context@),
{
    let mut s = String::from_str("Chat history:\n");
    s.append(context);
    s.append("\n\nDraft a reply:");
    s
}

/// The task frame for code assistance.
pub open spec fn spec_code_system_prompt() -> Seq<char> {
    "You are a coding assistant integrated into a terminal app.\n- Respond concisely\n- Use markdown code blocks with language tags\n- For debugging, explain the issue clearly\n- Provide working, practical code examples"@
}

pub fn code_assist_system_prompt() -> (s: String)
    ensures
        s@ == spec_code_system_prompt(),
{
    String::from_str(
        "You are a coding assistant integrated into a terminal app.\n- Respond concisely\n- Use markdown code blocks with language tags\n- For debugging, explain the issue clearly\n- Provide working, practical code examples",
    )
}

/// Law: every reply prompt is the same frame around the chosen tone
/// sentence, an explicit formal tone and an absent tone choose different
/// sentences, and an explicit casual tone chooses the same sentence as an
/// absent one.
pub proof fn lemma_reply_tone_selection()
    ensures
        forall|t: Option<Seq<char>>| #[trigger] spec_reply_system_prompt(t)
            == spec_reply_frame_head() + spec_tone_sentence(t) + spec_reply_frame_tail(),
        spec_reply_system_prompt(Some("formal"@)) != spec_reply_system_prompt(
            None::<Seq<char>>,
        ),
        spec_tone_sentence(Some("casual"@)) == spec_tone_sentence(None::<Seq<char>>),
{
    reveal_strlit("formal");
    reveal_strlit("technical");
    reveal_strlit("casual");
    reveal_strlit("Use a professional, formal tone.");
    reveal_strlit("Use a friendly, casual tone.");
    assert(("casual"@).len() == ("formal"@).len());
    assert(("casual"@)[0] != ("formal"@)[0]);
    assert(("casual"@) != ("formal"@));
    assert(("casual"@).len() != ("technical"@).len());
    assert(spec_tone_sentence(Some("formal"@)).len() != spec_tone_sentence(
        None::<Seq<char>>,
    ).len());
    assert(spec_reply_system_prompt(Some("formal"@)).len() != spec_reply_system_prompt(
        None::<Seq<char>>,
    ).len());
}

} // verus!
