use vimgram::error::AIError;
use vimgram::interpreter::{
    code_assist_system_prompt, command_system_prompt, extract_json_text, parse_command_output,
    reply_system_prompt, reply_user_message, AICommand,
};

#[test]
fn fenced_json_is_unwrapped_before_decoding() {
    let raw = "```json\n{\"action\":\"mute\",\"duration_seconds\":3600}\n```";
    assert_eq!(
        parse_command_output(raw),
        Ok(AICommand::Mute {
            duration_seconds: 3600
        })
    );
}

#[test]
fn untagged_fence_is_unwrapped_too() {
    let raw = "```\n{\"action\":\"unmute\"}\n```";
    assert_eq!(parse_command_output(raw), Ok(AICommand::Unmute));
}

#[test]
fn bare_json_decodes_without_fence() {
    let raw = "  {\"action\":\"unmute\"}  ";
    assert_eq!(parse_command_output(raw), Ok(AICommand::Unmute));
}

#[test]
fn model_chosen_unknown_is_a_value_not_a_failure() {
    let raw = "{\"action\":\"unknown\",\"reason\":\"no match\"}";
    assert_eq!(
        parse_command_output(raw),
        Ok(AICommand::Unknown {
            reason: String::from("no match")
        })
    );
}

#[test]
fn invalid_json_fails_and_embeds_the_raw_text() {
    let raw = "sorry, I cannot help with that";
    match parse_command_output(raw) {
        Err(AIError::ParseError(msg)) => {
            assert!(msg.starts_with("Invalid JSON: "));
            assert!(msg.contains(raw));
        }
        other => panic!("expected a parse failure, got {:?}", other),
    }
}

#[test]
fn unrecognized_shape_fails_and_embeds_the_raw_text() {
    let raw = "{\"action\":\"dance\"}";
    match parse_command_output(raw) {
        Err(AIError::ParseError(msg)) => {
            assert!(msg.contains(raw));
        }
        other => panic!("expected a parse failure, got {:?}", other),
    }
}

#[test]
fn search_fields_decode_with_optional_sender() {
    let raw = "{\"action\":\"search\",\"query\":\"rust\",\"from_user\":\"ana\"}";
    assert_eq!(
        parse_command_output(raw),
        Ok(AICommand::Search {
            query: String::from("rust"),
            from_user: Some(String::from("ana"))
        })
    );
    let raw = "{\"action\":\"search\",\"query\":\"rust\"}";
    assert_eq!(
        parse_command_output(raw),
        Ok(AICommand::Search {
            query: String::from("rust"),
            from_user: None
        })
    );
    let raw = "{\"action\":\"search\",\"query\":\"rust\",\"from_user\":null}";
    assert_eq!(
        parse_command_output(raw),
        Ok(AICommand::Search {
            query: String::from("rust"),
            from_user: None
        })
    );
}

#[test]
fn send_requires_recipient_and_text() {
    let raw = "{\"action\":\"send\",\"to\":\"bo\",\"text\":\"hi\"}";
    assert_eq!(
        parse_command_output(raw),
        Ok(AICommand::Send {
            to: String::from("bo"),
            text: String::from("hi")
        })
    );
    let raw = "{\"action\":\"send\",\"to\":\"bo\"}";
    assert!(matches!(
        parse_command_output(raw),
        Err(AIError::ParseError(_))
    ));
}

#[test]
fn reply_tone_is_optional() {
    let raw = "{\"action\":\"reply\",\"tone\":\"formal\"}";
    assert_eq!(
        parse_command_output(raw),
        Ok(AICommand::Reply {
            tone: Some(String::from("formal"))
        })
    );
    let raw = "{\"action\":\"reply\"}";
    assert_eq!(parse_command_output(raw), Ok(AICommand::Reply { tone: None }));
}

#[test]
fn mute_duration_must_fit() {
    let raw = "{\"action\":\"mute\",\"duration_seconds\":4294967296}";
    assert!(matches!(
        parse_command_output(raw),
        Err(AIError::ParseError(_))
    ));
    let raw = "{\"action\":\"mute\",\"duration_seconds\":-5}";
    assert!(matches!(
        parse_command_output(raw),
        Err(AIError::ParseError(_))
    ));
    let raw = "{\"action\":\"mute\"}";
    assert!(matches!(
        parse_command_output(raw),
        Err(AIError::ParseError(_))
    ));
}

#[test]
fn extra_fields_on_a_known_shape_are_ignored() {
    let raw = "{\"action\":\"unmute\",\"confidence\":0.9}";
    assert_eq!(parse_command_output(raw), Ok(AICommand::Unmute));
}

#[test]
fn fence_stripping_handles_inner_whitespace() {
    assert_eq!(
        extract_json_text("  ```json\n{\"a\":1}\n```  "),
        "{\"a\":1}"
    );
    assert_eq!(extract_json_text("no fence"), "no fence");
    assert_eq!(extract_json_text("```{}```"), "{}");
}

#[test]
fn trimming_covers_unicode_white_space() {
    let raw = "\u{a0}\u{2003}{\"action\":\"unmute\"}\u{a0} ";
    assert_eq!(parse_command_output(raw), Ok(AICommand::Unmute));
}

#[test]
fn tone_selection_changes_only_the_tone_sentence() {
    let formal = reply_system_prompt(Some("formal"));
    let technical = reply_system_prompt(Some("technical"));
    let casual = reply_system_prompt(Some("casual"));
    let absent = reply_system_prompt(None);
    let odd = reply_system_prompt(Some("brisk"));
    assert_ne!(formal, absent);
    assert_ne!(technical, absent);
    assert_eq!(casual, absent);
    assert_eq!(odd, absent);
    assert!(formal.contains("Use a professional, formal tone."));
    assert!(technical.contains("Use a detailed, technical tone with specific terminology."));
    assert!(absent.contains("Use a friendly, casual tone."));
    let head = "You are helping draft a reply in a chat application.";
    assert!(formal.starts_with(head));
    assert!(absent.starts_with(head));
    assert!(formal.ends_with("no quotes or explanation."));
    assert!(absent.ends_with("no quotes or explanation."));
}

#[test]
fn reply_user_message_frames_the_context() {
    assert_eq!(
        reply_user_message("A: hi\nB: hey"),
        "Chat history:\nA: hi\nB: hey\n\nDraft a reply:"
    );
}

#[test]
fn task_prompts_carry_their_instructions() {
    let cmd = command_system_prompt();
    assert!(cmd.contains("Respond with ONLY valid JSON, no explanation."));
    assert!(cmd.contains("\"action\": \"mute\""));
    assert!(cmd.contains("\"action\": \"unknown\""));
    let code = code_assist_system_prompt();
    assert!(code.contains("coding assistant"));
    assert!(code.contains("markdown code blocks"));
}
