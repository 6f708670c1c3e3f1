use psqlx::ai::{
    fix_request_text, generation_request_text, system_prompt_text,
    authorization, first_choice_content, fix_messages, AIPlugin, Arguments, ChatMessage,
    CompletionError, FixSession, FixStage, GenerateSession, GenerateStage, Notice, Outcome, Role,
    SessionAction, SessionEvent, SYSTEM_INTRO,
};
use psqlx::dispatch::ResultCode;
use psqlx::plugin::{embedded_descriptor, meta_commands_text, Plugin};
use psqlx::prompt::AdditionalInstructions;

fn is_prompt(a: &SessionAction) -> bool {
    matches!(a, SessionAction::AskFollowUp(_) | SessionAction::AskConfirm(_))
}

#[test]
fn ai_plugin_metadata() {
    assert_eq!(AIPlugin.name(), "ai");
    assert_eq!(AIPlugin.version(), "0.1.0");
    assert_eq!(meta_commands_text(&AIPlugin), "generate,fix");
    let d = embedded_descriptor(&AIPlugin, 0u8).unwrap();
    assert_eq!(d.commands(), &vec!["generate".to_string(), "fix".to_string()]);
}

#[test]
fn authorization_needs_a_key() {
    assert_eq!(authorization(None), Err(CompletionError::MissingApiKey));
    assert_eq!(authorization(Some("k1".to_string())), Ok("Bearer k1".to_string()));
}

#[test]
fn first_choice_is_taken() {
    assert_eq!(first_choice_content(Vec::new()), Err(CompletionError::NoChoices));
    assert_eq!(first_choice_content(vec![None, Some("x".to_string())]), Err(CompletionError::NoContent));
    assert_eq!(
        first_choice_content(vec![Some("select 1".to_string()), None]),
        Ok("select 1".to_string())
    );
}

#[test]
fn fix_conversation_quotes_its_inputs() {
    let m = fix_messages("selec 1", "syntax error", "[]");
    assert_eq!(m.len(), 2);
    assert_eq!(m[0].role, Role::System);
    assert_eq!(m[0].content, format!("{}\"[]\"", SYSTEM_INTRO));
    assert_eq!(
        m[1],
        ChatMessage {
            role: Role::User,
            content: "Code: \"selec 1\" \"syntax error\"".to_string()
        }
    );
}

#[test]
fn generate_accepts_after_refinement() {
    let (mut s, a) = GenerateSession::start(Arguments::Given("list users".to_string()));
    assert_eq!(a, SessionAction::FetchSchema);
    let a = s.step(SessionEvent::Schema("{}".to_string()));
    match a {
        SessionAction::Request(m) => {
            assert_eq!(m.len(), 2);
            assert_eq!(m[0].role, Role::System);
            assert_eq!(m[1].content, "Code generation request: \"list users\"");
        }
        other => panic!("unexpected {:?}", other),
    }
    let a = s.step(SessionEvent::Completion(Ok("select * from users".to_string())));
    assert_eq!(a, SessionAction::AskFollowUp("select * from users".to_string()));
    let a = s.step(SessionEvent::Answer(Some(AdditionalInstructions::Text("only ids".to_string()))));
    match a {
        SessionAction::Request(m) => {
            assert_eq!(m.len(), 4);
            assert_eq!(m[2].role, Role::Assistant);
            assert_eq!(m[3].content, "Code generation request: \"only ids\"");
        }
        other => panic!("unexpected {:?}", other),
    }
    s.step(SessionEvent::Completion(Ok("select id from users".to_string())));
    let a = s.step(SessionEvent::Answer(Some(AdditionalInstructions::Flag(true))));
    assert_eq!(
        a,
        SessionAction::Finish(Outcome {
            code: ResultCode::RequestReedit,
            new_query: Some("select id from users".to_string()),
            notice: Notice::Quiet,
        })
    );
    assert_eq!(s.step(SessionEvent::Schema(String::new())), SessionAction::Finish(Outcome {
        code: ResultCode::Error,
        new_query: None,
        notice: Notice::Quiet,
    }));
}

#[test]
fn generate_prompts_without_arguments() {
    let (mut s, a) = GenerateSession::start(Arguments::Absent);
    assert_eq!(a, SessionAction::AskInstructions);
    assert_eq!(
        s.step(SessionEvent::Answer(Some(AdditionalInstructions::Flag(true)))),
        SessionAction::Finish(Outcome {
            code: ResultCode::SkipLine,
            new_query: None,
            notice: Notice::NoInstructions
        })
    );
    let (mut s2, _) = GenerateSession::start(Arguments::Absent);
    assert_eq!(
        s2.step(SessionEvent::Answer(Some(AdditionalInstructions::Text("x".to_string())))),
        SessionAction::FetchSchema
    );
    let (mut s3, _) = GenerateSession::start(Arguments::Absent);
    assert_eq!(
        s3.step(SessionEvent::Answer(None)),
        SessionAction::Finish(Outcome { code: ResultCode::Error, new_query: None, notice: Notice::Quiet })
    );
    let (_, a4) = GenerateSession::start(Arguments::Unreadable);
    assert_eq!(
        a4,
        SessionAction::Finish(Outcome { code: ResultCode::Error, new_query: None, notice: Notice::Quiet })
    );
}

#[test]
fn generate_cancel_leaves_query() {
    let (mut s, _) = GenerateSession::start(Arguments::Given("x".to_string()));
    s.step(SessionEvent::Schema(String::new()));
    s.step(SessionEvent::Completion(Ok("select 2".to_string())));
    assert_eq!(
        s.step(SessionEvent::Answer(Some(AdditionalInstructions::Flag(false)))),
        SessionAction::Finish(Outcome {
            code: ResultCode::SkipLine,
            new_query: None,
            notice: Notice::Cancelled
        })
    );
}

#[test]
fn missing_credential_fails_without_prompt() {
    let (mut s, a) = GenerateSession::start(Arguments::Given("count rows".to_string()));
    let mut actions = vec![a];
    actions.push(s.step(SessionEvent::Schema("[]".to_string())));
    let reply = authorization(None).map(|_| String::new());
    actions.push(s.step(SessionEvent::Completion(reply)));
    actions.push(s.step(SessionEvent::Answer(Some(AdditionalInstructions::Flag(true)))));
    assert_eq!(
        actions[2],
        SessionAction::Finish(Outcome {
            code: ResultCode::Error,
            new_query: None,
            notice: Notice::Failed(CompletionError::MissingApiKey)
        })
    );
    assert!(!actions.iter().any(is_prompt));

    let (mut f, a) = FixSession::start(Some("selec 1".to_string()), Some("syntax error".to_string()), "[]");
    assert!(matches!(a, SessionAction::Request(_)));
    let r = f.step(SessionEvent::Completion(Err(CompletionError::MissingApiKey)));
    assert_eq!(
        r,
        SessionAction::Finish(Outcome {
            code: ResultCode::Error,
            new_query: None,
            notice: Notice::Failed(CompletionError::MissingApiKey)
        })
    );
    assert!(!is_prompt(&f.step(SessionEvent::Confirmation(Some(true)))));
}

#[test]
fn fix_applies_on_yes() {
    let (mut f, _) = FixSession::start(Some("selec 1".to_string()), Some("err".to_string()), "");
    assert_eq!(
        f.step(SessionEvent::Completion(Ok("select 1".to_string()))),
        SessionAction::AskConfirm("select 1".to_string())
    );
    assert_eq!(
        f.step(SessionEvent::Confirmation(Some(true))),
        SessionAction::Finish(Outcome {
            code: ResultCode::RequestReedit,
            new_query: Some("select 1".to_string()),
            notice: Notice::Quiet
        })
    );
}

#[test]
fn fix_declined_or_nothing_to_fix() {
    let (mut f, _) = FixSession::start(Some("q".to_string()), Some("err".to_string()), "");
    f.step(SessionEvent::Completion(Ok("q2".to_string())));
    assert_eq!(
        f.step(SessionEvent::Confirmation(Some(false))),
        SessionAction::Finish(Outcome {
            code: ResultCode::SkipLine,
            new_query: None,
            notice: Notice::NotApplied
        })
    );
    let (g, a) = FixSession::start(Some("q".to_string()), Some("  \n".to_string()), "");
    let _ = g;
    assert_eq!(
        a,
        SessionAction::Finish(Outcome {
            code: ResultCode::SkipLine,
            new_query: None,
            notice: Notice::NoPreviousError
        })
    );
    let (_, b) = FixSession::start(None, Some("err".to_string()), "");
    assert_eq!(
        b,
        SessionAction::Finish(Outcome { code: ResultCode::Error, new_query: None, notice: Notice::Quiet })
    );
    let _ = (FixStage::Done, GenerateStage::Done);
}

#[test]
fn request_texts_from_quoted_parts() {
    assert_eq!(generation_request_text("\"x\""), "Code generation request: \"x\"");
    assert_eq!(fix_request_text("\"a\"", "\"b\""), "Code: \"a\" \"b\"");
    assert_eq!(system_prompt_text("\"s\""), format!("{}\"s\"", SYSTEM_INTRO));
}
