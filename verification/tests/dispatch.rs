use repl_core::abort::SharedAbortSignal;
use repl_core::clipboard::ClipboardState;
use repl_core::config::Config;
use repl_core::config::Message;
use repl_core::errors::ReplError;
use repl_core::handler::FileFault;
use repl_core::handler::HandleOutcome;
use repl_core::handler::ReplCmd;
use repl_core::handler::ReplCmdHandler;

fn test_handler() -> ReplCmdHandler {
    let models = vec!["gpt".to_string(), "mini".to_string()];
    let roles = vec!["coder".to_string()];
    let config = Config::new("gpt".to_string(), models, roles);
    ReplCmdHandler::with_clipboard(
        config,
        SharedAbortSignal::new(),
        ClipboardState::Unavailable("no clipboard".to_string()),
    )
}

fn emitted(r: Result<HandleOutcome, ReplError>) -> String {
    match r {
        Ok(HandleOutcome::Emitted(s)) => s,
        other => panic!("expected an emitted outcome, got {:?}", other),
    }
}

#[test]
fn empty_submit_is_a_no_op() {
    let mut h = test_handler();
    let before = h.config.clone();
    let r = h.handle(ReplCmd::Submit(String::new()));
    assert_eq!(emitted(r), "");
    assert_eq!(h.config, before);
    assert_eq!(h.config.sent_tokens, None);
}

#[test]
fn nonempty_submit_requests_an_exchange() {
    let mut h = test_handler();
    let r = h.handle(ReplCmd::Submit("hello".to_string()));
    assert_eq!(r, Ok(HandleOutcome::Exchange("hello".to_string())));
    assert_eq!(h.config.sent_tokens, Some(5));
}

#[test]
fn info_emits_the_configuration() {
    let mut h = test_handler();
    let r = h.handle(ReplCmd::Info);
    assert_eq!(
        emitted(r),
        "model: gpt\nrole: -\nsession: -\nauto_copy: false\nhighlight: false\n\n"
    );
}

#[test]
fn set_model_known_and_unknown() {
    let mut h = test_handler();
    let r = h.handle(ReplCmd::SetModel("mini".to_string()));
    assert_eq!(emitted(r), "\n");
    assert_eq!(h.config.model, "mini");
    let r2 = h.handle(ReplCmd::SetModel("bogus".to_string()));
    assert_eq!(r2, Err(ReplError::UnknownModel("bogus".to_string())));
    assert_eq!(h.config.model, "mini");
    assert_eq!(
        ReplError::UnknownModel("bogus".to_string()).message(),
        "Unknown model: bogus"
    );
}

#[test]
fn set_role_known_and_unknown() {
    let mut h = test_handler();
    let r = h.handle(ReplCmd::SetRole("coder".to_string()));
    assert_eq!(emitted(r), "\n");
    assert_eq!(h.config.role, Some("coder".to_string()));
    let r2 = h.handle(ReplCmd::SetRole("nope".to_string()));
    assert_eq!(r2, Err(ReplError::UnknownRole("nope".to_string())));
    assert_eq!(h.config.role, Some("coder".to_string()));
}

#[test]
fn role_info_without_role_fails_unchanged() {
    let mut h = test_handler();
    let before = h.config.clone();
    let r = h.handle(ReplCmd::RoleInfo);
    assert_eq!(r, Err(ReplError::NoRole));
    assert_eq!(ReplError::NoRole.message(), "No role");
    assert_eq!(h.config, before);
}

#[test]
fn role_info_with_role_emits_it() {
    let mut h = test_handler();
    emitted(h.handle(ReplCmd::SetRole("coder".to_string())));
    let r = h.handle(ReplCmd::RoleInfo);
    assert_eq!(emitted(r), "role: coder\n\n");
}

#[test]
fn exit_role_clears_the_role() {
    let mut h = test_handler();
    emitted(h.handle(ReplCmd::SetRole("coder".to_string())));
    let r = h.handle(ReplCmd::ExitRole);
    assert_eq!(emitted(r), "\n");
    assert_eq!(h.config.role, None);
}

#[test]
fn session_lifecycle() {
    let mut h = test_handler();
    let before = h.config.clone();
    assert_eq!(h.handle(ReplCmd::SessionInfo), Err(ReplError::NoSession));
    assert_eq!(ReplError::NoSession.message(), "No session");
    assert_eq!(h.config, before);
    let r = h.handle(ReplCmd::StartSession(Some("work".to_string())));
    assert_eq!(emitted(r), "\n");
    let r2 = h.handle(ReplCmd::StartSession(None));
    assert_eq!(r2, Err(ReplError::SessionAlreadyActive));
    let r3 = h.handle(ReplCmd::SessionInfo);
    assert_eq!(emitted(r3), "session: work\n\n");
    let r4 = h.handle(ReplCmd::ExitSession);
    assert_eq!(emitted(r4), "\n");
    assert_eq!(h.handle(ReplCmd::ExitSession), Err(ReplError::NoSession));
}

#[test]
fn anonymous_session_renders_a_dash() {
    let mut h = test_handler();
    emitted(h.handle(ReplCmd::StartSession(None)));
    let r = h.handle(ReplCmd::SessionInfo);
    assert_eq!(emitted(r), "session: -\n\n");
}

#[test]
fn set_config_updates_flags() {
    let mut h = test_handler();
    let r = h.handle(ReplCmd::SetConfig("auto_copy true".to_string()));
    assert_eq!(emitted(r), "\n");
    assert!(h.config.auto_copy);
    let r2 = h.handle(ReplCmd::SetConfig("highlight true".to_string()));
    assert_eq!(emitted(r2), "\n");
    assert!(h.config.highlight);
    let r3 = h.handle(ReplCmd::SetConfig("auto_copy false".to_string()));
    assert_eq!(emitted(r3), "\n");
    assert!(!h.config.auto_copy);
}

#[test]
fn set_config_rejects_bad_input() {
    let mut h = test_handler();
    assert_eq!(
        h.handle(ReplCmd::SetConfig("auto_copy maybe".to_string())),
        Err(ReplError::InvalidValue("maybe".to_string()))
    );
    assert_eq!(
        h.handle(ReplCmd::SetConfig("bogus true".to_string())),
        Err(ReplError::UnknownKey("bogus".to_string()))
    );
    assert_eq!(
        h.handle(ReplCmd::SetConfig("nospace".to_string())),
        Err(ReplError::InvalidValue("nospace".to_string()))
    );
    assert!(!h.config.auto_copy);
    assert!(!h.config.highlight);
    assert_eq!(
        ReplError::UnknownKey("bogus".to_string()).message(),
        "Unknown key: bogus"
    );
    assert_eq!(
        ReplError::InvalidValue("maybe".to_string()).message(),
        "Invalid value: maybe"
    );
}

#[test]
fn copy_without_binding_fails_with_context() {
    let mut h = test_handler();
    let r = h.handle(ReplCmd::Copy);
    assert_eq!(r, Err(ReplError::CopyFailed("no clipboard".to_string())));
    assert_eq!(
        ReplError::CopyFailed("no clipboard".to_string()).message(),
        "Failed to copy the last output: no clipboard"
    );
}

#[test]
fn copy_with_real_binding_copies_the_empty_reply() {
    let models = vec!["gpt".to_string()];
    let config = Config::new("gpt".to_string(), models, Vec::new());
    let mut h = ReplCmdHandler::init(config, SharedAbortSignal::new()).unwrap();
    match h.handle(ReplCmd::Copy) {
        Ok(HandleOutcome::Emitted(s)) => assert_eq!(s, "\n"),
        Err(ReplError::CopyFailed(_)) => {}
        other => panic!("unexpected outcome {:?}", other),
    }
}

#[test]
fn finish_submit_persists_the_exchange() {
    let mut h = test_handler();
    let r = h.finish_submit("question", Ok("answer".to_string()));
    assert_eq!(r, Ok(()));
    assert_eq!(h.config.messages.len(), 1);
    assert_eq!(
        h.config.last_message,
        Some(Message {
            input: "question".to_string(),
            reply: "answer".to_string()
        })
    );
}

#[test]
fn finish_submit_propagates_an_exchange_failure() {
    let mut h = test_handler();
    let before = h.config.clone();
    let r = h.finish_submit("question", Err("boom".to_string()));
    assert_eq!(r, Err(ReplError::ExchangeFailed("boom".to_string())));
    assert_eq!(ReplError::ExchangeFailed("boom".to_string()).message(), "boom");
    assert_eq!(h.config, before);
}

#[test]
fn auto_copy_failure_is_not_fatal_for_submit() {
    let mut h = test_handler();
    emitted(h.handle(ReplCmd::SetConfig("auto_copy true".to_string())));
    let r = h.finish_submit("question", Ok("answer".to_string()));
    assert_eq!(r, Ok(()));
    assert_eq!(h.config.messages.len(), 1);
}

#[test]
fn read_file_requests_the_file() {
    let mut h = test_handler();
    let r = h.handle(ReplCmd::ReadFile("notes.txt".to_string()));
    assert_eq!(r, Ok(HandleOutcome::FileRequest("notes.txt".to_string())));
}

#[test]
fn file_open_fault_never_submits() {
    let mut h = test_handler();
    let before = h.config.clone();
    let r = h.finish_read_file(Err(FileFault::Open("no such file".to_string())));
    assert_eq!(r, Err(ReplError::FileOpenFailed("no such file".to_string())));
    assert_eq!(
        ReplError::FileOpenFailed("no such file".to_string()).message(),
        "Unable to open file: no such file"
    );
    assert_eq!(h.config, before);
    assert_eq!(h.config.sent_tokens, None);
}

#[test]
fn file_read_fault_never_submits() {
    let mut h = test_handler();
    let before = h.config.clone();
    let r = h.finish_read_file(Err(FileFault::Read("bad encoding".to_string())));
    assert_eq!(r, Err(ReplError::FileReadFailed("bad encoding".to_string())));
    assert_eq!(
        ReplError::FileReadFailed("bad encoding".to_string()).message(),
        "Unable to read file: bad encoding"
    );
    assert_eq!(h.config, before);
}

#[test]
fn file_contents_are_submitted() {
    let mut h = test_handler();
    let r = h.finish_read_file(Ok("content".to_string()));
    assert_eq!(r, Ok(HandleOutcome::Exchange("content".to_string())));
    assert_eq!(h.config.sent_tokens, Some(7));
}

#[test]
fn empty_file_contents_are_a_no_op() {
    let mut h = test_handler();
    let r = h.finish_read_file(Ok(String::new()));
    assert_eq!(r, Ok(HandleOutcome::Emitted(String::new())));
    assert_eq!(h.config.sent_tokens, None);
}
