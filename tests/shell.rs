use lwt_ng::{push_decimal, Command, DbResult, Language, ShellState, Status};

#[test]
fn bootstrap_only_on_first_frame() {
    let mut s = ShellState::new();
    assert!(!s.is_initialized());
    assert!(matches!(s.frame(None), Some(Command::GetAllLanguages)));
    assert!(s.is_initialized());
    assert!(s.frame(None).is_none());
    assert!(s.begin_frame().is_none());
}

#[test]
fn listing_replaces_cache_and_reports_count() {
    let mut s = ShellState::new();
    let langs = vec![Language::new(1, String::from("French")), Language::new(2, String::from("Czech"))];
    s.frame(Some(DbResult::GetAllLanguagesResult { lang_vec: langs }));
    assert_eq!(s.languages().len(), 2);
    assert_eq!(s.languages()[1].name(), "Czech");
    assert_eq!(s.status().text(), "Fetched all languages: 2");
    assert!(!s.status().is_error());
    s.apply_result(DbResult::GetAllLanguagesResult { lang_vec: Vec::new() });
    assert!(s.languages().is_empty());
    assert_eq!(s.status().text(), "Fetched all languages: 0");
}

#[test]
fn add_confirmation_only_updates_status() {
    let mut s = ShellState::new();
    s.apply_result(DbResult::GetAllLanguagesResult { lang_vec: vec![Language::new(1, String::from("Irish"))] });
    s.apply_result(DbResult::AddLanguageResult);
    assert_eq!(s.status().text(), "Language added");
    assert_eq!(s.languages().len(), 1);
}

#[test]
fn error_is_shown_verbatim() {
    let mut s = ShellState::new();
    s.apply_result(DbResult::Error { msg: String::from("UNIQUE constraint failed") });
    assert_eq!(s.status().text(), "Error: UNIQUE constraint failed");
    assert!(s.status().is_error());
}

#[test]
fn submit_sends_add_then_refresh_and_clears() {
    let mut s = ShellState::new();
    s.set_new_language_input(String::from("Polish"));
    assert!(s.can_submit());
    let cmds = s.submit_new_language();
    assert_eq!(cmds.len(), 2);
    match &cmds[0] {
        Command::AddLanguage { name } => assert_eq!(name, "Polish"),
        _ => panic!("expected an add command"),
    }
    assert!(matches!(cmds[1], Command::GetAllLanguages));
    assert_eq!(s.new_language_input(), "");
    assert!(!s.can_submit());
}

#[test]
fn submit_empty_field_sends_nothing() {
    let mut s = ShellState::new();
    assert!(s.submit_new_language().is_empty());
    assert_eq!(s.new_language_input(), "");
}

#[test]
fn send_failure_is_reported() {
    let mut s = ShellState::new();
    s.note_send_failure();
    assert!(s.status().is_error());
    assert_eq!(s.status().text(), "Error: command queue closed");
}

#[test]
fn status_texts() {
    assert_eq!(Status::Blank.text(), "");
    assert_eq!(Status::Fetched { count: 1234 }.text(), "Fetched all languages: 1234");
    assert_eq!(Status::Failed { message: String::from("x") }.text(), "Error: x");
}

#[test]
fn decimal_digits() {
    let mut s = String::from("n=");
    push_decimal(&mut s, 0);
    assert_eq!(s, "n=0");
    let mut t = String::new();
    push_decimal(&mut t, 10);
    assert_eq!(t, "10");
    let mut u = String::new();
    push_decimal(&mut u, usize::MAX);
    assert_eq!(u, usize::MAX.to_string());
}
