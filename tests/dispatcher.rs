use lwt_ng::{
    Command, DbResult, Dispatcher, DispatcherAction, DispatcherEvent, DispatcherState, GatewayCall,
    GatewayReply, LanguageStore, Pending, StorageError,
};

fn serve(d: &mut Dispatcher, store: &mut LanguageStore, command: Command) -> DbResult {
    match d.step(DispatcherEvent::Received { command }) {
        DispatcherAction::Call { call } => {
            let reply = store.execute(call);
            match d.step(DispatcherEvent::Replied { reply }) {
                DispatcherAction::Respond { result } => result,
                _ => panic!("no result for the reply"),
            }
        }
        _ => panic!("no call for the command"),
    }
}

#[test]
fn list_add_list_scenario() {
    let mut d = Dispatcher::new();
    let mut store = LanguageStore::new();
    match serve(&mut d, &mut store, Command::GetAllLanguages) {
        DbResult::GetAllLanguagesResult { lang_vec } => assert!(lang_vec.is_empty()),
        _ => panic!("expected a listing"),
    }
    let add = serve(&mut d, &mut store, Command::AddLanguage { name: String::from("French") });
    assert!(matches!(add, DbResult::AddLanguageResult));
    match serve(&mut d, &mut store, Command::GetAllLanguages) {
        DbResult::GetAllLanguagesResult { lang_vec } => {
            assert_eq!(lang_vec.len(), 1);
            assert_eq!(lang_vec[0].name(), "French");
        }
        _ => panic!("expected a listing"),
    }
}

#[test]
fn empty_name_scenario() {
    let mut d = Dispatcher::new();
    let mut store = LanguageStore::new();
    let add = serve(&mut d, &mut store, Command::AddLanguage { name: String::new() });
    match add {
        DbResult::Error { msg } => assert!(!msg.is_empty()),
        _ => panic!("expected an error"),
    }
    match serve(&mut d, &mut store, Command::GetAllLanguages) {
        DbResult::GetAllLanguagesResult { lang_vec } => assert!(lang_vec.is_empty()),
        _ => panic!("expected a listing"),
    }
}

#[test]
fn failure_then_next_command() {
    let mut d = Dispatcher::new();
    let a = d.step(DispatcherEvent::Received {
        command: Command::AddLanguage { name: String::from("Welsh") },
    });
    match a {
        DispatcherAction::Call { call: GatewayCall::CreateLanguage { name } } => assert_eq!(name, "Welsh"),
        _ => panic!("expected a create call"),
    }
    let failed = GatewayReply::Failed { error: StorageError::new(String::from("database is locked")) };
    match d.step(DispatcherEvent::Replied { reply: failed }) {
        DispatcherAction::Respond { result: DbResult::Error { msg } } => assert_eq!(msg, "database is locked"),
        _ => panic!("expected an error result"),
    }
    assert_eq!(d.state(), DispatcherState::Idle);
    let next = d.step(DispatcherEvent::Received { command: Command::GetAllLanguages });
    assert!(matches!(next, DispatcherAction::Call { call: GatewayCall::ListLanguages }));
    assert_eq!(d.state(), DispatcherState::Executing { pending: Pending::GetAllLanguages });
}

#[test]
fn failure_without_text_gets_fallback_message() {
    let mut d = Dispatcher::new();
    d.step(DispatcherEvent::Received { command: Command::GetAllLanguages });
    let failed = GatewayReply::Failed { error: StorageError::new(String::new()) };
    match d.step(DispatcherEvent::Replied { reply: failed }) {
        DispatcherAction::Respond { result: DbResult::Error { msg } } => {
            assert_eq!(msg, "storage operation failed")
        }
        _ => panic!("expected an error result"),
    }
}

#[test]
fn results_follow_command_order() {
    let mut d = Dispatcher::new();
    let mut store = LanguageStore::new();
    let commands = vec![
        Command::AddLanguage { name: String::from("a") },
        Command::GetAllLanguages,
        Command::AddLanguage { name: String::new() },
        Command::AddLanguage { name: String::from("b") },
        Command::GetAllLanguages,
    ];
    let n = commands.len();
    let results: Vec<DbResult> = commands.into_iter().map(|c| serve(&mut d, &mut store, c)).collect();
    assert_eq!(results.len(), n);
    assert!(matches!(results[0], DbResult::AddLanguageResult));
    match &results[1] {
        DbResult::GetAllLanguagesResult { lang_vec } => assert_eq!(lang_vec.len(), 1),
        _ => panic!("expected a listing"),
    }
    assert!(matches!(results[2], DbResult::Error { .. }));
    assert!(matches!(results[3], DbResult::AddLanguageResult));
    match &results[4] {
        DbResult::GetAllLanguagesResult { lang_vec } => {
            assert_eq!(lang_vec.len(), 2);
            assert_eq!(lang_vec[1].name(), "b");
        }
        _ => panic!("expected a listing"),
    }
}

#[test]
fn closed_queue_shuts_down_for_good() {
    let mut d = Dispatcher::new();
    assert!(matches!(d.step(DispatcherEvent::QueueClosed), DispatcherAction::Exit));
    assert!(d.is_shut_down());
    let after = d.step(DispatcherEvent::Received { command: Command::GetAllLanguages });
    assert!(matches!(after, DispatcherAction::Ignore));
    assert!(d.is_shut_down());
}

#[test]
fn mismatched_reply_is_ignored() {
    let mut d = Dispatcher::new();
    d.step(DispatcherEvent::Received { command: Command::GetAllLanguages });
    let a = d.step(DispatcherEvent::Replied { reply: GatewayReply::Created });
    assert!(matches!(a, DispatcherAction::Ignore));
    assert_eq!(d.state(), DispatcherState::Executing { pending: Pending::GetAllLanguages });
    let idle = Dispatcher::new();
    assert_eq!(idle.state(), DispatcherState::Idle);
}
