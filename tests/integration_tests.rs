use fusellm::config::GlobalConfig;
use fusellm::error::FuseLlmError;
use fusellm::state::{FilesystemState, MessageRole};

#[test]
fn test_conversation_creation() {
    let config = GlobalConfig::default();
    let mut state = FilesystemState::new(config);

    let session_id = "test_session".to_string();
    state.create_conversation(session_id.clone()).unwrap();

    assert!(state.conversation_index(&session_id).is_some());
    let conv = &state.conversations[state.conversation_index(&session_id).unwrap()];
    assert_eq!(conv.id, session_id);
    assert!(conv.history.is_empty());
}

#[test]
fn duplicate_conversation_is_refused() {
    let mut state = FilesystemState::new(GlobalConfig::default());
    state.create_conversation("a".to_string()).unwrap();
    assert!(matches!(state.create_conversation("a".to_string()), Err(FuseLlmError::InvalidInput(_))));
}

#[test]
fn turns_alternate_and_reply_is_shown() {
    let mut state = FilesystemState::new(GlobalConfig::default());
    state.create_conversation("c".to_string()).unwrap();
    state.begin_request("c", "q1".to_string()).unwrap();
    assert_eq!(state.begin_request("c", "again".to_string()), Err(FuseLlmError::Busy));
    state.end_request("c", Ok("a1".to_string())).unwrap();
    state.begin_request("c", "q2".to_string()).unwrap();
    state.end_request("c", Ok("a2".to_string())).unwrap();
    let conv = &state.conversations[0];
    let roles: Vec<MessageRole> = conv.history.iter().map(|m| m.role).collect();
    assert_eq!(roles, vec![MessageRole::User, MessageRole::Assistant, MessageRole::User, MessageRole::Assistant]);
    assert_eq!(conv.latest_response, "a2");
    assert_eq!(conv.format_history(), "user: q1\nassistant: a1\nuser: q2\nassistant: a2\n");
}

#[test]
fn failed_request_withdraws_turn_and_shows_error() {
    let mut state = FilesystemState::new(GlobalConfig::default());
    state.create_conversation("c".to_string()).unwrap();
    state.begin_request("c", "q".to_string()).unwrap();
    state.end_request("c", Err("timeout".to_string())).unwrap();
    let conv = &state.conversations[0];
    assert!(conv.history.is_empty());
    assert!(!conv.is_processing);
    assert_eq!(conv.latest_response, "error: timeout");
}

#[test]
fn busy_conversation_cannot_be_removed() {
    let mut state = FilesystemState::new(GlobalConfig::default());
    state.create_conversation("c".to_string()).unwrap();
    state.begin_request("c", "q".to_string()).unwrap();
    assert_eq!(state.drop_conversation("c"), Err(FuseLlmError::Busy));
    state.end_request("c", Ok("a".to_string())).unwrap();
    assert_eq!(state.drop_conversation("c"), Ok(()));
    assert_eq!(state.drop_conversation("c"), Err(FuseLlmError::NotFound));
}

#[test]
fn corpus_set_keeps_one_copy() {
    let mut state = FilesystemState::new(GlobalConfig::default());
    state.create_index("idx".to_string()).unwrap();
    state.add_corpus_file("idx", "a.txt".to_string()).unwrap();
    state.add_corpus_file("idx", "a.txt".to_string()).unwrap();
    assert_eq!(state.search_indexes[0].corpus_files, vec!["a.txt".to_string()]);
    state.remove_corpus_file("idx", "a.txt").unwrap();
    assert_eq!(state.remove_corpus_file("idx", "a.txt"), Err(FuseLlmError::NotFound));
    assert_eq!(state.add_corpus_file("nope", "x".to_string()), Err(FuseLlmError::NotFound));
}
