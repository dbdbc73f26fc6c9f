use fusellm::config::GlobalConfig;
use fusellm::engine::{Action, FuseLlm, Outcome};
use fusellm::error::FuseLlmError;
use fusellm::node::{INO_CONFIG, INO_CONFIG_SETTINGS, INO_CONVERSATIONS, INO_CONVERSATIONS_LATEST, INO_MODELS, INO_SEMANTIC_SEARCH};
use fusellm::state::MessageRole;
use fusellm::wire::SearchRequest;

fn engine_with_models() -> FuseLlm {
    let mut config = GlobalConfig::default();
    config.models = vec!["gpt-4".to_string()];
    config.default_model = Some("gpt-4".to_string());
    FuseLlm::new(config)
}

fn write_file(e: &mut FuseLlm, ino: u64, data: &str) -> Result<Action, FuseLlmError> {
    let fh = e.open(ino)?;
    assert_eq!(e.write(fh, 0, data.as_bytes())?, data.len());
    e.release(fh)
}

fn read_all(e: &FuseLlm, ino: u64) -> String {
    String::from_utf8(e.read(ino, 0, 1 << 20).unwrap()).unwrap()
}

fn child(e: &mut FuseLlm, parent: u64, name: &str) -> u64 {
    e.lookup(parent, name).unwrap().0
}

fn make_conversation(e: &mut FuseLlm, name: &str) -> u64 {
    match e.mkdir(INO_CONVERSATIONS, name).unwrap() {
        Outcome::Entry(ino, _) => ino,
        other => panic!("unexpected {other:?}"),
    }
}

#[test]
fn stateless_model_query() {
    let mut e = engine_with_models();
    let model = child(&mut e, INO_MODELS, "gpt-4");
    let action = write_file(&mut e, model, "hi\n").unwrap();
    match &action {
        Action::ModelQuery { model, messages, .. } => {
            assert_eq!(model, "gpt-4");
            let last = messages.last().unwrap();
            assert_eq!(last.role, MessageRole::User);
            assert_eq!(last.content, "hi");
        },
        other => panic!("unexpected {other:?}"),
    }
    e.complete(&action, Ok("hello".to_string())).unwrap();
    assert_eq!(read_all(&e, model), "hello");
    assert_eq!(e.state.model_response("gpt-4"), Some("hello".to_string()));
}

#[test]
fn model_state_records_last_reply() {
    let mut e = engine_with_models();
    let model = child(&mut e, INO_MODELS, "gpt-4");
    let action = write_file(&mut e, model, "hi\n").unwrap();
    e.complete(&action, Ok("hello".to_string())).unwrap();
    assert_eq!(e.state.model_last_response, vec![("gpt-4".to_string(), "hello".to_string())]);
}

#[test]
fn conversation_turn() {
    let mut e = engine_with_models();
    let dir = make_conversation(&mut e, "chat1");
    let prompt = child(&mut e, dir, "prompt");
    let action = write_file(&mut e, prompt, "2+2?\n").unwrap();
    match &action {
        Action::Chat { conversation, model, messages, .. } => {
            assert_eq!(conversation, "chat1");
            assert_eq!(model, "gpt-4");
            assert_eq!(messages[0].role, MessageRole::System);
            assert_eq!(messages.last().unwrap().content, "2+2?");
        },
        other => panic!("unexpected {other:?}"),
    }
    e.complete(&action, Ok("4".to_string())).unwrap();
    let history = child(&mut e, dir, "history");
    assert_eq!(read_all(&e, history), "user: 2+2?\nassistant: 4\n");
    assert_eq!(read_all(&e, prompt), "4");
    assert_eq!(e.readlink(INO_CONVERSATIONS_LATEST).unwrap(), "chat1");
}

#[test]
fn context_prefixes_next_prompt_and_persists() {
    let mut e = engine_with_models();
    let dir = make_conversation(&mut e, "chat1");
    let context = child(&mut e, dir, "context");
    assert!(matches!(write_file(&mut e, context, "be terse\n").unwrap(), Action::Nothing));
    let prompt = child(&mut e, dir, "prompt");
    let action = write_file(&mut e, prompt, "2+2?\n").unwrap();
    match &action {
        Action::Chat { messages, .. } => {
            let last = messages.last().unwrap();
            assert_eq!(last.role, MessageRole::User);
            assert_eq!(last.content, "be terse\n\n2+2?");
        },
        other => panic!("unexpected {other:?}"),
    }
    e.complete(&action, Ok("4".to_string())).unwrap();
    assert_eq!(read_all(&e, context), "be terse");
}

#[test]
fn second_prompt_while_pending_is_busy() {
    let mut e = engine_with_models();
    let dir = make_conversation(&mut e, "chat1");
    let prompt = child(&mut e, dir, "prompt");
    let first = e.open(prompt).unwrap();
    let second = e.open(prompt).unwrap();
    assert_eq!(e.write(first, 0, b"one\n").unwrap(), 4);
    assert_eq!(e.write(second, 0, b"two\n").unwrap(), 4);
    let action = e.release(first).unwrap();
    assert!(matches!(action, Action::Chat { .. }));
    assert_eq!(e.release(second).unwrap_err(), FuseLlmError::Busy);
    e.complete(&action, Ok("done".to_string())).unwrap();
    let history = child(&mut e, dir, "history");
    assert_eq!(read_all(&e, history), "user: one\nassistant: done\n");
}

#[test]
fn invalid_temperature_is_rejected_and_settings_kept() {
    let mut e = engine_with_models();
    let settings = child(&mut e, INO_CONFIG, "settings");
    assert_eq!(settings, INO_CONFIG_SETTINGS);
    let before = e.read(settings, 0, 1 << 20).unwrap();
    let r = write_file(&mut e, settings, "temperature = 5.0\n");
    assert!(matches!(r, Err(FuseLlmError::InvalidInput(_))));
    assert_eq!(e.read(settings, 0, 1 << 20).unwrap(), before);
}

#[test]
fn corpus_round_trip() {
    let mut e = engine_with_models();
    let create = match e.mkdir(INO_SEMANTIC_SEARCH, "idx").unwrap() {
        Outcome::Pending(a) => a,
        other => panic!("unexpected {other:?}"),
    };
    assert!(matches!(&create, Action::Search(SearchRequest::CreateIndex { index_id }) if index_id == "idx"));
    e.complete(&create, Ok(String::new())).unwrap();
    let idx = child(&mut e, INO_SEMANTIC_SEARCH, "idx");
    let corpus = child(&mut e, idx, "corpus");
    let (file, fh, _) = e.create(corpus, "a.txt").unwrap();
    e.write(fh, 0, b"the cat sat\n").unwrap();
    let add = e.release(fh).unwrap();
    match &add {
        Action::Search(SearchRequest::Add { index_id, file_path, content }) => {
            assert_eq!(index_id, "idx");
            assert_eq!(file_path, "a.txt");
            assert_eq!(content, "the cat sat\n");
        },
        other => panic!("unexpected {other:?}"),
    }
    e.complete(&add, Ok(String::new())).unwrap();
    assert_eq!(e.state.search_indexes[0].corpus_files, vec!["a.txt".to_string()]);
    assert_eq!(child(&mut e, corpus, "a.txt"), file);

    let query = child(&mut e, idx, "query");
    let ask = write_file(&mut e, query, "feline\n").unwrap();
    assert!(matches!(&ask, Action::Search(SearchRequest::Query { query_text, .. }) if query_text == "feline"));
    e.complete(&ask, Ok("a.txt: the cat sat".to_string())).unwrap();
    assert!(read_all(&e, query).contains("a.txt"));

    let remove = match e.unlink(corpus, "a.txt").unwrap() {
        Outcome::Pending(a) => a,
        other => panic!("unexpected {other:?}"),
    };
    assert!(matches!(&remove, Action::Search(SearchRequest::Remove { file_path, .. }) if file_path == "a.txt"));
    e.complete(&remove, Ok(String::new())).unwrap();
    assert!(e.state.search_indexes[0].corpus_files.is_empty());
    assert_eq!(e.lookup(corpus, "a.txt").unwrap_err(), FuseLlmError::NotFound);
}

#[test]
fn refused_document_is_not_added() {
    let mut e = engine_with_models();
    let create = match e.mkdir(INO_SEMANTIC_SEARCH, "idx").unwrap() {
        Outcome::Pending(a) => a,
        other => panic!("unexpected {other:?}"),
    };
    e.complete(&create, Ok(String::new())).unwrap();
    let idx = child(&mut e, INO_SEMANTIC_SEARCH, "idx");
    let corpus = child(&mut e, idx, "corpus");
    let (_, fh, _) = e.create(corpus, "b.txt").unwrap();
    e.write(fh, 0, b"text").unwrap();
    let add = e.release(fh).unwrap();
    assert_eq!(e.complete(&add, Err("disk full".to_string())), Err(FuseLlmError::SearchFailure("disk full".to_string())));
    assert!(e.state.search_indexes[0].corpus_files.is_empty());
}

#[test]
fn failed_chat_shows_error_in_prompt() {
    let mut e = engine_with_models();
    let dir = make_conversation(&mut e, "c");
    let prompt = child(&mut e, dir, "prompt");
    let action = write_file(&mut e, prompt, "hello\n").unwrap();
    assert_eq!(e.complete(&action, Err("401".to_string())), Err(FuseLlmError::LlmFailure("401".to_string())));
    assert_eq!(read_all(&e, prompt), "error: 401");
    let history = child(&mut e, dir, "history");
    assert_eq!(read_all(&e, history), "");
}

#[test]
fn writes_elsewhere_are_refused() {
    let mut e = engine_with_models();
    let dir = make_conversation(&mut e, "c");
    let history = child(&mut e, dir, "history");
    let fh = e.open(history).unwrap();
    assert_eq!(e.write(fh, 0, b"x"), Err(FuseLlmError::AccessDenied));
    assert!(matches!(e.mkdir(INO_MODELS, "x"), Err(FuseLlmError::AccessDenied)));
    assert!(matches!(e.create(dir, "x"), Err(FuseLlmError::AccessDenied)));
    assert!(matches!(e.unlink(dir, "history"), Err(FuseLlmError::AccessDenied)));
    assert!(matches!(e.mkdir(INO_CONVERSATIONS, "latest"), Err(FuseLlmError::InvalidInput(_))));
    assert!(matches!(e.mkdir(INO_CONVERSATIONS, "a/b"), Err(FuseLlmError::InvalidInput(_))));
    assert!(matches!(e.mkdir(999_999_999, "x"), Err(FuseLlmError::NotFound)));
}

#[test]
fn out_of_order_chunks_assemble_one_message() {
    let mut e = engine_with_models();
    let dir = make_conversation(&mut e, "c");
    let prompt = child(&mut e, dir, "prompt");
    let fh = e.open(prompt).unwrap();
    e.write(fh, 6, b"world\n").unwrap();
    e.write(fh, 0, b"hello ").unwrap();
    match e.release(fh).unwrap() {
        Action::Chat { messages, .. } => assert_eq!(messages.last().unwrap().content, "hello world"),
        other => panic!("unexpected {other:?}"),
    }
}

#[test]
fn unlink_prompt_clears_response() {
    let mut e = engine_with_models();
    let dir = make_conversation(&mut e, "c");
    let prompt = child(&mut e, dir, "prompt");
    let action = write_file(&mut e, prompt, "q\n").unwrap();
    e.complete(&action, Ok("a".to_string())).unwrap();
    assert!(matches!(e.unlink(dir, "prompt").unwrap(), Outcome::Done));
    assert_eq!(read_all(&e, prompt), "");
}

#[test]
fn removed_conversation_inode_is_retired() {
    let mut e = engine_with_models();
    let dir = make_conversation(&mut e, "c");
    assert!(matches!(e.rmdir(INO_CONVERSATIONS, "c").unwrap(), Outcome::Done));
    assert_eq!(e.getattr(dir).unwrap_err(), FuseLlmError::NotFound);
    let again = make_conversation(&mut e, "c");
    assert_ne!(again, dir);
}

#[test]
fn conversation_settings_files() {
    let mut e = engine_with_models();
    let dir = make_conversation(&mut e, "c");
    let config = child(&mut e, dir, "config");
    let model = child(&mut e, config, "model");
    assert_eq!(read_all(&e, model), "gpt-4\n");
    write_file(&mut e, model, "gpt-3.5\n").unwrap();
    assert_eq!(read_all(&e, model), "gpt-3.5\n");
    let settings = child(&mut e, config, "settings");
    write_file(&mut e, settings, "temperature = 0.7\n").unwrap();
    assert_eq!(read_all(&e, settings), "model = \"gpt-3.5\"\nsystem_prompt = \"\"\ntemperature = 0.7\n");
}

#[test]
fn fsync_commits_and_keeps_handle_open() {
    let mut e = engine_with_models();
    let dir = make_conversation(&mut e, "c");
    let context = child(&mut e, dir, "context");
    let fh = e.open(context).unwrap();
    e.write(fh, 0, b"first\n").unwrap();
    assert!(matches!(e.fsync(fh).unwrap(), Action::Nothing));
    assert_eq!(read_all(&e, context), "first");
    e.write(fh, 0, b"second\n").unwrap();
    assert!(matches!(e.release(fh).unwrap(), Action::Nothing));
    assert_eq!(read_all(&e, context), "second");
    assert_eq!(e.release(fh).unwrap_err(), FuseLlmError::NotFound);
}

#[test]
fn name_limit_counts_bytes() {
    let mut e = engine_with_models();
    let ok: String = std::iter::repeat('\u{e9}').take(127).collect();
    let too_long: String = std::iter::repeat('\u{e9}').take(128).collect();
    assert!(matches!(e.mkdir(INO_CONVERSATIONS, &ok), Ok(Outcome::Entry(_, _))));
    assert!(matches!(e.mkdir(INO_CONVERSATIONS, &too_long), Err(FuseLlmError::InvalidInput(_))));
}
