use fusellm::config::GlobalConfig;
use fusellm::engine::FuseLlm;
use fusellm::error::FuseLlmError;
use fusellm::node::{FsNode, NodeKind, INO_CONVERSATIONS, INO_MODELS, INO_ROOT};
use fusellm::registry::InodeRegistry;
use fusellm::resolver::resolve_path;
use fusellm::state::FilesystemState;
use fusellm::wire::{decode_search_reply, encode_search_request, SearchRequest};

#[test]
fn interned_inode_looks_up_to_its_node() {
    let mut reg = InodeRegistry::new();
    let n = FsNode::ConversationDir { id: "chat1".to_string() };
    let ino = reg.intern(&n).unwrap();
    assert_eq!(ino, 10_000);
    assert!(reg.lookup_node(ino).unwrap().same_as(&n));
    assert_eq!(reg.intern(&n), Some(ino));
    reg.forget(ino);
    assert!(reg.lookup_node(ino).is_none());
    let again = reg.intern(&n).unwrap();
    assert_ne!(again, ino);
    assert_eq!(reg.intern(&FsNode::Root), Some(INO_ROOT));
    assert_eq!(reg.intern(&FsNode::NotFound), None);
}

#[test]
fn inode_ranges_tell_kinds_apart() {
    let mut reg = InodeRegistry::new();
    let p = reg.intern(&FsNode::PromptFile { conv_id: "c".to_string() }).unwrap();
    let q = reg.intern(&FsNode::QueryFile { index_id: "i".to_string() }).unwrap();
    let f = reg.intern(&FsNode::CorpusFile { index_id: "i".to_string(), file_name: "a".to_string() }).unwrap();
    assert!((20_000..30_000).contains(&p));
    assert!((300_000..400_000).contains(&q));
    assert!((200_000..300_000).contains(&f));
}

#[test]
fn paged_listing_covers_every_entry_once() {
    let mut config = GlobalConfig::default();
    config.models = vec!["a".to_string(), "b".to_string(), "c".to_string()];
    let mut e = FuseLlm::new(config);
    let fh = e.opendir(INO_MODELS).unwrap();
    let all = e.readdir(fh, 0).unwrap();
    let names: Vec<String> = all.iter().map(|(_, d)| d.name.clone()).collect();
    assert_eq!(names, vec![".", "..", "a", "b", "c", "default"]);
    let cookies: Vec<u64> = all.iter().map(|(c, _)| *c).collect();
    assert_eq!(cookies, vec![1, 2, 3, 4, 5, 6]);
    let mut seen = Vec::new();
    let mut offset = 0;
    loop {
        let page = e.readdir(fh, offset).unwrap();
        if page.is_empty() {
            break;
        }
        let (cookie, entry) = &page[0];
        seen.push(entry.name.clone());
        offset = *cookie;
    }
    assert_eq!(seen, names);
    assert!(e.readdir(fh, 6).unwrap().is_empty());
}

#[test]
fn root_listing_order() {
    let mut e = FuseLlm::new(GlobalConfig::default());
    let fh = e.opendir(INO_ROOT).unwrap();
    let names: Vec<String> = e.readdir(fh, 0).unwrap().iter().map(|(_, d)| d.name.clone()).collect();
    assert_eq!(names, vec![".", "..", "config", "conversations", "models", "semantic_search"]);
}

#[test]
fn lookup_fails_exactly_for_unlisted_names() {
    let mut e = FuseLlm::new(GlobalConfig::default());
    e.mkdir(INO_CONVERSATIONS, "chat1").unwrap();
    let fh = e.opendir(INO_CONVERSATIONS).unwrap();
    for (_, d) in e.readdir(fh, 2).unwrap() {
        assert!(e.lookup(INO_CONVERSATIONS, &d.name).is_ok(), "{}", d.name);
    }
    assert_eq!(e.lookup(INO_CONVERSATIONS, "chat2").unwrap_err(), FuseLlmError::NotFound);
    assert_eq!(e.lookup(INO_ROOT, "nope").unwrap_err(), FuseLlmError::NotFound);
}

#[test]
fn size_equals_length_of_full_read() {
    let mut e = FuseLlm::new(GlobalConfig::default());
    e.mkdir(INO_CONVERSATIONS, "c").unwrap();
    let dir = e.lookup(INO_CONVERSATIONS, "c").unwrap().0;
    let context = e.lookup(dir, "context").unwrap().0;
    let fh = e.open(context).unwrap();
    e.write(fh, 0, "héllo wörld".as_bytes()).unwrap();
    e.release(fh).unwrap();
    let attr = e.getattr(context).unwrap();
    assert_eq!(attr.kind, NodeKind::File);
    assert_eq!(attr.size, 13);
    assert_eq!(e.read(context, 0, u64::MAX).unwrap().len() as u64, attr.size);
    assert_eq!(e.read(context, 7, 3).unwrap(), b"w\xc3\xb6".to_vec());
    let settings = e.lookup(fusellm::node::INO_CONFIG, "settings").unwrap().0;
    assert_eq!(e.getattr(settings).unwrap().size, e.read(settings, 0, u64::MAX).unwrap().len() as u64);
    assert_eq!(e.getattr(dir).unwrap().size, 0);
}

#[test]
fn settings_render_quotes_strings() {
    let mut e = FuseLlm::new(GlobalConfig::default());
    let settings = e.lookup(fusellm::node::INO_CONFIG, "settings").unwrap().0;
    let text = String::from_utf8(e.read(settings, 0, u64::MAX).unwrap()).unwrap();
    assert_eq!(
        text,
        "models = []\ntemperature = 1.0\nsystem_prompt = \"You are a helpful assistant. Everything is a file. Even the LLM.\"\nservice_url = \"ipc:///tmp/fusellm-semantic.ipc\"\n"
    );
}

#[test]
fn search_request_encoding() {
    let text = encode_search_request(&SearchRequest::Add {
        index_id: "idx".to_string(),
        file_path: "a.txt".to_string(),
        content: "the \"cat\"".to_string(),
    });
    let v: serde_json::Value = serde_json::from_str(&text).unwrap();
    assert_eq!(v["command"], "add_document");
    assert_eq!(v["payload"]["index_id"], "idx");
    assert_eq!(v["payload"]["file_path"], "a.txt");
    assert_eq!(v["payload"]["content"], "the \"cat\"");
}

#[test]
fn search_reply_decoding() {
    assert_eq!(decode_search_reply(r#"{"status":"ok","data":"a.txt"}"#), Ok(Some("a.txt".to_string())));
    assert_eq!(decode_search_reply(r#"{"status":"ok"}"#), Ok(None));
    assert_eq!(decode_search_reply(r#"{"status":"ok","data":{"n":1}}"#), Ok(Some("{\"n\":1}".to_string())));
    assert_eq!(
        decode_search_reply(r#"{"status":"error","data":"no such index"}"#),
        Err(FuseLlmError::SearchFailure("no such index".to_string()))
    );
    assert_eq!(decode_search_reply(r#"{"status":"error"}"#), Err(FuseLlmError::SearchFailure("unknown error".to_string())));
    assert_eq!(decode_search_reply("garbage"), Err(FuseLlmError::SearchFailure("malformed reply".to_string())));
    assert_eq!(decode_search_reply(r#"{"status":"maybe"}"#), Err(FuseLlmError::SearchFailure("malformed reply".to_string())));
}

#[test]
fn invalid_utf8_prompt_is_invalid_input() {
    let mut e = FuseLlm::new(GlobalConfig::default());
    e.mkdir(INO_CONVERSATIONS, "c").unwrap();
    let dir = e.lookup(INO_CONVERSATIONS, "c").unwrap().0;
    let prompt = e.lookup(dir, "prompt").unwrap().0;
    let fh = e.open(prompt).unwrap();
    e.write(fh, 0, &[0xff, 0xfe]).unwrap();
    assert!(matches!(e.release(fh), Err(FuseLlmError::InvalidInput(_))));
}

#[test]
fn dangling_links_are_not_found() {
    let e = FuseLlm::new(GlobalConfig::default());
    assert_eq!(e.readlink(fusellm::node::INO_CONVERSATIONS_LATEST), Err(FuseLlmError::NotFound));
    assert_eq!(e.readlink(fusellm::node::INO_MODELS_DEFAULT), Err(FuseLlmError::NotFound));
    assert_eq!(e.readlink(fusellm::node::INO_SEMANTIC_SEARCH_DEFAULT), Err(FuseLlmError::NotFound));
}

#[test]
fn paths_resolve_component_by_component() {
    let mut st = FilesystemState::new(GlobalConfig::default());
    st.create_conversation("chat1".to_string()).unwrap();
    assert!(resolve_path("/conversations/chat1/prompt", &st).same_as(&FsNode::PromptFile { conv_id: "chat1".to_string() }));
    assert!(resolve_path("//conversations//chat1/", &st).same_as(&FsNode::ConversationDir { id: "chat1".to_string() }));
    assert!(resolve_path("/", &st).same_as(&FsNode::Root));
    assert!(resolve_path("", &st).same_as(&FsNode::Root));
    assert!(resolve_path("/conversations/latest", &st).same_as(&FsNode::ConversationsLatestSymlink));
    assert!(resolve_path("/conversations/nope/prompt", &st).same_as(&FsNode::NotFound));
    assert!(resolve_path("/config/settings", &st).same_as(&FsNode::GlobalSettingsFile));
}
