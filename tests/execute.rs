use comment_contract::thread::{comment_entry, parse_thread, serialize_thread};
use comment_contract::{
    resume_execute, start_execute, CommentPayload, Content, ContractError, ExecuteConfig, ExecuteStep,
    ExecuteVariant, FinalComment, MetaContractResult, Metadata, Payload, SerdeMetadata, TextPolicy, Transaction,
};
use serde_json::Value;

fn tx(data: &str) -> Transaction {
    Transaction {
        hash: "h1".to_string(),
        method: "comment".to_string(),
        meta_contract_id: "mc-1".to_string(),
        data_key: "dk".to_string(),
        token_key: "tk".to_string(),
        data: data.to_string(),
        public_key: "author-key".to_string(),
        alias: "tx-alias".to_string(),
        timestamp: 5,
        chain_id: "1".to_string(),
        token_address: "0xabc".to_string(),
        token_id: "7".to_string(),
        version: "v-parent".to_string(),
        status: 0,
        mcdata: "".to_string(),
    }
}

fn meta(cid: &str, alias: &str) -> Metadata {
    Metadata {
        hash: "mh".to_string(),
        token_key: "tk".to_string(),
        data_key: "dk".to_string(),
        meta_contract_id: "mc-1".to_string(),
        token_id: "7".to_string(),
        alias: alias.to_string(),
        cid: cid.to_string(),
        public_key: "someone".to_string(),
        version: "".to_string(),
        loose: 0,
    }
}

fn config(variant: ExecuteVariant, words: Vec<&str>) -> ExecuteConfig {
    ExecuteConfig {
        variant,
        policy: TextPolicy { forbidden_words: words.into_iter().map(|w| w.to_string()).collect() },
        thread_by_alias: true,
    }
}

fn post(cid: &str, text: &str, medias: Vec<&str>) -> Payload {
    Payload::Structured(SerdeMetadata {
        cid: cid.to_string(),
        content: Content { text: text.to_string(), medias: medias.into_iter().map(|m| m.to_string()).collect() },
    })
}

fn field(v: &Value, k: &str) -> String {
    v.get(k).and_then(|x| x.as_str()).map(|s| s.to_string()).unwrap_or_default()
}

fn done(step: ExecuteStep) -> MetaContractResult {
    match step {
        ExecuteStep::Done(r) => r,
        ExecuteStep::Fetch(_) => panic!("expected a finished result"),
    }
}

fn entries_of(content: &str) -> Vec<Value> {
    serde_json::from_str::<Vec<Value>>(content).unwrap()
}

#[test]
fn empty_cid_is_rejected() {
    let r = done(start_execute(&config(ExecuteVariant::Structured, vec![]), &vec![], &tx(""), post("", "hi", vec![]), 1));
    assert!(!r.result);
    assert!(r.metadatas.is_empty());
    assert_eq!(r.error_string, "Cid cannot be empty.");
}

#[test]
fn empty_text_is_rejected() {
    let r = done(start_execute(&config(ExecuteVariant::Structured, vec![]), &vec![], &tx(""), post("bafy1", "", vec![]), 1));
    assert!(!r.result);
    assert!(r.metadatas.is_empty());
    assert_eq!(r.error_string, "Text cannot be empty.");
}

#[test]
fn empty_comment_text_is_rejected() {
    let p = Payload::Comment(CommentPayload { text: "".to_string(), image: "".to_string() });
    let r = done(start_execute(&config(ExecuteVariant::CommentOnly, vec![]), &vec![], &tx(""), p, 1));
    assert!(!r.result);
    assert!(r.metadatas.is_empty());
    assert_eq!(r.error_string, "Text cannot be empty.");
}

#[test]
fn forbidden_word_is_rejected() {
    let r = done(start_execute(&config(ExecuteVariant::Structured, vec!["", "darn"]), &vec![], &tx(""), post("bafy1", "oh darn it", vec![]), 1));
    assert!(!r.result);
    assert_eq!(r.error_string, "Profanity found in the text.");
}

#[test]
fn foreign_media_link_is_rejected_among_valid_ones() {
    let medias = vec!["", "https://nftstorage.link/ipfs/ok", "https://evil.example/x", ""];
    let r = done(start_execute(&config(ExecuteVariant::Structured, vec![]), &vec![], &tx(""), post("bafy1", "hi", medias), 1));
    assert!(!r.result);
    assert!(r.metadatas.is_empty());
    assert_eq!(r.error_string, "Invalid media link format.");
}

#[test]
fn malformed_payload_is_a_schema_error() {
    let r = done(start_execute(&config(ExecuteVariant::Structured, vec![]), &vec![], &tx(""), Payload::Malformed, 1));
    assert!(!r.result);
    assert_eq!(r.error_string, "Data does not follow the required JSON schema");
}

#[test]
fn pass_through_echoes_transaction() {
    let t = tx("{\"loose\":0}");
    let r = done(start_execute(&config(ExecuteVariant::PassThrough, vec![]), &vec![], &t, Payload::Simple(Some(0)), 1));
    assert!(r.result);
    assert_eq!(r.error_string, "");
    assert_eq!(r.metadatas.len(), 1);
    let m = &r.metadatas[0];
    assert_eq!(m.public_key, "mc-1");
    assert_eq!(m.alias, "tx-alias");
    assert_eq!(m.content, "{\"loose\":0}");
    assert_eq!(m.version, "v-parent");
    assert_eq!(m.loose, 0);
}

#[test]
fn pass_through_defaults_to_loose() {
    let r = done(start_execute(&config(ExecuteVariant::PassThrough, vec![]), &vec![], &tx("junk"), Payload::Simple(None), 1));
    assert!(r.result);
    assert_eq!(r.metadatas[0].loose, 1);
}

#[test]
fn comment_only_scenario() {
    let data = "{\"text\":\"hello\",\"image\":\"\"}";
    let v: Value = serde_json::from_str(data).unwrap();
    let p = Payload::Comment(CommentPayload { text: field(&v, "text"), image: field(&v, "image") });
    let r = done(start_execute(&config(ExecuteVariant::CommentOnly, vec![]), &vec![], &tx(data), p, 1700));
    assert!(r.result);
    assert_eq!(r.error_string, "");
    assert_eq!(r.metadatas.len(), 1);
    let m = &r.metadatas[0];
    assert_eq!(m.alias, "comments");
    assert_eq!(m.version, "");
    assert_eq!(m.loose, 1);
    assert_eq!(m.public_key, "mc-1");
    let entries = entries_of(&m.content);
    assert_eq!(entries.len(), 1);
    assert_eq!(field(&entries[0], "message"), "hello");
    assert_eq!(field(&entries[0], "from"), "author-key");
    assert_eq!(entries[0].get("timestamp").and_then(|t| t.as_u64()), Some(1700));
}

#[test]
fn structured_scenario_appends_to_fetched_thread() {
    let data = "{\"cid\":\"bafy123\",\"content\":{\"text\":\"hi\",\"medias\":[\"https://nftstorage.link/ipfs/xyz\"]}}";
    let v: Value = serde_json::from_str(data).unwrap();
    let content = v.get("content").unwrap();
    let medias: Vec<&str> = content.get("medias").unwrap().as_array().unwrap().iter().map(|m| m.as_str().unwrap()).collect();
    let p = post(&field(&v, "cid"), &field(content, "text"), medias);
    let metas = vec![meta("other", "comments"), meta("bafy123", "comments")];
    let step = start_execute(&config(ExecuteVariant::Structured, vec![]), &metas, &tx(data), p, 42);
    let pending = match step {
        ExecuteStep::Fetch(p) => p,
        ExecuteStep::Done(_) => panic!("expected a fetch"),
    };
    assert_eq!(pending.location, "bafy123");
    let prior = "{\"from\":\"earlier\",\"message\":\"first\",\"timestamp\":1}".to_string();
    let r = resume_execute(pending, Ok(vec![prior.clone()]));
    assert!(r.result);
    assert_eq!(r.metadatas.len(), 1);
    let m = &r.metadatas[0];
    assert_eq!(m.version, "bafy123");
    assert_eq!(m.alias, "comments");
    assert_eq!(m.loose, 0);
    let entries = entries_of(&m.content);
    assert_eq!(entries.len(), 2);
    assert_eq!(serde_json::to_string(&entries[0]).unwrap(), prior);
    assert_eq!(field(&entries[1], "message"), "hi");
    assert_eq!(field(&entries[1], "from"), "author-key");
}

#[test]
fn structured_scenario_with_foreign_link_fails() {
    let metas = vec![meta("bafy123", "comments")];
    let r = done(start_execute(&config(ExecuteVariant::Structured, vec![]), &metas, &tx(""), post("bafy123", "hi", vec!["https://evil.example/x"]), 1));
    assert!(!r.result);
    assert!(r.metadatas.is_empty());
    assert!(r.error_string.contains("Invalid media link format"));
}

#[test]
fn thread_without_alias_match_is_started_fresh() {
    let metas = vec![meta("bafy123", "other-alias")];
    let r = done(start_execute(&config(ExecuteVariant::Structured, vec![]), &metas, &tx(""), post("bafy123", "hi", vec![]), 9));
    assert!(r.result);
    let m = &r.metadatas[0];
    assert_eq!(m.version, "bafy123");
    assert_eq!(m.loose, 0);
    assert_eq!(entries_of(&m.content).len(), 1);
}

#[test]
fn thread_lookup_without_alias_filter_fetches() {
    let metas = vec![meta("bafy123", "other-alias")];
    let mut c = config(ExecuteVariant::Structured, vec![]);
    c.thread_by_alias = false;
    let step = start_execute(&c, &metas, &tx(""), post("bafy123", "hi", vec![]), 9);
    assert!(matches!(step, ExecuteStep::Fetch(_)));
}

#[test]
fn append_keeps_existing_entries() {
    let old = vec!["{\"a\":1}".to_string(), "[1,2]".to_string(), "\"x,y\"".to_string()];
    let pending = comment_contract::PendingThread {
        location: "c".to_string(),
        owner: "o".to_string(),
        version: "c".to_string(),
        loose: 0,
        comment: FinalComment::at("me".to_string(), "new".to_string(), 3),
    };
    let before = serialize_thread(&old);
    let r = resume_execute(pending, Ok(old.clone()));
    assert!(r.result);
    let after = &r.metadatas[0].content;
    assert!(after.starts_with(&before[..before.len() - 1]));
    let entries = entries_of(after);
    assert_eq!(entries.len(), 4);
    for i in 0..3 {
        assert_eq!(serde_json::to_string(&entries[i]).unwrap(), old[i]);
    }
    assert_eq!(field(&entries[3], "message"), "new");
}

#[test]
fn failed_fetch_is_reported() {
    let pending = comment_contract::PendingThread {
        location: "c".to_string(),
        owner: "o".to_string(),
        version: "c".to_string(),
        loose: 0,
        comment: FinalComment::at("me".to_string(), "new".to_string(), 3),
    };
    let r = resume_execute(pending, Err(ContractError::Gateway("timeout".to_string())));
    assert!(!r.result);
    assert!(r.metadatas.is_empty());
    assert_eq!(r.error_string, "Content store request failed: timeout");
}

#[test]
fn thread_text_round_trips() {
    let entries = vec![
        "{\"from\":\"a\",\"message\":\"m\",\"timestamp\":1}".to_string(),
        "{\"k\":[1,{\"z\":\"q,]\"}]}".to_string(),
        "null".to_string(),
    ];
    let text = serialize_thread(&entries);
    let back: Vec<String> = entries_of(&text).iter().map(|v| serde_json::to_string(v).unwrap()).collect();
    assert_eq!(back, entries);
    assert_eq!(serialize_thread(&vec![]), "[]");
}

#[test]
fn comment_entry_escapes_text() {
    let c = FinalComment::at("a\"b".to_string(), "line\nnext".to_string(), 12);
    let e = comment_entry(&c);
    assert_eq!(e, "{\"from\":\"a\\\"b\",\"message\":\"line\\nnext\",\"timestamp\":12}");
    let v: Value = serde_json::from_str(&e).unwrap();
    assert_eq!(field(&v, "from"), "a\"b");
    assert_eq!(field(&v, "message"), "line\nnext");
}

#[test]
fn new_comment_is_stamped_now() {
    let c = FinalComment::new("me".to_string(), "msg".to_string());
    assert_eq!(c.from, "me");
    assert_eq!(c.message, "msg");
    assert!(c.timestamp > 1_600_000_000_000);
}

#[test]
fn thread_text_is_read_back() {
    let entries = vec![
        "{\"from\":\"a\",\"message\":\"x, [y] \\\"z\\\"\",\"timestamp\":1}".to_string(),
        "[1,[2,3]]".to_string(),
        "\"\\\\\"".to_string(),
        "7".to_string(),
    ];
    assert_eq!(parse_thread(&serialize_thread(&entries)), Some(entries.clone()));
    assert_eq!(parse_thread("[]"), Some(vec![]));
    assert_eq!(parse_thread("[1,2]"), Some(vec!["1".to_string(), "2".to_string()]));
    assert_eq!(parse_thread("1,2"), None);
    assert_eq!(parse_thread("["), None);
}

#[test]
fn control_characters_are_escaped() {
    let c = FinalComment::at("\u{1}\\".to_string(), "tab\there".to_string(), 0);
    assert_eq!(comment_entry(&c), "{\"from\":\"\\u0001\\\\\",\"message\":\"tab\\there\",\"timestamp\":0}");
}
