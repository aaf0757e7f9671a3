use comment_contract::policy::{contains_forbidden, validate_comment, validate_structured};
use comment_contract::{
    dag_get_args, gateway_output, get_timeout_string, is_nft_storage_link, is_profane, make_cmd_args, CommentPayload,
    Content, ContractError, GatewayConfig, SerdeMetadata, TextPolicy, ValidationError,
};

fn strings(v: &[&str]) -> Vec<String> {
    v.iter().map(|s| s.to_string()).collect()
}

#[test]
fn storage_links() {
    assert!(is_nft_storage_link(""));
    assert!(is_nft_storage_link("https://nftstorage.link/ipfs/abc"));
    assert!(!is_nft_storage_link("https://evil.example/x"));
    assert!(!is_nft_storage_link("https://nftstorage.link/ipf"));
}

#[test]
fn media_list_check() {
    let mut m = SerdeMetadata { cid: "c".to_string(), content: Content { text: "t".to_string(), medias: strings(&["", "https://nftstorage.link/ipfs/a"]) } };
    assert!(!m.is_invalid_media_link());
    m.content.medias.push("ftp://x".to_string());
    assert!(m.is_invalid_media_link());
}

#[test]
fn profanity_defaults_to_nothing() {
    assert!(!is_profane("anything at all"));
    assert!(!contains_forbidden("abc", &strings(&["", ""])));
    assert!(contains_forbidden("abc", &strings(&["", "bc"])));
    assert!(!contains_forbidden("abc", &strings(&["Bc"])));
}

#[test]
fn rules_apply_in_order() {
    let policy = TextPolicy { forbidden_words: strings(&["bad"]) };
    let m = SerdeMetadata { cid: "".to_string(), content: Content { text: "bad".to_string(), medias: strings(&["x"]) } };
    assert_eq!(validate_structured(&m, &policy), Err(ValidationError::EmptyCid));
    let m = SerdeMetadata { cid: "c".to_string(), content: Content { text: "bad".to_string(), medias: strings(&["x"]) } };
    assert_eq!(validate_structured(&m, &policy), Err(ValidationError::Profanity));
    let m = SerdeMetadata { cid: "c".to_string(), content: Content { text: "good".to_string(), medias: strings(&["x"]) } };
    assert_eq!(validate_structured(&m, &policy), Err(ValidationError::InvalidMediaLink));
    let m = SerdeMetadata { cid: "c".to_string(), content: Content { text: "good".to_string(), medias: vec![] } };
    assert_eq!(validate_structured(&m, &policy), Ok(()));
    let c = CommentPayload { text: "fine".to_string(), image: "http://x".to_string() };
    assert_eq!(validate_comment(&c, &policy), Err(ValidationError::InvalidMediaLink));
    let c = CommentPayload { text: "fine".to_string(), image: "".to_string() };
    assert_eq!(validate_comment(&c, &TextPolicy::permissive()), Ok(()));
}

#[test]
fn timeout_text() {
    assert_eq!(get_timeout_string(0), "0s");
    assert_eq!(get_timeout_string(10), "10s");
    assert_eq!(get_timeout_string(u64::MAX), "18446744073709551615s");
}

#[test]
fn command_options_are_appended() {
    let r = make_cmd_args(strings(&["dag", "get", "bafy"]), "/ip4/127.0.0.1/tcp/5001".to_string(), 7);
    assert_eq!(r, strings(&["dag", "get", "bafy", "--timeout", "7s", "--api", "/ip4/127.0.0.1/tcp/5001"]));
}

#[test]
fn fetch_command_uses_defaults() {
    let config = GatewayConfig { default_multiaddr: "/dns4/default/tcp/5001".to_string(), default_timeout_sec: 5 };
    let r = dag_get_args(&config, "bafy".to_string(), "".to_string(), 0);
    assert_eq!(r, strings(&["dag", "get", "bafy", "--timeout", "5s", "--api", "/dns4/default/tcp/5001"]));
    let r = dag_get_args(&config, "bafy".to_string(), "/ip4/1.1.1.1/tcp/1".to_string(), 30);
    assert_eq!(r, strings(&["dag", "get", "bafy", "--timeout", "30s", "--api", "/ip4/1.1.1.1/tcp/1"]));
}

#[test]
fn store_output_is_checked() {
    assert_eq!(gateway_output(0, "".to_string(), b"{\"a\":1}".to_vec()).ok(), Some("{\"a\":1}".to_string()));
    assert_eq!(gateway_output(0, "".to_string(), "é".as_bytes().to_vec()).ok(), Some("é".to_string()));
    match gateway_output(1, "no such block".to_string(), vec![]) {
        Err(e) => assert_eq!(e.message(), "Content store request failed: no such block"),
        Ok(_) => panic!("expected an error"),
    }
    match gateway_output(0, "".to_string(), vec![0xff, 0xfe]) {
        Err(e) => assert_eq!(e.message(), "Content store request failed: response is not valid UTF-8"),
        Ok(_) => panic!("expected an error"),
    }
}

#[test]
fn error_sentences() {
    assert_eq!(ContractError::Schema.message(), "Data does not follow the required JSON schema");
    assert_eq!(ContractError::Serialization.message(), "Unable to serialize content");
    assert_eq!(ContractError::Validation(ValidationError::EmptyCid).message(), "Cid cannot be empty.");
    assert_eq!(ContractError::Decode("Odd number of digits".to_string()).message(), "Invalid data structure: Odd number of digits");
}

#[test]
fn cloning_is_permitted() {
    assert!(comment_contract::on_clone());
}
