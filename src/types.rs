use vstd::prelude::*;

verus! {

/// Universal result envelope of every operation.
pub struct MetaContractResult {
    pub result: bool,
    pub metadatas: Vec<FinalMetadata>,
    pub error_string: String,
}

/// A record produced by an invocation.
pub struct FinalMetadata {
    pub public_key: String,
    pub alias: String,
    pub content: String,
    pub loose: i64,
    pub version: String,
}

/// An existing stored record, as seen by the host at invocation time.
#[derive(Clone, Debug)]
pub struct Metadata {
    pub hash: String,
    pub token_key: String,
    pub data_key: String,
    pub meta_contract_id: String,
    pub token_id: String,
    pub alias: String,
    pub cid: String,
    pub public_key: String,
    pub version: String,
    pub loose: i64,
}

/// One incoming request, read-only to this library.
#[derive(Clone, Debug)]
pub struct Transaction {
    pub hash: String,
    pub method: String,
    pub meta_contract_id: String,
    pub data_key: String,
    pub token_key: String,
    pub data: String,
    pub public_key: String,
    pub alias: String,
    pub timestamp: u64,
    pub chain_id: String,
    pub token_address: String,
    pub token_id: String,
    pub version: String,
    pub status: i64,
    pub mcdata: String,
}

/// Descriptor of the owning contract.
#[derive(Clone, Debug, Default)]
pub struct MetaContract {
    pub hash: String,
    pub token_key: String,
    pub meta_contract_id: String,
    pub public_key: String,
    pub cid: String,
}

/// Body of a structured post: text and attached media links.
#[derive(Clone, Debug, Default)]
pub struct Content {
    pub text: String,
    pub medias: Vec<String>,
}

/// Structured payload: the parent content identifier and the post.
#[derive(Clone, Debug, Default)]
pub struct SerdeMetadata {
    pub cid: String,
    pub content: Content,
}

/// Lightweight comment payload: text and one optional image link.
#[derive(Clone, Debug, Default)]
pub struct CommentPayload {
    pub text: String,
    pub image: String,
}

/// One entry of a comment thread.
#[derive(Clone, Debug)]
pub struct FinalComment {
    pub from: String,
    pub message: String,
    pub timestamp: u64,
}

/// One ownership record of a minted dataset.
#[derive(Clone, Debug)]
pub struct DataStructFork {
    pub owner: String,
    pub cid: String,
    pub version: String,
}

/// A display attribute of a token, in the marketplace layout.
#[derive(Clone, Debug)]
pub struct OpenSeaAttributes {
    pub display_type: String,
    pub trait_type: String,
    pub value: i32,
}

} // verus!
