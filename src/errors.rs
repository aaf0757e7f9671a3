//! Error kinds of an invocation and the sentence each one reports.
use vstd::prelude::*;

use crate::policy::ValidationError;
use crate::types::{FinalMetadata, MetaContractResult};

verus! {

/// Why an invocation failed. Every kind is terminal for the invocation.
#[derive(Clone, Debug)]
pub enum ContractError {
    /// The payload does not have the expected shape.
    Schema,
    /// A field-level rule was broken.
    Validation(ValidationError),
    /// The output content could not be encoded.
    Serialization,
    /// The content store failed, timed out or answered with non-UTF-8 bytes.
    Gateway(String),
    /// Malformed hex or malformed binary layout.
    Decode(String),
    /// The fetched content does not have the expected record shape.
    Dataset(String),
}

/// The sentence reported for a broken rule.
pub open spec fn validation_message(e: ValidationError) -> Seq<char> {
    match e {
        ValidationError::EmptyCid => "Cid cannot be empty."@,
        ValidationError::EmptyText => "Text cannot be empty."@,
        ValidationError::Profanity => "Profanity found in the text."@,
        ValidationError::InvalidMediaLink => "Invalid media link format."@,
    }
}

/// The sentence reported for an error.
pub open spec fn message_of(e: ContractError) -> Seq<char> {
    match e {
        ContractError::Schema => "Data does not follow the required JSON schema"@,
        ContractError::Validation(v) => validation_message(v),
        ContractError::Serialization => "Unable to serialize content"@,
        ContractError::Gateway(m) => "Content store request failed: "@ + m@,
        ContractError::Decode(m) => "Invalid data structure: "@ + m@,
        ContractError::Dataset(m) => "Invalid data structure: "@ + m@,
    }
}

impl ContractError {
    /// The human-readable sentence for this error.
    pub fn message(&self) -> (r: String)
        ensures
            r@ == message_of(*self),
    {
        match self {
            ContractError::Schema => String::from_str("Data does not follow the required JSON schema"),
            ContractError::Validation(v) => match v {
                ValidationError::EmptyCid => String::from_str("Cid cannot be empty."),
                ValidationError::EmptyText => String::from_str("Text cannot be empty."),
                ValidationError::Profanity => String::from_str("Profanity found in the text."),
                ValidationError::InvalidMediaLink => String::from_str("Invalid media link format."),
            },
            ContractError::Serialization => String::from_str("Unable to serialize content"),
            ContractError::Gateway(m) => String::from_str("Content store request failed: ").concat(m.as_str()),
            ContractError::Decode(m) => String::from_str("Invalid data structure: ").concat(m.as_str()),
            ContractError::Dataset(m) => String::from_str("Invalid data structure: ").concat(m.as_str()),
        }
    }
}

impl MetaContractResult {
    /// A successful result carrying `records`, with an empty error string.
    pub open spec fn is_success_with(self, records: Seq<FinalMetadata>) -> bool {
        self.result && self.metadatas@ == records && self.error_string@.len() == 0
    }

    /// A failed result with no records and the sentence of `e`.
    pub open spec fn is_failure_of(self, e: ContractError) -> bool {
        !self.result && self.metadatas@.len() == 0 && self.error_string@ == message_of(e)
    }

    /// Success carrying `records`.
    pub fn success(records: Vec<FinalMetadata>) -> (r: MetaContractResult)
        ensures
            r.is_success_with(records@),
    {
        MetaContractResult { result: true, metadatas: records, error_string: String::new() }
    }

    /// Failure for `e`, with no records.
    pub fn failure(e: &ContractError) -> (r: MetaContractResult)
        ensures
            r.is_failure_of(*e),
    {
        MetaContractResult { result: false, metadatas: Vec::new(), error_string: e.message() }
    }
}

} // verus!
