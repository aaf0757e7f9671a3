//! Field-level rules on incoming payloads: required fields, the forbidden
//! word policy, and the allowed media host.
use vstd::prelude::*;

use crate::text::{contains, is_prefix, occurs_in, starts_with};
use crate::types::{CommentPayload, SerdeMetadata};

verus! {

/// Host prefix that every non-empty media link must start with.
pub open spec fn media_prefix() -> Seq<char> {
    "https://nftstorage.link/ipfs/"@
}

/// A media link is acceptable when empty or on the allowed host.
pub open spec fn allowed_link(link: Seq<char>) -> bool {
    link.len() == 0 || is_prefix(media_prefix(), link)
}

/// Some link of the list is not acceptable.
pub open spec fn has_invalid_link(links: Seq<String>) -> bool {
    exists|i: int| 0 <= i < links.len() && !allowed_link(#[trigger] links[i]@)
}

/// Some non-empty word of the list occurs in the text.
pub open spec fn has_forbidden(text: Seq<char>, words: Seq<String>) -> bool {
    exists|i: int| 0 <= i < words.len() && (#[trigger] words[i])@.len() > 0 && occurs_in(words[i]@, text)
}

/// Why a payload was refused.
#[derive(Clone, Copy, Debug, PartialEq, Eq, Structural)]
pub enum ValidationError {
    EmptyCid,
    EmptyText,
    Profanity,
    InvalidMediaLink,
}

/// The text policy: words that may not occur in a posted text.
/// An empty word never matches.
pub struct TextPolicy {
    pub forbidden_words: Vec<String>,
}

impl TextPolicy {
    /// A policy that forbids nothing.
    pub fn permissive() -> (r: TextPolicy)
        ensures
            r.forbidden_words@.len() == 0,
    {
        TextPolicy { forbidden_words: Vec::new() }
    }
}

/// The first rule that a structured payload breaks, if any.
pub open spec fn structured_error(m: SerdeMetadata, words: Seq<String>) -> Option<ValidationError> {
    if m.cid@.len() == 0 {
        Some(ValidationError::EmptyCid)
    } else if m.content.text@.len() == 0 {
        Some(ValidationError::EmptyText)
    } else if has_forbidden(m.content.text@, words) {
        Some(ValidationError::Profanity)
    } else if has_invalid_link(m.content.medias@) {
        Some(ValidationError::InvalidMediaLink)
    } else {
        None
    }
}

/// The first rule that a comment payload breaks, if any.
pub open spec fn comment_error(c: CommentPayload, words: Seq<String>) -> Option<ValidationError> {
    if c.text@.len() == 0 {
        Some(ValidationError::EmptyText)
    } else if has_forbidden(c.text@, words) {
        Some(ValidationError::Profanity)
    } else if !allowed_link(c.image@) {
        Some(ValidationError::InvalidMediaLink)
    } else {
        None
    }
}

/// Whether some non-empty word of `words` occurs in `text`.
pub fn contains_forbidden(text: &str, words: &Vec<String>) -> (r: bool)
    ensures
        r == has_forbidden(text@, words@),
{
    let mut i: usize = 0;
    while i < words.len()
        invariant
            i <= words.len(),
            forall|j: int| 0 <= j < i ==> !((#[trigger] words@[j])@.len() > 0 && occurs_in(words@[j]@, text@)),
        decreases words.len() - i,
    {
        let w = &words[i];
        if !w.as_str().is_empty() && contains(text, w.as_str()) {
            return true;
        }
        i = i + 1;
    }
    false
}

/// Whether `text` holds a word of the built-in list, which is empty: free
/// speech is the default, and a configured `TextPolicy` adds words.
pub fn is_profane(text: &str) -> (r: bool)
    ensures
        r == has_forbidden(text@, Seq::empty()),
        !r,
{
    let words: Vec<String> = Vec::new();
    contains_forbidden(text, &words)
}

/// Whether a media link is empty or on the allowed host.
pub fn is_nft_storage_link(link: &str) -> (r: bool)
    ensures
        r == allowed_link(link@),
{
    link.is_empty() || starts_with(link, "https://nftstorage.link/ipfs/")
}

impl SerdeMetadata {
    /// Whether some media link of the post is not acceptable.
    pub fn is_invalid_media_link(&self) -> (r: bool)
        ensures
            r == has_invalid_link(self.content.medias@),
    {
        let mut i: usize = 0;
        while i < self.content.medias.len()
            invariant
                i <= self.content.medias.len(),
                forall|j: int| 0 <= j < i ==> allowed_link(#[trigger] self.content.medias@[j]@),
            decreases self.content.medias.len() - i,
        {
            if !is_nft_storage_link(self.content.medias[i].as_str()) {
                assert(!allowed_link(self.content.medias@[i as int]@));
                return true;
            }
            i = i + 1;
        }
        false
    }
}

/// Checks a structured payload against the rules, in order.
pub fn validate_structured(m: &SerdeMetadata, policy: &TextPolicy) -> (r: Result<(), ValidationError>)
    ensures
        r == match structured_error(*m, policy.forbidden_words@) {
            Some(e) => Err(e),
            None => Ok(()),
        },
{
    if m.cid.as_str().is_empty() {
        Err(ValidationError::EmptyCid)
    } else if m.content.text.as_str().is_empty() {
        Err(ValidationError::EmptyText)
    } else if contains_forbidden(m.content.text.as_str(), &policy.forbidden_words) {
        Err(ValidationError::Profanity)
    } else if m.is_invalid_media_link() {
        Err(ValidationError::InvalidMediaLink)
    } else {
        Ok(())
    }
}

/// Checks a comment payload against the rules, in order.
pub fn validate_comment(c: &CommentPayload, policy: &TextPolicy) -> (r: Result<(), ValidationError>)
    ensures
        r == match comment_error(*c, policy.forbidden_words@) {
            Some(e) => Err(e),
            None => Ok(()),
        },
{
    if c.text.as_str().is_empty() {
        Err(ValidationError::EmptyText)
    } else if contains_forbidden(c.text.as_str(), &policy.forbidden_words) {
        Err(ValidationError::Profanity)
    } else if !is_nft_storage_link(c.image.as_str()) {
        Err(ValidationError::InvalidMediaLink)
    } else {
        Ok(())
    }
}

} // verus!
