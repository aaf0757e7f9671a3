//! The execute operation, as decisions around the one content-store fetch:
//! `start_execute` validates the payload and either answers at once or asks
//! for the current thread; `resume_execute` finishes with what was fetched.
use vstd::prelude::*;

use crate::errors::ContractError;
use crate::text::{is_prefix, texts};
use crate::policy::{
    allowed_link, comment_error, has_forbidden, has_invalid_link, media_prefix, structured_error,
    validate_comment, validate_structured, TextPolicy,
};
use crate::thread::{
    append_comment, entry_of, find_thread, has_thread, lemma_append_keeps_prefix, thread_alias, thread_record,
    thread_text,
};
use crate::types::{
    CommentPayload, FinalComment, FinalMetadata, MetaContractResult, Metadata, SerdeMetadata, Transaction,
};

verus! {

/// Which behaviour a contract has on execute.
#[derive(Clone, Copy, Debug, PartialEq, Eq, Structural)]
pub enum ExecuteVariant {
    /// Echo the transaction as one loose record.
    PassThrough,
    /// Append a structured post to the thread of its declared parent.
    Structured,
    /// Start a one-comment thread with no parent.
    CommentOnly,
}

/// Configuration of the execute operation.
pub struct ExecuteConfig {
    pub variant: ExecuteVariant,
    pub policy: TextPolicy,
    /// Whether an existing thread must also be marked as a thread.
    pub thread_by_alias: bool,
}

/// A transaction's payload, as decoded for the configured variant.
pub enum Payload {
    /// The simple shape: its looseness, or `None` when it did not decode.
    Simple(Option<i64>),
    Structured(SerdeMetadata),
    Comment(CommentPayload),
    /// The payload does not have the shape the variant expects.
    Malformed,
}

/// A comment waiting for the current content of its thread.
pub struct PendingThread {
    /// Content identifier of the thread to fetch.
    pub location: String,
    pub owner: String,
    pub version: String,
    pub loose: i64,
    pub comment: FinalComment,
}

/// What the host does next.
pub enum ExecuteStep {
    /// The invocation is finished with this result.
    Done(MetaContractResult),
    /// Fetch the block at `location`, then call `resume_execute`.
    Fetch(PendingThread),
}

/// The record that echoes a transaction; a payload that did not decode is
/// loose.
pub open spec fn pass_through_record(tx: Transaction, payload: Payload) -> FinalMetadata {
    FinalMetadata {
        public_key: tx.meta_contract_id,
        alias: tx.alias,
        content: tx.data,
        loose: match payload {
            Payload::Simple(Some(l)) => l,
            _ => 1,
        },
        version: tx.version,
    }
}

/// `p` holds the comment of a structured post, chained to its declared
/// parent, whose thread is fetched from that parent.
pub open spec fn is_structured_pending(p: PendingThread, tx: Transaction, m: SerdeMetadata, timestamp: u64) -> bool {
    p.location@ == m.cid@ && p.owner@ == tx.meta_contract_id@ && p.version@ == m.cid@ && p.loose == 0
        && p.comment.from@ == tx.public_key@ && p.comment.message@ == m.content.text@
        && p.comment.timestamp == timestamp
}

/// The result of republishing a thread with the given `entries`: a success
/// with one record holding that content.
pub open spec fn is_thread_result(
    r: MetaContractResult,
    owner: Seq<char>,
    version: Seq<char>,
    loose: i64,
    entries: Seq<Seq<char>>,
) -> bool {
    let rec = r.metadatas@[0];
    r.result && r.error_string@.len() == 0 && r.metadatas@.len() == 1 && rec.public_key@ == owner
        && rec.alias@ == thread_alias() && rec.content@ == thread_text(entries) && rec.version@ == version
        && rec.loose == loose
}

/// The result of appending the comment of `p` after `entries`.
pub open spec fn is_append_result(r: MetaContractResult, p: PendingThread, entries: Seq<Seq<char>>) -> bool {
    is_thread_result(r, p.owner@, p.version@, p.loose, entries.push(entry_of(p.comment)))
}

/// Appends the comment of `pending` to `entries` and republishes the thread.
pub fn finish_thread(pending: PendingThread, entries: Vec<String>) -> (r: MetaContractResult)
    ensures
        is_append_result(r, pending, texts(entries@)),
{
    let all = append_comment(entries, &pending.comment);
    let rec = thread_record(pending.owner, pending.version, pending.loose, &all);
    let mut records: Vec<FinalMetadata> = Vec::new();
    records.push(rec);
    let r = MetaContractResult::success(records);
    assert(r.metadatas@[0] == rec);
    r
}

/// Continues an execute once the thread's block was fetched: `fetched` holds
/// its entries, as JSON texts in order, or the error of the fetch or decode.
pub fn resume_execute(pending: PendingThread, fetched: Result<Vec<String>, ContractError>) -> (r: MetaContractResult)
    ensures
        match fetched {
            Ok(v) => is_append_result(r, pending, texts(v@)),
            Err(e) => r.is_failure_of(e),
        },
{
    match fetched {
        Ok(v) => finish_thread(pending, v),
        Err(e) => MetaContractResult::failure(&e),
    }
}

/// What `start_execute` yields for a configuration, the stored records, a
/// transaction, its decoded payload and the comment's timestamp.
pub open spec fn is_execute_step(
    config: ExecuteConfig,
    metas: Seq<Metadata>,
    tx: Transaction,
    payload: Payload,
    timestamp: u64,
    r: ExecuteStep,
) -> bool {
    match config.variant {
        ExecuteVariant::PassThrough => r is Done && r->Done_0.is_success_with(
            seq![pass_through_record(tx, payload)],
        ),
        ExecuteVariant::Structured => match payload {
            Payload::Structured(m) => match structured_error(m, config.policy.forbidden_words@) {
                Some(e) => r is Done && r->Done_0.is_failure_of(ContractError::Validation(e)),
                None => if has_thread(metas, m.cid@, config.thread_by_alias) {
                    r is Fetch && is_structured_pending(r->Fetch_0, tx, m, timestamp)
                } else {
                    r is Done && is_thread_result(
                        r->Done_0,
                        tx.meta_contract_id@,
                        m.cid@,
                        0,
                        seq![entry_of((FinalComment { from: tx.public_key, message: m.content.text, timestamp }))],
                    )
                },
            },
            _ => r is Done && r->Done_0.is_failure_of(ContractError::Schema),
        },
        ExecuteVariant::CommentOnly => match payload {
            Payload::Comment(c) => match comment_error(c, config.policy.forbidden_words@) {
                Some(e) => r is Done && r->Done_0.is_failure_of(ContractError::Validation(e)),
                None => r is Done && is_thread_result(
                    r->Done_0,
                    tx.meta_contract_id@,
                    Seq::empty(),
                    1,
                    seq![entry_of((FinalComment { from: tx.public_key, message: c.text, timestamp }))],
                ),
            },
            _ => r is Done && r->Done_0.is_failure_of(ContractError::Schema),
        },
    }
}

/// Whether this contract permits cloning: it always does.
pub fn on_clone() -> (r: bool)
    ensures
        r,
{
    true
}

/// The echo record of the pass-through variant.
fn pass_through(tx: &Transaction, payload: &Payload) -> (r: MetaContractResult)
    ensures
        r.is_success_with(seq![pass_through_record(*tx, *payload)]),
{
    let loose: i64 = match payload {
        Payload::Simple(Some(l)) => *l,
        _ => 1,
    };
    let rec = FinalMetadata {
        public_key: tx.meta_contract_id.clone(),
        alias: tx.alias.clone(),
        content: tx.data.clone(),
        loose,
        version: tx.version.clone(),
    };
    let mut records: Vec<FinalMetadata> = Vec::new();
    records.push(rec);
    let r = MetaContractResult::success(records);
    assert(r.metadatas@ =~= seq![pass_through_record(*tx, *payload)]);
    r
}

/// Starts an execute: validates `payload` under the configured variant and
/// either finishes, or asks for the block of the parent's existing thread.
/// `timestamp` stamps the new comment.
pub fn start_execute(
    config: &ExecuteConfig,
    metadatas: &Vec<Metadata>,
    tx: &Transaction,
    payload: Payload,
    timestamp: u64,
) -> (r: ExecuteStep)
    ensures
        is_execute_step(*config, metadatas@, *tx, payload, timestamp, r),
{
    match config.variant {
        ExecuteVariant::PassThrough => ExecuteStep::Done(pass_through(tx, &payload)),
        ExecuteVariant::Structured => match payload {
            Payload::Structured(m) => {
                if let Err(e) = validate_structured(&m, &config.policy) {
                    return ExecuteStep::Done(MetaContractResult::failure(&ContractError::Validation(e)));
                }
                let found = find_thread(metadatas, &m.cid, config.thread_by_alias);
                let pending = PendingThread {
                    location: m.cid.clone(),
                    owner: tx.meta_contract_id.clone(),
                    version: m.cid.clone(),
                    loose: 0,
                    comment: FinalComment::at(tx.public_key.clone(), m.content.text.clone(), timestamp),
                };
                if found {
                    ExecuteStep::Fetch(pending)
                } else {
                    let r = finish_thread(pending, Vec::new());
                    assert(texts(Seq::<String>::empty()).push(entry_of(pending.comment)) =~= seq![
                        entry_of(pending.comment),
                    ]);
                    ExecuteStep::Done(r)
                }
            },
            _ => ExecuteStep::Done(MetaContractResult::failure(&ContractError::Schema)),
        },
        ExecuteVariant::CommentOnly => match payload {
            Payload::Comment(c) => {
                if let Err(e) = validate_comment(&c, &config.policy) {
                    return ExecuteStep::Done(MetaContractResult::failure(&ContractError::Validation(e)));
                }
                let pending = PendingThread {
                    location: String::new(),
                    owner: tx.meta_contract_id.clone(),
                    version: String::new(),
                    loose: 1,
                    comment: FinalComment::at(tx.public_key.clone(), c.text.clone(), timestamp),
                };
                let r = finish_thread(pending, Vec::new());
                assert(texts(Seq::<String>::empty()).push(entry_of(pending.comment)) =~= seq![
                    entry_of(pending.comment),
                ]);
                ExecuteStep::Done(r)
            },
            _ => ExecuteStep::Done(MetaContractResult::failure(&ContractError::Schema)),
        },
    }
}

/// A payload that lacks a required field is refused: the parent identifier
/// is checked first, then the text; the result is a failure with that
/// rule's sentence and no records.
pub proof fn lemma_missing_field_rejected(
    config: ExecuteConfig,
    metas: Seq<Metadata>,
    tx: Transaction,
    m: SerdeMetadata,
    timestamp: u64,
    r: ExecuteStep,
)
    requires
        config.variant == ExecuteVariant::Structured,
        m.cid@.len() == 0 || m.content.text@.len() == 0,
        is_execute_step(config, metas, tx, Payload::Structured(m), timestamp, r),
    ensures
        r is Done,
        !r->Done_0.result,
        r->Done_0.metadatas@.len() == 0,
        r->Done_0.error_string@ == (if m.cid@.len() == 0 {
            "Cid cannot be empty."@
        } else {
            "Text cannot be empty."@
        }),
{
}

/// A lightweight comment with no text is refused with the empty-text
/// sentence and no records.
pub proof fn lemma_empty_comment_rejected(
    config: ExecuteConfig,
    metas: Seq<Metadata>,
    tx: Transaction,
    c: CommentPayload,
    timestamp: u64,
    r: ExecuteStep,
)
    requires
        config.variant == ExecuteVariant::CommentOnly,
        c.text@.len() == 0,
        is_execute_step(config, metas, tx, Payload::Comment(c), timestamp, r),
    ensures
        r is Done,
        !r->Done_0.result,
        r->Done_0.metadatas@.len() == 0,
        r->Done_0.error_string@ == "Text cannot be empty."@,
{
}

/// A structured post whose required fields are present and whose text is
/// allowed, but one of whose media links is neither empty nor on the
/// allowed host, is refused with the invalid-media-link sentence and no
/// records, whatever the other links are.
pub proof fn lemma_foreign_media_rejected(
    config: ExecuteConfig,
    metas: Seq<Metadata>,
    tx: Transaction,
    m: SerdeMetadata,
    timestamp: u64,
    r: ExecuteStep,
    k: int,
)
    requires
        config.variant == ExecuteVariant::Structured,
        m.cid@.len() > 0,
        m.content.text@.len() > 0,
        !has_forbidden(m.content.text@, config.policy.forbidden_words@),
        0 <= k < m.content.medias@.len(),
        m.content.medias@[k]@.len() > 0,
        !is_prefix(media_prefix(), m.content.medias@[k]@),
        is_execute_step(config, metas, tx, Payload::Structured(m), timestamp, r),
    ensures
        r is Done,
        !r->Done_0.result,
        r->Done_0.metadatas@.len() == 0,
        r->Done_0.error_string@ == "Invalid media link format."@,
{
    assert(!allowed_link(m.content.medias@[k]@));
    assert(has_invalid_link(m.content.medias@));
}

/// Appending to a fetched thread is additive: the result succeeds and
/// republishes the fetched entries unchanged and in order, followed by
/// exactly one new entry, that of the pending comment's author and message;
/// as text, the old thread without its closing bracket is kept as a prefix.
pub proof fn lemma_append_is_additive(p: PendingThread, fetched: Seq<Seq<char>>, r: MetaContractResult)
    requires
        is_append_result(r, p, fetched),
    ensures
        r.result,
        r.metadatas@.len() == 1,
        r.metadatas@[0].content@ == thread_text(fetched.push(entry_of(p.comment))),
        fetched.push(entry_of(p.comment)).len() == fetched.len() + 1,
        fetched.push(entry_of(p.comment)).subrange(0, fetched.len() as int) == fetched,
        fetched.push(entry_of(p.comment)).last() == entry_of(p.comment),
        r.metadatas@[0].content@ == thread_text(fetched).drop_last() + (if fetched.len() == 0 {
            Seq::<char>::empty()
        } else {
            ","@
        }) + entry_of(p.comment) + "]"@,
{
    lemma_append_keeps_prefix(fetched, entry_of(p.comment));
}

} // verus!
