//! The mint operation: a hex payload that carries an ABI-encoded triple of
//! strings names a dataset of ownership records in the content store; each
//! record becomes one output record.
use vstd::prelude::*;

use crate::errors::ContractError;
use crate::text::texts;
use crate::types::{DataStructFork, FinalMetadata, MetaContractResult};

verus! {

/// Value of one hex digit, either case.
pub open spec fn hex_value(c: char) -> Option<int> {
    let v = c as u32;
    if 48 <= v <= 57 {
        Some(v - 48)
    } else if 97 <= v <= 102 {
        Some(v - 87)
    } else if 65 <= v <= 70 {
        Some(v - 55)
    } else {
        None
    }
}

/// The bytes that a hex text stands for: two digits per byte, high digit
/// first; `None` for an odd length or a character that is not a digit.
pub open spec fn hex_decoded(s: Seq<char>) -> Option<Seq<u8>>
    decreases s.len(),
{
    if s.len() == 0 {
        Some(Seq::empty())
    } else if s.len() == 1 {
        None
    } else {
        match (hex_value(s[0]), hex_value(s[1]), hex_decoded(s.subrange(2, s.len() as int))) {
            (Some(h), Some(l), Some(rest)) => Some(seq![(h * 16 + l) as u8] + rest),
            _ => None,
        }
    }
}

/// The text of the error that hex decoding reports for a text.
pub uninterp spec fn hex_error_text(s: Seq<char>) -> Seq<char>;

/// Relies on hex::decode: succeeds exactly on an even-length text of hex
/// digits of either case, with two digits per byte; on failure, the text of
/// its error.
#[verifier::external_body]
fn hex_bytes(s: &str) -> (r: Result<Vec<u8>, String>)
    ensures
        r is Ok <==> hex_decoded(s@) is Some,
        r is Ok ==> r->Ok_0@ == hex_decoded(s@)->0,
        r is Err ==> r->Err_0@ == hex_error_text(s@),
{
    hex::decode(s).map_err(|e| e.to_string())
}

/// Value of the last four bytes of the 32-byte word at `at`, big-endian.
pub open spec fn word_tail(d: Seq<u8>, at: int) -> int {
    d[at + 28] as int * 16777216 + d[at + 29] as int * 65536 + d[at + 30] as int * 256 + d[at + 31] as int
}

/// The `i`-th string slot of an ABI head stays inside the data: the head
/// word, the length word it points to, and the bytes that length counts.
pub open spec fn string_slot_in_bounds(d: Seq<u8>, i: int) -> bool {
    &&& 32 * i + 32 <= d.len()
    &&& word_tail(d, 32 * i) + 32 <= d.len()
    &&& word_tail(d, 32 * i) + 32 + word_tail(d, word_tail(d, 32 * i)) <= d.len()
}

/// All three string slots stay inside the data. Every layout that decodes
/// meets this; one that does not would make the decoder's offset sums
/// overflow on a 32-bit target.
pub open spec fn abi_in_bounds(d: Seq<u8>) -> bool {
    string_slot_in_bounds(d, 0) && string_slot_in_bounds(d, 1) && string_slot_in_bounds(d, 2)
}

/// The strings that ABI decoding of three string parameters reads from
/// `data`, or `None` when the layout is malformed.
pub uninterp spec fn abi_strings(data: Seq<u8>) -> Option<Seq<Seq<char>>>;

/// The text of the error that ABI decoding of three string parameters
/// reports for `data`.
pub uninterp spec fn abi_error_text(data: Seq<u8>) -> Seq<char>;

/// Relies on ethabi::decode with three `ParamType::String` parameters, and
/// on `Token`'s Display, which shows a string token as the string itself:
/// one string per parameter; on failure, the text of its error. The decoder
/// adds offsets read from the data in `usize`, so the slots must stay in
/// bounds for it not to overflow on a 32-bit target.
#[verifier::external_body]
fn abi_decode_strings(data: &[u8]) -> (r: Result<Vec<String>, String>)
    requires
        abi_in_bounds(data@),
    ensures
        r is Ok <==> abi_strings(data@) is Some,
        r is Ok ==> texts(r->Ok_0@) == abi_strings(data@)->0,
        r is Ok ==> r->Ok_0@.len() == 3,
        r is Err ==> r->Err_0@ == abi_error_text(data@),
{
    let types = [ethabi::ParamType::String, ethabi::ParamType::String, ethabi::ParamType::String];
    ethabi::decode(&types, data).map(|ts| ts.iter().map(|t| t.to_string()).collect()).map_err(
        |e| e.to_string(),
    )
}

/// The last four bytes of the 32-byte word at `at`, big-endian.
fn word_tail_at(d: &[u8], at: usize) -> (r: u64)
    requires
        at + 32 <= d@.len(),
    ensures
        r as int == word_tail(d@, at as int),
{
    let n = d.len();
    assert(at + 32 <= n);
    let i: usize = at + 28;
    (d[i] as u64) * 16777216 + (d[i + 1] as u64) * 65536 + (d[i + 2] as u64) * 256 + (d[i + 3] as u64)
}

/// Whether the `i`-th string slot stays inside the data.
fn string_slot_ok(d: &[u8], i: usize) -> (r: bool)
    requires
        i < 3,
    ensures
        r == string_slot_in_bounds(d@, i as int),
{
    let n = d.len() as u64;
    let h: usize = 32 * i;
    if (h as u64) + 32 > n {
        return false;
    }
    let off = word_tail_at(d, h);
    if off + 32 > n {
        return false;
    }
    let len = word_tail_at(d, off as usize);
    off + 32 + len <= n
}

/// What decoding a hex payload gives: its three strings, or the text of
/// the first failure.
pub open spec fn fork_decode(data: Seq<char>) -> Result<Seq<Seq<char>>, Seq<char>> {
    match hex_decoded(data) {
        None => Err(hex_error_text(data)),
        Some(b) => if !abi_in_bounds(b) {
            Err("Invalid data"@)
        } else {
            match abi_strings(b) {
                None => Err(abi_error_text(b)),
                Some(f) => Ok(f),
            }
        },
    }
}

/// Where a dataset lives: the store address and its content identifier.
pub struct ForkSource {
    pub multiaddr: String,
    pub cid: String,
}

/// What the host does next on mint.
pub enum MintStep {
    /// The invocation is finished with this result.
    Done(MetaContractResult),
    /// Fetch the dataset, then call `finish_mint`.
    Fetch(ForkSource),
}

/// Decodes a hex payload into the strings of its three fields.
pub fn fork_fields(data: &str) -> (r: Result<Vec<String>, ContractError>)
    ensures
        match fork_decode(data@) {
            Ok(f) => r is Ok && texts(r->Ok_0@) == f && f.len() == 3,
            Err(m) => r is Err && r->Err_0 is Decode && r->Err_0->Decode_0@ == m,
        },
{
    let bytes = match hex_bytes(data) {
        Ok(b) => b,
        Err(m) => return Err(ContractError::Decode(m)),
    };
    let d = bytes.as_slice();
    if !(string_slot_ok(d, 0) && string_slot_ok(d, 1) && string_slot_ok(d, 2)) {
        return Err(ContractError::Decode(String::from_str("Invalid data")));
    }
    match abi_decode_strings(d) {
        Ok(f) => Ok(f),
        Err(m) => Err(ContractError::Decode(m)),
    }
}

/// Decides on decoded fields: three fields name the store address (the
/// second) and the dataset (the third); fewer or more mean nothing to mint.
pub fn plan_mint(fields: Vec<String>) -> (r: MintStep)
    ensures
        fields@.len() == 3 ==> r is Fetch && r->Fetch_0.multiaddr == fields@[1] && r->Fetch_0.cid
            == fields@[2],
        fields@.len() != 3 ==> r is Done && r->Done_0.is_success_with(Seq::empty()),
{
    if fields.len() == 3 {
        let multiaddr = fields[1].clone();
        let cid = fields[2].clone();
        MintStep::Fetch(ForkSource { multiaddr, cid })
    } else {
        let r = MetaContractResult::success(Vec::new());
        assert(r.metadatas@ =~= Seq::<FinalMetadata>::empty());
        MintStep::Done(r)
    }
}

/// Starts a mint: an empty payload mints nothing; otherwise the payload is
/// decoded and, with three fields, the dataset they name is to be fetched.
pub fn start_mint(data: &str) -> (r: MintStep)
    ensures
        data@.len() == 0 ==> r is Done && r->Done_0.is_success_with(Seq::empty()),
        data@.len() > 0 ==> match fork_decode(data@) {
            Ok(f) => r is Fetch && r->Fetch_0.multiaddr@ == f[1] && r->Fetch_0.cid@ == f[2],
            Err(m) => r is Done && !r->Done_0.result && r->Done_0.metadatas@.len() == 0
                && r->Done_0.error_string@ == "Invalid data structure: "@ + m,
        },
{
    if data.is_empty() {
        let r = MetaContractResult::success(Vec::new());
        assert(r.metadatas@ =~= Seq::<FinalMetadata>::empty());
        return MintStep::Done(r);
    }
    match fork_fields(data) {
        Ok(fields) => {
            let ghost f = fields@;
            assert(texts(f)[1] == f[1]@ && texts(f)[2] == f[2]@);
            plan_mint(fields)
        },
        Err(e) => {
            let r = MetaContractResult::failure(&e);
            assert(r.is_failure_of(ContractError::Decode(e->Decode_0)));
            MintStep::Done(r)
        },
    }
}

/// The output record of one ownership record: owned by its owner, holding
/// its content identifier and version, unaliased and chained.
pub open spec fn is_fork_record(rec: FinalMetadata, d: DataStructFork) -> bool {
    rec.public_key == d.owner && rec.alias@.len() == 0 && rec.content == d.cid && rec.version == d.version
        && rec.loose == 0
}

/// One output record per ownership record, in order.
pub fn fork_records(datas: Vec<DataStructFork>) -> (r: Vec<FinalMetadata>)
    ensures
        r@.len() == datas@.len(),
        forall|i: int| 0 <= i < datas@.len() ==> is_fork_record(#[trigger] r@[i], datas@[i]),
{
    let mut r: Vec<FinalMetadata> = Vec::new();
    let mut i: usize = 0;
    while i < datas.len()
        invariant
            i <= datas.len(),
            r@.len() == i,
            forall|j: int| 0 <= j < i ==> is_fork_record(#[trigger] r@[j], datas@[j]),
        decreases datas.len() - i,
    {
        let d = &datas[i];
        r.push(
            FinalMetadata {
                public_key: d.owner.clone(),
                alias: String::new(),
                content: d.cid.clone(),
                loose: 0,
                version: d.version.clone(),
            },
        );
        i = i + 1;
    }
    r
}

/// Finishes a mint with the fetched dataset, or with the error of its fetch
/// or decode; no record is produced on error.
pub fn finish_mint(fetched: Result<Vec<DataStructFork>, ContractError>) -> (r: MetaContractResult)
    ensures
        match fetched {
            Ok(datas) => r.result && r.error_string@.len() == 0 && r.metadatas@.len() == datas@.len()
                && forall|i: int| 0 <= i < datas@.len() ==> is_fork_record(#[trigger] r.metadatas@[i], datas@[i]),
            Err(e) => r.is_failure_of(e),
        },
{
    match fetched {
        Ok(datas) => MetaContractResult::success(fork_records(datas)),
        Err(e) => MetaContractResult::failure(&e),
    }
}

} // verus!
