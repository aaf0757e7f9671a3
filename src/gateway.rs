//! Requests to the content store: the command that fetches a block, and the
//! interpretation of what the host hands back.
use vstd::prelude::*;
use vstd::utf8::{decode_utf8, valid_utf8};

use crate::errors::ContractError;
use crate::text::{decimal, texts, u64_text};

verus! {

/// Where and how long to ask when a call does not say.
pub struct GatewayConfig {
    pub default_multiaddr: String,
    pub default_timeout_sec: u64,
}

/// Timeout argument: seconds in decimal, followed by `s`.
pub open spec fn timeout_text(t: u64) -> Seq<char> {
    decimal(t as nat) + "s"@
}

/// The options appended to every store command.
pub open spec fn option_args(addr: Seq<char>, t: u64) -> Seq<Seq<char>> {
    seq!["--timeout"@, timeout_text(t), "--api"@, addr]
}

/// The address used: the given one, or the default when empty.
pub open spec fn effective_addr(c: GatewayConfig, addr: Seq<char>) -> Seq<char> {
    if addr.len() == 0 { c.default_multiaddr@ } else { addr }
}

/// The timeout used: the given one, or the default when zero.
pub open spec fn effective_timeout(c: GatewayConfig, t: u64) -> u64 {
    if t == 0 { c.default_timeout_sec } else { t }
}

/// The full command that fetches the block `hash`.
pub open spec fn dag_get_command(c: GatewayConfig, hash: Seq<char>, addr: Seq<char>, t: u64) -> Seq<Seq<char>> {
    seq!["dag"@, "get"@, hash] + option_args(effective_addr(c, addr), effective_timeout(c, t))
}

/// The timeout argument for `timeout` seconds.
pub fn get_timeout_string(timeout: u64) -> (r: String)
    ensures
        r@ == timeout_text(timeout),
{
    u64_text(timeout).concat("s")
}

/// Appends the timeout and address options to a command.
pub fn make_cmd_args(args: Vec<String>, api_multiaddr: String, timeout_sec: u64) -> (r: Vec<String>)
    ensures
        texts(r@) == texts(args@) + option_args(api_multiaddr@, timeout_sec),
{
    let mut r = args;
    let ghost start = texts(r@);
    r.push(String::from_str("--timeout"));
    r.push(get_timeout_string(timeout_sec));
    r.push(String::from_str("--api"));
    r.push(api_multiaddr);
    assert(texts(r@) =~= start + option_args(api_multiaddr@, timeout_sec));
    r
}

/// The command that fetches the block `hash`, with the configured defaults
/// standing in for an empty address or a zero timeout.
pub fn dag_get_args(config: &GatewayConfig, hash: String, api_multiaddr: String, timeout_sec: u64) -> (r: Vec<String>)
    ensures
        texts(r@) == dag_get_command(*config, hash@, api_multiaddr@, timeout_sec),
{
    let address = if api_multiaddr.as_str().is_empty() {
        config.default_multiaddr.clone()
    } else {
        api_multiaddr
    };
    let t: u64 = if timeout_sec == 0 { config.default_timeout_sec } else { timeout_sec };
    let mut args: Vec<String> = Vec::new();
    args.push(String::from_str("dag"));
    args.push(String::from_str("get"));
    args.push(hash);
    assert(texts(args@) =~= seq!["dag"@, "get"@, hash@]);
    let r = make_cmd_args(args, address, t);
    r
}

/// What a finished store command yields: its text on success.
pub open spec fn output_outcome(ret_code: i32, error: Seq<char>, stdout: Seq<u8>) -> Result<Seq<char>, Seq<char>> {
    if ret_code != 0 {
        Err(error)
    } else if !valid_utf8(stdout) {
        Err("response is not valid UTF-8"@)
    } else {
        Ok(decode_utf8(stdout))
    }
}

/// Relies on String::from_utf8: succeeds exactly on valid UTF-8, with the
/// decoded characters.
#[verifier::external_body]
fn utf8_text(bytes: Vec<u8>) -> (r: Option<String>)
    ensures
        r is Some <==> valid_utf8(bytes@),
        r is Some ==> r->0@ == decode_utf8(bytes@),
{
    String::from_utf8(bytes).ok()
}

/// Interprets the exit code, error text and output of a store command;
/// a zero exit code means success.
pub fn gateway_output(ret_code: i32, error: String, stdout: Vec<u8>) -> (r: Result<String, ContractError>)
    ensures
        match output_outcome(ret_code, error@, stdout@) {
            Ok(t) => r is Ok && r->Ok_0@ == t,
            Err(m) => r is Err && r->Err_0 is Gateway && r->Err_0->Gateway_0@ == m,
        },
{
    if ret_code != 0 {
        return Err(ContractError::Gateway(error));
    }
    match utf8_text(stdout) {
        Some(s) => Ok(s),
        None => Err(ContractError::Gateway(String::from_str("response is not valid UTF-8"))),
    }
}

} // verus!
