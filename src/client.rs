//! The control-plane protocol: which request each operation sends, and how
//! the reply to it is classified.

use std::collections::HashMap;
use vstd::prelude::*;
use crate::errors::{GenerateBlocksError, InitialWalletsError, SetAddressKeysError, SetStateError};
use crate::json::encodes_string_map;
use crate::requests::{encodes_entries, set_address_keys_body, set_state_body, SetStateAddress};
use crate::text::{decimal, decimal_string};

verus! {

/// The payload of a reply that carries none.
#[derive(Clone, Copy, PartialEq, Eq, Debug)]
pub struct GenerateBlocksResponseEmpty {}

/// The envelope of the reply to a block generation.
#[derive(Clone, PartialEq, Debug)]
pub struct GenerateBlocksResponse {
    pub data: Option<GenerateBlocksResponseEmpty>,
    pub error: String,
    pub code: String,
}

/// The payload of a reply that carries none.
#[derive(Clone, Copy, PartialEq, Eq, Debug)]
pub struct SetAddressKeysEmpty {}

/// The envelope of the reply to a keys update.
#[derive(Clone, PartialEq, Debug)]
pub struct SetAddressKeysResponse {
    pub data: Option<SetAddressKeysEmpty>,
    pub error: String,
    pub code: String,
}

/// The payload of a reply that carries none.
#[derive(Clone, Copy, PartialEq, Eq, Debug)]
pub struct SetStateResponseEmpty {}

/// The envelope of the reply to a bulk state update.
#[derive(Clone, PartialEq, Debug)]
pub struct SetStateResponse {
    pub data: Option<SetStateResponseEmpty>,
    pub error: String,
    pub code: String,
}

/// One wallet that the simulator created at genesis.
#[derive(Clone, PartialEq, Debug)]
pub struct InitialWalletsResponseWallet {
    pub address: String,
    pub private_key_hex: String,
}

/// The wallets that the simulator created at genesis: the one holding the
/// stake, and one per shard, keyed by shard id.
#[derive(Clone, PartialEq, Debug)]
pub struct InitialWalletsResponseData {
    pub initial_wallet_with_stake: InitialWalletsResponseWallet,
    pub shard_wallets: HashMap<String, InitialWalletsResponseWallet>,
}

pub type InitialWallets = InitialWalletsResponseData;

/// The envelope of the reply that lists the initial wallets.
#[derive(Clone, PartialEq, Debug)]
pub struct InitialWalletsResponse {
    pub data: Option<InitialWalletsResponseData>,
    pub error: String,
    pub code: String,
}

/// What came back from the transport: the HTTP status, and the body where it
/// could be read as text.
pub struct HttpReply {
    pub status: u16,
    pub text: Option<String>,
}

#[derive(Clone, Copy, PartialEq, Eq, Debug)]
pub enum HttpMethod {
    Get,
    Post,
}

/// A request for the transport to send.
pub struct HttpRequest {
    pub method: HttpMethod,
    pub url: String,
    pub body: Option<String>,
}

/// The first check that a reply failed, in the order in which they are made.
#[derive(PartialEq, Debug, Clone)]
pub enum ReplyFault {
    CannotSendRequest,
    ResponseStatusIsNotSuccessful { status: u16 },
    CannotGetTextFromTheResponse,
    FailedToParseTheResponse { response: String },
    ResponseCodeIsNotSuccessful { code: String },
}

/// Whether an HTTP status is of the success class.
pub open spec fn is_success_status(status: u16) -> bool {
    200 <= status <= 299
}

/// The classification of a reply. `reply` is `None` where the request could
/// not be sent; `parsed_code` is the envelope's code, `None` where the text
/// did not parse as the envelope.
pub open spec fn reply_fault(reply: Option<HttpReply>, parsed_code: Option<String>) -> Option<ReplyFault> {
    match reply {
        None => Some(ReplyFault::CannotSendRequest),
        Some(rep) => if !is_success_status(rep.status) {
            Some(ReplyFault::ResponseStatusIsNotSuccessful { status: rep.status })
        } else {
            match rep.text {
                None => Some(ReplyFault::CannotGetTextFromTheResponse),
                Some(t) => match parsed_code {
                    None => Some(ReplyFault::FailedToParseTheResponse { response: t }),
                    Some(c) => if c@ != "successful"@ {
                        Some(ReplyFault::ResponseCodeIsNotSuccessful { code: c })
                    } else {
                        None
                    },
                },
            }
        },
    }
}

/// Classifies a reply; see `reply_fault`.
pub fn classify_reply(reply: Option<HttpReply>, parsed_code: Option<String>) -> (r: Option<ReplyFault>)
    ensures
        r == reply_fault(reply, parsed_code),
{
    match reply {
        None => Some(ReplyFault::CannotSendRequest),
        Some(rep) => {
            if !(200 <= rep.status && rep.status <= 299) {
                Some(ReplyFault::ResponseStatusIsNotSuccessful { status: rep.status })
            } else {
                match rep.text {
                    None => Some(ReplyFault::CannotGetTextFromTheResponse),
                    Some(t) => match parsed_code {
                        None => Some(ReplyFault::FailedToParseTheResponse { response: t }),
                        Some(c) => {
                            let successful = String::from_str("successful");
                            if !(c == successful) {
                                Some(ReplyFault::ResponseCodeIsNotSuccessful { code: c })
                            } else {
                                None
                            }
                        },
                    },
                }
            }
        },
    }
}

// ---------------------------------------------------------------------------
// Addresses of the endpoints.

/// `http://localhost:{port}`.
pub open spec fn base_url(port: u16) -> Seq<char> {
    "http://localhost:"@ + decimal(port as nat)
}

pub open spec fn about_url(port: u16) -> Seq<char> {
    base_url(port) + "/about"@
}

pub open spec fn generate_blocks_url(port: u16, num_blocks: u64) -> Seq<char> {
    base_url(port) + "/simulator/generate-blocks/"@ + decimal(num_blocks as nat)
}

pub open spec fn initial_wallets_url(port: u16) -> Seq<char> {
    base_url(port) + "/simulator/initial-wallets"@
}

pub open spec fn set_address_keys_url(port: u16, address: Seq<char>) -> Seq<char> {
    base_url(port) + "/simulator/address/"@ + address + "/set-state"@
}

pub open spec fn set_state_url(port: u16) -> Seq<char> {
    base_url(port) + "/simulator/set-state"@
}

fn url_with_path(port: u16, path: &str) -> (r: String)
    ensures
        r@ == base_url(port) + path@,
{
    let mut r = String::from_str("http://localhost:");
    let p = decimal_string(port as u64);
    r.append(p.as_str());
    r.append(path);
    r
}

/// The liveness endpoint, which answers with a success status once the
/// simulator is ready.
pub fn about_request(port: u16) -> (r: HttpRequest)
    ensures
        r.method == HttpMethod::Get,
        r.url@ == about_url(port),
        r.body is None,
{
    HttpRequest { method: HttpMethod::Get, url: url_with_path(port, "/about"), body: None }
}

/// The request that generates `num_blocks` blocks.
pub fn generate_blocks_request(port: u16, num_blocks: u64) -> (r: HttpRequest)
    ensures
        r.method == HttpMethod::Post,
        r.url@ == generate_blocks_url(port, num_blocks),
        r.body is None,
{
    let mut url = url_with_path(port, "/simulator/generate-blocks/");
    let n = decimal_string(num_blocks);
    url.append(n.as_str());
    HttpRequest { method: HttpMethod::Post, url, body: None }
}

/// The request that lists the initial wallets.
pub fn initial_wallets_request(port: u16) -> (r: HttpRequest)
    ensures
        r.method == HttpMethod::Get,
        r.url@ == initial_wallets_url(port),
        r.body is None,
{
    HttpRequest {
        method: HttpMethod::Get,
        url: url_with_path(port, "/simulator/initial-wallets"),
        body: None,
    }
}

/// The request that sets the storage `keys` of `address`; its body is the
/// JSON object of `keys`.
pub fn set_address_keys_request(port: u16, address: &str, keys: &HashMap<String, String>) -> (r: HttpRequest)
    ensures
        r.method == HttpMethod::Post,
        r.url@ == set_address_keys_url(port, address@),
        r.body is Some,
        encodes_string_map(r.body->0@, keys@),
{
    let mut url = url_with_path(port, "/simulator/address/");
    url.append(address);
    url.append("/set-state");
    HttpRequest { method: HttpMethod::Post, url, body: Some(set_address_keys_body(keys)) }
}

/// The request that applies the account-state `entries`; its body is the
/// JSON array of the entries.
pub fn set_state_request(port: u16, entries: &Vec<SetStateAddress>) -> (r: HttpRequest)
    ensures
        r.method == HttpMethod::Post,
        r.url@ == set_state_url(port),
        r.body is Some,
        encodes_entries(r.body->0@, entries@),
{
    let url = url_with_path(port, "/simulator/set-state");
    HttpRequest { method: HttpMethod::Post, url, body: Some(set_state_body(entries)) }
}

// ---------------------------------------------------------------------------
// Classification of the replies, operation by operation. `reply` is `None`
// where the request could not be sent; `parsed` is `None` where the text of
// the reply did not parse as the operation's envelope.

/// The error of a block generation at `url` for `fault`.
pub open spec fn generate_blocks_error(url: String, fault: ReplyFault) -> GenerateBlocksError {
    match fault {
        ReplyFault::CannotSendRequest => GenerateBlocksError::CannotSendRequest { url },
        ReplyFault::ResponseStatusIsNotSuccessful { status } => GenerateBlocksError::ResponseStatusIsNotSuccessful {
            url,
            status,
        },
        ReplyFault::CannotGetTextFromTheResponse => GenerateBlocksError::CannotGetTextFromTheResponse { url },
        ReplyFault::FailedToParseTheResponse { response } => GenerateBlocksError::FailedToParseTheResponse {
            url,
            response,
        },
        ReplyFault::ResponseCodeIsNotSuccessful { code } => GenerateBlocksError::ResponseCodeIsNotSuccessful {
            url,
            code,
        },
    }
}

fn generate_blocks_error_of(url: String, fault: ReplyFault) -> (r: GenerateBlocksError)
    ensures
        r == generate_blocks_error(url, fault),
{
    match fault {
        ReplyFault::CannotSendRequest => GenerateBlocksError::CannotSendRequest { url },
        ReplyFault::ResponseStatusIsNotSuccessful { status } => GenerateBlocksError::ResponseStatusIsNotSuccessful {
            url,
            status,
        },
        ReplyFault::CannotGetTextFromTheResponse => GenerateBlocksError::CannotGetTextFromTheResponse { url },
        ReplyFault::FailedToParseTheResponse { response } => GenerateBlocksError::FailedToParseTheResponse {
            url,
            response,
        },
        ReplyFault::ResponseCodeIsNotSuccessful { code } => GenerateBlocksError::ResponseCodeIsNotSuccessful {
            url,
            code,
        },
    }
}

/// The code of a parsed envelope of a block generation.
pub open spec fn generate_blocks_code(parsed: Option<GenerateBlocksResponse>) -> Option<String> {
    match parsed {
        Some(p) => Some(p.code),
        None => None,
    }
}

/// The outcome of a block generation: success exactly when every check passes.
pub open spec fn generate_blocks_verdict(url: String, reply: Option<HttpReply>, parsed: Option<GenerateBlocksResponse>) -> Result<(), GenerateBlocksError> {
    match reply_fault(reply, generate_blocks_code(parsed)) {
        Some(f) => Err(generate_blocks_error(url, f)),
        None => Ok(()),
    }
}

/// Classifies the reply to a block generation.
pub fn generate_blocks_outcome(url: String, reply: Option<HttpReply>, parsed: Option<GenerateBlocksResponse>) -> (r: Result<(), GenerateBlocksError>)
    ensures
        r == generate_blocks_verdict(url, reply, parsed),
{
    let code = match parsed {
        Some(p) => Some(p.code),
        None => None,
    };
    match classify_reply(reply, code) {
        Some(f) => Err(generate_blocks_error_of(url, f)),
        None => Ok(()),
    }
}

/// The error of a keys update at `url` for `fault`.
pub open spec fn set_address_keys_error(url: String, fault: ReplyFault) -> SetAddressKeysError {
    match fault {
        ReplyFault::CannotSendRequest => SetAddressKeysError::CannotSendRequest { url },
        ReplyFault::ResponseStatusIsNotSuccessful { status } => SetAddressKeysError::ResponseStatusIsNotSuccessful {
            url,
            status,
        },
        ReplyFault::CannotGetTextFromTheResponse => SetAddressKeysError::CannotGetTextFromTheResponse { url },
        ReplyFault::FailedToParseTheResponse { response } => SetAddressKeysError::FailedToParseTheResponse {
            url,
            response,
        },
        ReplyFault::ResponseCodeIsNotSuccessful { code } => SetAddressKeysError::ResponseCodeIsNotSuccessful {
            url,
            code,
        },
    }
}

fn set_address_keys_error_of(url: String, fault: ReplyFault) -> (r: SetAddressKeysError)
    ensures
        r == set_address_keys_error(url, fault),
{
    match fault {
        ReplyFault::CannotSendRequest => SetAddressKeysError::CannotSendRequest { url },
        ReplyFault::ResponseStatusIsNotSuccessful { status } => SetAddressKeysError::ResponseStatusIsNotSuccessful {
            url,
            status,
        },
        ReplyFault::CannotGetTextFromTheResponse => SetAddressKeysError::CannotGetTextFromTheResponse { url },
        ReplyFault::FailedToParseTheResponse { response } => SetAddressKeysError::FailedToParseTheResponse {
            url,
            response,
        },
        ReplyFault::ResponseCodeIsNotSuccessful { code } => SetAddressKeysError::ResponseCodeIsNotSuccessful {
            url,
            code,
        },
    }
}

/// The code of a parsed envelope of a keys update.
pub open spec fn set_address_keys_code(parsed: Option<SetAddressKeysResponse>) -> Option<String> {
    match parsed {
        Some(p) => Some(p.code),
        None => None,
    }
}

/// The outcome of a keys update: success exactly when every check passes.
pub open spec fn set_address_keys_verdict(url: String, reply: Option<HttpReply>, parsed: Option<SetAddressKeysResponse>) -> Result<(), SetAddressKeysError> {
    match reply_fault(reply, set_address_keys_code(parsed)) {
        Some(f) => Err(set_address_keys_error(url, f)),
        None => Ok(()),
    }
}

/// Classifies the reply to a keys update.
pub fn set_address_keys_outcome(url: String, reply: Option<HttpReply>, parsed: Option<SetAddressKeysResponse>) -> (r: Result<(), SetAddressKeysError>)
    ensures
        r == set_address_keys_verdict(url, reply, parsed),
{
    let code = match parsed {
        Some(p) => Some(p.code),
        None => None,
    };
    match classify_reply(reply, code) {
        Some(f) => Err(set_address_keys_error_of(url, f)),
        None => Ok(()),
    }
}

/// The error of a bulk state update at `url` for `fault`.
pub open spec fn set_state_error(url: String, fault: ReplyFault) -> SetStateError {
    match fault {
        ReplyFault::CannotSendRequest => SetStateError::CannotSendRequest { url },
        ReplyFault::ResponseStatusIsNotSuccessful { status } => SetStateError::ResponseStatusIsNotSuccessful {
            url,
            status,
        },
        ReplyFault::CannotGetTextFromTheResponse => SetStateError::CannotGetTextFromTheResponse { url },
        ReplyFault::FailedToParseTheResponse { response } => SetStateError::FailedToParseTheResponse {
            url,
            response,
        },
        ReplyFault::ResponseCodeIsNotSuccessful { code } => SetStateError::ResponseCodeIsNotSuccessful {
            url,
            code,
        },
    }
}

fn set_state_error_of(url: String, fault: ReplyFault) -> (r: SetStateError)
    ensures
        r == set_state_error(url, fault),
{
    match fault {
        ReplyFault::CannotSendRequest => SetStateError::CannotSendRequest { url },
        ReplyFault::ResponseStatusIsNotSuccessful { status } => SetStateError::ResponseStatusIsNotSuccessful {
            url,
            status,
        },
        ReplyFault::CannotGetTextFromTheResponse => SetStateError::CannotGetTextFromTheResponse { url },
        ReplyFault::FailedToParseTheResponse { response } => SetStateError::FailedToParseTheResponse {
            url,
            response,
        },
        ReplyFault::ResponseCodeIsNotSuccessful { code } => SetStateError::ResponseCodeIsNotSuccessful {
            url,
            code,
        },
    }
}

/// The code of a parsed envelope of a bulk state update.
pub open spec fn set_state_code(parsed: Option<SetStateResponse>) -> Option<String> {
    match parsed {
        Some(p) => Some(p.code),
        None => None,
    }
}

/// The outcome of a bulk state update: success exactly when every check passes.
pub open spec fn set_state_verdict(url: String, reply: Option<HttpReply>, parsed: Option<SetStateResponse>) -> Result<(), SetStateError> {
    match reply_fault(reply, set_state_code(parsed)) {
        Some(f) => Err(set_state_error(url, f)),
        None => Ok(()),
    }
}

/// Classifies the reply to a bulk state update.
pub fn set_state_outcome(url: String, reply: Option<HttpReply>, parsed: Option<SetStateResponse>) -> (r: Result<(), SetStateError>)
    ensures
        r == set_state_verdict(url, reply, parsed),
{
    let code = match parsed {
        Some(p) => Some(p.code),
        None => None,
    };
    match classify_reply(reply, code) {
        Some(f) => Err(set_state_error_of(url, f)),
        None => Ok(()),
    }
}

/// The error of the listing of the initial wallets at `url` for `fault`.
pub open spec fn initial_wallets_error(url: String, fault: ReplyFault) -> InitialWalletsError {
    match fault {
        ReplyFault::CannotSendRequest => InitialWalletsError::CannotSendRequest { url },
        ReplyFault::ResponseStatusIsNotSuccessful { status } => InitialWalletsError::ResponseStatusIsNotSuccessful {
            url,
            status,
        },
        ReplyFault::CannotGetTextFromTheResponse => InitialWalletsError::CannotGetTextFromTheResponse { url },
        ReplyFault::FailedToParseTheResponse { response } => InitialWalletsError::FailedToParseTheResponse {
            url,
            response,
        },
        ReplyFault::ResponseCodeIsNotSuccessful { code } => InitialWalletsError::ResponseCodeIsNotSuccessful {
            url,
            code,
        },
    }
}

fn initial_wallets_error_of(url: String, fault: ReplyFault) -> (r: InitialWalletsError)
    ensures
        r == initial_wallets_error(url, fault),
{
    match fault {
        ReplyFault::CannotSendRequest => InitialWalletsError::CannotSendRequest { url },
        ReplyFault::ResponseStatusIsNotSuccessful { status } => InitialWalletsError::ResponseStatusIsNotSuccessful {
            url,
            status,
        },
        ReplyFault::CannotGetTextFromTheResponse => InitialWalletsError::CannotGetTextFromTheResponse { url },
        ReplyFault::FailedToParseTheResponse { response } => InitialWalletsError::FailedToParseTheResponse {
            url,
            response,
        },
        ReplyFault::ResponseCodeIsNotSuccessful { code } => InitialWalletsError::ResponseCodeIsNotSuccessful {
            url,
            code,
        },
    }
}

/// The code of a parsed envelope of the listing of the initial wallets.
pub open spec fn initial_wallets_code(parsed: Option<InitialWalletsResponse>) -> Option<String> {
    match parsed {
        Some(p) => Some(p.code),
        None => None,
    }
}

/// The outcome of the listing of the initial wallets: the payload exactly when every check passes and
/// the envelope carries one; a missing payload is an error of its own.
pub open spec fn initial_wallets_verdict(url: String, reply: Option<HttpReply>, parsed: Option<InitialWalletsResponse>) -> Result<InitialWallets, InitialWalletsError> {
    match reply_fault(reply, initial_wallets_code(parsed)) {
        Some(f) => Err(initial_wallets_error(url, f)),
        None => match parsed->0.data {
            Some(d) => Ok(d),
            None => Err(InitialWalletsError::ResponseDataIsMissing { url }),
        },
    }
}

/// Classifies the reply to the listing of the initial wallets.
pub fn initial_wallets_outcome(url: String, reply: Option<HttpReply>, parsed: Option<InitialWalletsResponse>) -> (r: Result<InitialWallets, InitialWalletsError>)
    ensures
        r == initial_wallets_verdict(url, reply, parsed),
{
    let (code, data) = match parsed {
        Some(p) => (Some(p.code), p.data),
        None => (None, None),
    };
    match classify_reply(reply, code) {
        Some(f) => Err(initial_wallets_error_of(url, f)),
        None => match data {
            Some(d) => Ok(d),
            None => Err(InitialWalletsError::ResponseDataIsMissing { url }),
        },
    }
}

} // verus!
