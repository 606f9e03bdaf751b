//! The decisions of the minimal Solana JSON-RPC client: which endpoint it
//! talks to, how a reply becomes a result, and how account data and
//! blockhashes are decoded. The host performs the HTTP exchange and parses
//! the JSON into the plain types below.
use vstd::prelude::*;

use crate::error::{Error, ErrorView};
use crate::text::decimal;
use vstd::string::to_string_from_display_ensures;

verus! {

/// Minimal Solana JSON-RPC client: the endpoint requests go to.
#[derive(Debug)]
pub struct RpcClient {
    endpoint: String,
}

impl RpcClient {
    /// The endpoint requests go to.
    pub closed spec fn endpoint_view(&self) -> Seq<char> {
        self.endpoint@
    }

    /// A client for an arbitrary RPC endpoint (Helius, QuickNode, a local
    /// `solana-test-validator`, ...).
    pub fn new(endpoint: &str) -> (r: RpcClient)
        ensures
            r.endpoint_view() == endpoint@,
    {
        RpcClient { endpoint: String::from_str(endpoint) }
    }

    /// The public mainnet-beta endpoint.
    pub fn mainnet() -> (r: RpcClient)
        ensures
            r.endpoint_view() == "https://api.mainnet-beta.solana.com"@,
    {
        Self::new("https://api.mainnet-beta.solana.com")
    }

    /// The public devnet endpoint.
    pub fn devnet() -> (r: RpcClient)
        ensures
            r.endpoint_view() == "https://api.devnet.solana.com"@,
    {
        Self::new("https://api.devnet.solana.com")
    }

    /// The public testnet endpoint.
    pub fn testnet() -> (r: RpcClient)
        ensures
            r.endpoint_view() == "https://api.testnet.solana.com"@,
    {
        Self::new("https://api.testnet.solana.com")
    }

    /// Another client for the same endpoint.
    pub fn copy(&self) -> (r: RpcClient)
        ensures
            r.endpoint_view() == self.endpoint_view(),
    {
        RpcClient { endpoint: self.endpoint.clone() }
    }

    /// The endpoint requests go to.
    pub fn endpoint(&self) -> (r: &str)
        ensures
            r@ == self.endpoint_view(),
    {
        self.endpoint.as_str()
    }
}

/// The `error` member of a JSON-RPC reply.
#[derive(Debug, Clone)]
pub struct RpcError {
    pub code: i64,
    pub message: String,
}

/// A JSON-RPC reply: a `result` or an `error`.
#[derive(Debug, Clone)]
pub enum RpcReply<T> {
    /// The reply carried a `result`.
    Success(T),
    /// The reply carried an `error`.
    Failure(RpcError),
}

/// The text an RPC error object is reported with: `"<message> (<code>)"`.
pub open spec fn rpc_failure_text(e: RpcError) -> Seq<char> {
    e.message@ + " ("@ + decimal(e.code as int) + ")"@
}

impl<T> RpcReply<T> {
    /// The reply's result, or an `Rpc` error describing its error object.
    pub fn into_result(self) -> (r: Result<T, Error>)
        ensures
            match self {
                RpcReply::Success(v) => r == Ok::<T, Error>(v),
                RpcReply::Failure(e) => r is Err && r->Err_0@ == ErrorView::Rpc(rpc_failure_text(e)),
            },
    {
        match self {
            RpcReply::Success(v) => Ok(v),
            RpcReply::Failure(e) => Err(Error::from_rpc_failure(e.message.as_str(), e.code)),
        }
    }
}

// ----------------------------------------------------------------------------
// Decoding account data and addresses
// ----------------------------------------------------------------------------

/// `base64::DecodeError`, carried opaquely.
#[verifier::external_type_specification]
#[verifier::external_body]
pub struct ExBase64DecodeError(base64::DecodeError);

/// `solana_pubkey::ParsePubkeyError`, carried opaquely.
#[verifier::external_type_specification]
#[verifier::external_body]
pub struct ExParsePubkeyError(solana_pubkey::ParsePubkeyError);

/// `solana_hash::ParseHashError`, carried opaquely.
#[verifier::external_type_specification]
#[verifier::external_body]
pub struct ExParseHashError(solana_hash::ParseHashError);

/// What standard base64 (padded, `+` and `/`) decodes `text` to, when it is
/// valid.
pub uninterp spec fn base64_standard(text: Seq<char>) -> Option<Seq<u8>>;

/// The 32 bytes a base58 account address decodes to, when it is valid.
pub uninterp spec fn base58_address(text: Seq<char>) -> Option<Seq<u8>>;

/// The 32 bytes a base58 blockhash decodes to, when it is valid.
pub uninterp spec fn base58_hash(text: Seq<char>) -> Option<Seq<u8>>;

/// `base64::engine::general_purpose::STANDARD.decode(text)`: the decoded
/// bytes, or the decoder's error. Claimed: success and the bytes are
/// whatever `base64_standard` names for `text`.
#[verifier::external_body]
fn decode_base64(text: &str) -> (r: core::result::Result<Vec<u8>, base64::DecodeError>)
    ensures
        r is Ok <==> base64_standard(text@) is Some,
        r matches Ok(bytes) ==> base64_standard(text@) == Some(bytes@),
{
    base64::Engine::decode(&base64::engine::general_purpose::STANDARD, text)
}

/// `solana_pubkey::Pubkey::from_str(text)`, taken as its 32 bytes. Claimed:
/// success and the bytes are whatever `base58_address` names for `text`.
#[verifier::external_body]
fn decode_address(text: &str) -> (r: core::result::Result<[u8; 32], solana_pubkey::ParsePubkeyError>)
    ensures
        r is Ok <==> base58_address(text@) is Some,
        r matches Ok(bytes) ==> base58_address(text@) == Some(bytes@),
{
    match <solana_pubkey::Pubkey as core::str::FromStr>::from_str(text) {
        Ok(key) => Ok(key.to_bytes()),
        Err(e) => Err(e),
    }
}

/// `solana_hash::Hash::from_str(text)`, taken as its 32 bytes. Claimed:
/// success and the bytes are whatever `base58_hash` names for `text`.
#[verifier::external_body]
fn decode_hash(text: &str) -> (r: core::result::Result<[u8; 32], solana_hash::ParseHashError>)
    ensures
        r is Ok <==> base58_hash(text@) is Some,
        r matches Ok(bytes) ==> base58_hash(text@) == Some(bytes@),
{
    match <solana_hash::Hash as core::str::FromStr>::from_str(text) {
        Ok(hash) => Ok(hash.to_bytes()),
        Err(e) => Err(e),
    }
}

/// A `Decode` error whose text starts with `context`.
pub open spec fn decode_error_about(e: ErrorView, context: Seq<char>) -> bool {
    e matches ErrorView::Decode(text) && text.len() >= context.len() && text.subrange(
        0,
        context.len() as int,
    ) == context
}

/// `e` is `Decode("<context><cause>")`, the cause shown as its `Display`
/// text.
pub open spec fn decode_failure<E: core::fmt::Display>(
    e: ErrorView,
    context: Seq<char>,
    cause: &E,
) -> bool {
    exists|shown: String|
        to_string_from_display_ensures::<E>(cause, shown) && e == ErrorView::Decode(
            context + shown@,
        )
}

/// `Decode("<context><cause>")`.
fn decode_error<E: core::fmt::Display>(context: &str, cause: &E) -> (e: Error)
    ensures
        decode_failure(e@, context@, cause),
        decode_error_about(e@, context@),
{
    let shown = cause.to_string();
    let mut text = String::from_str(context);
    text.append(shown.as_str());
    assert(text@.subrange(0, context@.len() as int) =~= context@);
    Error::Decode(text)
}

/// The blockhash of a `getLatestBlockhash` reply, from what decoding its
/// text gave: the bytes, or `Decode("blockhash: <cause>")`.
pub fn blockhash_from_parsed(parsed: core::result::Result<[u8; 32], solana_hash::ParseHashError>) -> (r: Result<[u8; 32], Error>)
    ensures
        match parsed {
            Ok(bytes) => r == Ok::<[u8; 32], Error>(bytes),
            Err(cause) => r is Err && decode_failure(r->Err_0@, "blockhash: "@, &cause),
        },
{
    match parsed {
        Ok(bytes) => Ok(bytes),
        Err(cause) => Err(decode_error("blockhash: ", &cause)),
    }
}

/// The blockhash a `getLatestBlockhash` reply names, as its 32 bytes.
pub fn blockhash_from_text(text: &str) -> (r: Result<[u8; 32], Error>)
    ensures
        r is Ok <==> base58_hash(text@) is Some,
        r matches Ok(bytes) ==> base58_hash(text@) == Some(bytes@),
        r matches Err(e) ==> decode_error_about(e@, "blockhash: "@),
{
    let parsed = decode_hash(text);
    let ghost p = parsed;
    let r = blockhash_from_parsed(parsed);
    proof {
        if let Err(cause) = p {
            lemma_decode_failure_prefix(r->Err_0@, "blockhash: "@, &cause);
        }
    }
    r
}

/// The 32 bytes of a base58 account address, or `Decode("address: <cause>")`
/// when the text is not one.
pub fn address_bytes(text: &str) -> (r: Result<[u8; 32], Error>)
    ensures
        r is Ok <==> base58_address(text@) is Some,
        r matches Ok(bytes) ==> base58_address(text@) == Some(bytes@),
        r matches Err(e) ==> decode_error_about(e@, "address: "@),
{
    match decode_address(text) {
        Ok(bytes) => Ok(bytes),
        Err(cause) => Err(decode_error("address: ", &cause)),
    }
}

/// An account as a `getAccountInfo` reply carries it (`encoding: base64`).
#[derive(Debug)]
pub struct AccountInfoRaw {
    /// `[<base64 data>, "base64"]`.
    pub data: (String, String),
    /// Owning program, base58.
    pub owner: String,
    pub lamports: u64,
    pub executable: bool,
    /// Epoch in which the account next owes rent (`rentEpoch`, 0 when absent).
    pub rent_epoch: u64,
}

/// Decoded account state returned by `getAccountInfo` / `getMultipleAccounts`.
#[derive(Debug, Clone)]
pub struct AccountInfo {
    /// Raw account data, base64-decoded.
    pub data: Vec<u8>,
    /// Owning program's address bytes.
    pub owner: [u8; 32],
    /// Balance in lamports.
    pub lamports: u64,
    /// True if the account is an executable program.
    pub executable: bool,
    /// Epoch in which the account next owes rent.
    pub rent_epoch: u64,
}

/// `raw` decodes: its data is valid base64 and its owner a valid address.
pub open spec fn account_decodes(raw: AccountInfoRaw) -> bool {
    base64_standard(raw.data.0@) is Some && base58_address(raw.owner@) is Some
}

/// `info` is what `raw` decodes to.
pub open spec fn account_decoded_from(info: AccountInfo, raw: AccountInfoRaw) -> bool {
    &&& base64_standard(raw.data.0@) == Some(info.data@)
    &&& base58_address(raw.owner@) == Some(info.owner@)
    &&& info.lamports == raw.lamports
    &&& info.executable == raw.executable
    &&& info.rent_epoch == raw.rent_epoch
}

/// The error a raw account that does not decode is reported with: the data
/// is checked first, then the owner.
pub open spec fn account_decode_failure(e: ErrorView, raw: AccountInfoRaw) -> bool {
    if base64_standard(raw.data.0@) is None {
        decode_error_about(e, "account data: "@)
    } else {
        decode_error_about(e, "account owner: "@)
    }
}

/// An account from a reply, given what decoding its data and its owner
/// gave: the decoded account, or `Decode("account data: <cause>")` when the
/// data did not decode, else `Decode("account owner: <cause>")` when the
/// owner did not.
pub fn account_from_parts(
    raw: AccountInfoRaw,
    data: core::result::Result<Vec<u8>, base64::DecodeError>,
    owner: core::result::Result<[u8; 32], solana_pubkey::ParsePubkeyError>,
) -> (r: Result<AccountInfo, Error>)
    ensures
        match (data, owner) {
            (Err(cause), _) => r is Err && decode_failure(r->Err_0@, "account data: "@, &cause),
            (Ok(_), Err(cause)) => r is Err && decode_failure(
                r->Err_0@,
                "account owner: "@,
                &cause,
            ),
            (Ok(bytes), Ok(key)) => r is Ok && r->Ok_0.data@ == bytes@ && r->Ok_0.owner@ == key@
                && r->Ok_0.lamports == raw.lamports && r->Ok_0.executable == raw.executable
                && r->Ok_0.rent_epoch == raw.rent_epoch,
        },
{
    let data = match data {
        Ok(bytes) => bytes,
        Err(cause) => {
            return Err(decode_error("account data: ", &cause));
        },
    };
    let owner = match owner {
        Ok(key) => key,
        Err(cause) => {
            return Err(decode_error("account owner: ", &cause));
        },
    };
    Ok(
        AccountInfo {
            data,
            owner,
            lamports: raw.lamports,
            executable: raw.executable,
            rent_epoch: raw.rent_epoch,
        },
    )
}

/// A `Decode` error from `decode_failure` starts with its context.
proof fn lemma_decode_failure_prefix<E: core::fmt::Display>(
    e: ErrorView,
    context: Seq<char>,
    cause: &E,
)
    requires
        decode_failure(e, context, cause),
    ensures
        decode_error_about(e, context),
{
    let shown = choose|shown: String|
        to_string_from_display_ensures::<E>(cause, shown) && e == ErrorView::Decode(
            context + shown@,
        );
    assert((context + shown@).subrange(0, context.len() as int) =~= context);
}

/// Decodes an account from a reply: base64 data, base58 owner.
pub fn account_info_from_raw(raw: AccountInfoRaw) -> (r: Result<AccountInfo, Error>)
    ensures
        r is Ok <==> account_decodes(raw),
        r matches Ok(info) ==> account_decoded_from(info, raw),
        r matches Err(e) ==> account_decode_failure(e@, raw),
{
    let data = decode_base64(raw.data.0.as_str());
    let owner = decode_address(raw.owner.as_str());
    let ghost (d, o) = (data, owner);
    let ghost raw_copy = raw;
    let r = account_from_parts(raw, data, owner);
    proof {
        match (d, o) {
            (Err(cause), _) => lemma_decode_failure_prefix(r->Err_0@, "account data: "@, &cause),
            (Ok(_), Err(cause)) => lemma_decode_failure_prefix(
                r->Err_0@,
                "account owner: "@,
                &cause,
            ),
            _ => {},
        }
    }
    r
}

/// The reply for one address: no account, or a decoded one.
pub fn account_from_reply(value: Option<AccountInfoRaw>) -> (r: Result<Option<AccountInfo>, Error>)
    ensures
        match value {
            None => r == Ok::<Option<AccountInfo>, Error>(None),
            Some(raw) => {
                &&& r is Ok <==> account_decodes(raw)
                &&& r matches Ok(Some(info)) ==> account_decoded_from(info, raw)
                &&& r matches Ok(o) ==> o is Some
                &&& r matches Err(e) ==> account_decode_failure(e@, raw)
            },
        },
{
    match value {
        None => Ok(None),
        Some(raw) => match account_info_from_raw(raw) {
            Ok(info) => Ok(Some(info)),
            Err(e) => Err(e),
        },
    }
}

/// Every present entry of `values` decodes.
pub open spec fn all_decode(values: Seq<Option<AccountInfoRaw>>) -> bool {
    forall|i: int|
        0 <= i < values.len() ==> (#[trigger] values[i] matches Some(raw) ==> account_decodes(
            raw,
        ))
}

/// `infos` is `values` entry by entry, decoded.
pub open spec fn decoded_entrywise(
    infos: Seq<Option<AccountInfo>>,
    values: Seq<Option<AccountInfoRaw>>,
) -> bool {
    &&& infos.len() == values.len()
    &&& forall|i: int|
        0 <= i < values.len() ==> match (#[trigger] values[i], infos[i]) {
            (None, None) => true,
            (Some(raw), Some(info)) => account_decoded_from(info, raw),
            _ => false,
        }
}

/// The reply for several addresses, parallel to them: `None` for an address
/// without account. The first entry that does not decode decides the error.
pub fn accounts_from_reply(values: Vec<Option<AccountInfoRaw>>) -> (r: Result<
    Vec<Option<AccountInfo>>,
    Error,
>)
    ensures
        r is Ok <==> all_decode(values@),
        r matches Ok(infos) ==> decoded_entrywise(infos@, values@),
        r matches Err(e) ==> exists|i: int|
            0 <= i < values@.len() && all_decode(values@.take(i)) && (#[trigger] values@[i]
                matches Some(raw) && !account_decodes(raw) && account_decode_failure(e@, raw)),
{
    let ghost all = values@;
    let mut rest = values;
    let mut out: Vec<Option<AccountInfo>> = Vec::new();
    let mut i: usize = 0;
    let n = rest.len();
    assert(all.skip(0) =~= all);
    while i < n
        invariant
            n == all.len(),
            all == values@,
            i <= n,
            rest@ == all.skip(i as int),
            all_decode(all.take(i as int)),
            decoded_entrywise(out@, all.take(i as int)),
        decreases n - i,
    {
        let next = rest.remove(0);
        assert(next == all[i as int]);
        match account_from_reply(next) {
            Ok(info) => {
                out.push(info);
                i += 1;
                assert(rest@ =~= all.skip(i as int));
                assert(all.take(i as int).drop_last() =~= all.take(i - 1));
                assert forall|k: int| 0 <= k < i implies (#[trigger] all.take(i as int)[k]
                    matches Some(raw) ==> account_decodes(raw)) by {
                    if k < i - 1 {
                        assert(all.take(i as int)[k] == all.take(i - 1)[k]);
                    }
                }
                assert forall|k: int| 0 <= k < i implies match (
                    #[trigger] all.take(i as int)[k],
                    out@[k],
                ) {
                    (None, None) => true,
                    (Some(raw), Some(info)) => account_decoded_from(info, raw),
                    _ => false,
                } by {
                    if k < i - 1 {
                        assert(all.take(i as int)[k] == all.take(i - 1)[k]);
                    }
                }
            },
            Err(e) => {
                assert(next is Some);
                let ghost raw = next->0;
                assert(!account_decodes(raw));
                assert(all[i as int] == Some(raw));
                assert(!all_decode(all)) by {
                    assert(all[i as int] matches Some(raw) && !account_decodes(raw));
                }
                assert(0 <= i < values@.len() && all_decode(values@.take(i as int)) && (
                values@[i as int] matches Some(raw) && !account_decodes(raw)
                    && account_decode_failure(e@, raw)));
                return Err(e);
            },
        }
    }
    assert(all.take(n as int) =~= all);
    Ok(out)
}

} // verus!
