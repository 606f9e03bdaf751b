//! Transaction wire format: bincode v1 with Solana's short-vec framing, as
//! `solana-transaction`'s serde implementation writes it.
//!
//! The crate signs `VersionedTransaction`s only; a legacy `Transaction`
//! converts into one with the same wire bytes.
use vstd::prelude::*;

use crate::error::{Error, ErrorView};
use vstd::string::to_string_from_display_ensures;

use solana_transaction::versioned::VersionedTransaction;

verus! {

/// `solana_transaction::versioned::VersionedTransaction`, carried opaquely.
#[verifier::external_type_specification]
#[verifier::external_body]
pub struct ExVersionedTransaction(VersionedTransaction);

/// `bincode::ErrorKind`, carried opaquely.
#[verifier::external_type_specification]
#[verifier::external_body]
pub struct ExBincodeErrorKind(bincode::ErrorKind);

/// The bytes bincode v1 writes for `tx`, when it can write it.
pub uninterp spec fn bincode_bytes(tx: VersionedTransaction) -> Option<Seq<u8>>;

/// The transaction bincode v1 reads from `bytes`, when they hold one.
pub uninterp spec fn bincode_transaction(bytes: Seq<u8>) -> Option<VersionedTransaction>;

/// `bincode::serialize(tx)`. Claimed: it succeeds, and with which bytes,
/// exactly as `bincode_bytes` names for `tx`.
#[verifier::external_body]
fn bincode_encode(tx: &VersionedTransaction) -> (r: core::result::Result<Vec<u8>, Box<bincode::ErrorKind>>)
    ensures
        r is Ok <==> bincode_bytes(*tx) is Some,
        r matches Ok(bytes) ==> bincode_bytes(*tx) == Some(bytes@),
{
    bincode::serialize(tx)
}

/// `bincode::deserialize::<VersionedTransaction>(bytes)`. Claimed: it
/// succeeds, and with which transaction, exactly as `bincode_transaction`
/// names for `bytes`.
#[verifier::external_body]
fn bincode_decode(bytes: &[u8]) -> (r: core::result::Result<VersionedTransaction, Box<bincode::ErrorKind>>)
    ensures
        r is Ok <==> bincode_transaction(bytes@) is Some,
        r matches Ok(tx) ==> bincode_transaction(bytes@) == Some(tx),
{
    bincode::deserialize(bytes)
}

/// `e` is `Serialize("<cause>")`, the cause shown as its `Display` text.
pub open spec fn serialize_failure(e: ErrorView, cause: &Box<bincode::ErrorKind>) -> bool {
    exists|shown: String|
        to_string_from_display_ensures::<Box<bincode::ErrorKind>>(cause, shown) && e
            == ErrorView::Serialize(shown@)
}

/// `Serialize("<cause>")`.
fn serialize_error(cause: &Box<bincode::ErrorKind>) -> (e: Error)
    ensures
        serialize_failure(e@, cause),
{
    Error::Serialize(cause.to_string())
}

/// The wire bytes, from what encoding gave: the bytes, or a `Serialize`
/// error showing the cause.
pub fn wire_bytes(encoded: core::result::Result<Vec<u8>, Box<bincode::ErrorKind>>) -> (r: Result<Vec<u8>, Error>)
    ensures
        match encoded {
            Ok(bytes) => r == Ok::<Vec<u8>, Error>(bytes),
            Err(cause) => r is Err && serialize_failure(r->Err_0@, &cause),
        },
{
    match encoded {
        Ok(bytes) => Ok(bytes),
        Err(cause) => Err(serialize_error(&cause)),
    }
}

/// The transaction, from what decoding gave: the transaction, or a
/// `Serialize` error showing the cause.
pub fn decoded_transaction(
    decoded: core::result::Result<VersionedTransaction, Box<bincode::ErrorKind>>,
) -> (r: Result<VersionedTransaction, Error>)
    ensures
        match decoded {
            Ok(tx) => r == Ok::<VersionedTransaction, Error>(tx),
            Err(cause) => r is Err && serialize_failure(r->Err_0@, &cause),
        },
{
    match decoded {
        Ok(tx) => Ok(tx),
        Err(cause) => Err(serialize_error(&cause)),
    }
}

/// Serializes a transaction for the wallet's `solana:signTransaction` /
/// `solana:signAndSendTransaction` features: the bincode v1 bytes of `tx`,
/// or a `Serialize` error when bincode cannot write it.
pub fn serialize(tx: &VersionedTransaction) -> (r: Result<Vec<u8>, Error>)
    ensures
        r is Ok <==> bincode_bytes(*tx) is Some,
        r matches Ok(bytes) ==> bincode_bytes(*tx) == Some(bytes@),
        r matches Err(e) ==> e@ is Serialize,
{
    wire_bytes(bincode_encode(tx))
}

/// Deserializes a signed transaction a wallet returned: the transaction
/// bincode v1 reads from `bytes`, or a `Serialize` error when they hold
/// none.
pub fn deserialize(bytes: &[u8]) -> (r: Result<VersionedTransaction, Error>)
    ensures
        r is Ok <==> bincode_transaction(bytes@) is Some,
        r matches Ok(tx) ==> bincode_transaction(bytes@) == Some(tx),
        r matches Err(e) ==> e@ is Serialize,
{
    decoded_transaction(bincode_decode(bytes))
}

} // verus!
