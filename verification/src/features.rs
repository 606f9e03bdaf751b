//! The Wallet Standard features the library calls, and how each call's
//! failures are reported.
//!
//! A feature lives at `wallet.features[<id>]` as an object with a method of
//! the given name. The method returns a promise; the connect output holds an
//! `accounts` array, the signing outputs are one-element arrays whose entry
//! holds a byte-array field.
use vstd::prelude::*;

use crate::error::{Error, ErrorView};
use crate::wallet::{
    FEATURE_CONNECT, FEATURE_DISCONNECT, FEATURE_SIGN_AND_SEND_TRANSACTION, FEATURE_SIGN_MESSAGE,
    FEATURE_SIGN_TRANSACTION,
};

verus! {

/// A Wallet Standard feature the library calls.
#[derive(Debug, Clone, Copy, PartialEq, Eq)]
pub enum WalletFeature {
    /// `standard:connect`
    Connect,
    /// `standard:disconnect`
    Disconnect,
    /// `solana:signMessage`
    SignMessage,
    /// `solana:signTransaction`
    SignTransaction,
    /// `solana:signAndSendTransaction`
    SignAndSendTransaction,
}

/// The feature's identifier in `wallet.features`.
pub open spec fn feature_id(f: WalletFeature) -> Seq<char> {
    match f {
        WalletFeature::Connect => "standard:connect"@,
        WalletFeature::Disconnect => "standard:disconnect"@,
        WalletFeature::SignMessage => "solana:signMessage"@,
        WalletFeature::SignTransaction => "solana:signTransaction"@,
        WalletFeature::SignAndSendTransaction => "solana:signAndSendTransaction"@,
    }
}

/// The name of the feature object's method.
pub open spec fn method_name(f: WalletFeature) -> Seq<char> {
    match f {
        WalletFeature::Connect => "connect"@,
        WalletFeature::Disconnect => "disconnect"@,
        WalletFeature::SignMessage => "signMessage"@,
        WalletFeature::SignTransaction => "signTransaction"@,
        WalletFeature::SignAndSendTransaction => "signAndSendTransaction"@,
    }
}

/// The output field the library reads: `accounts` for connect, the
/// signature or signed transaction for the signing features.
pub open spec fn output_field(f: WalletFeature) -> Option<Seq<char>> {
    match f {
        WalletFeature::Connect => Some("accounts"@),
        WalletFeature::Disconnect => None,
        WalletFeature::SignMessage => Some("signature"@),
        WalletFeature::SignTransaction => Some("signedTransaction"@),
        WalletFeature::SignAndSendTransaction => Some("signature"@),
    }
}

/// The feature's method did not return a promise.
pub open spec fn no_promise_text(f: WalletFeature) -> Seq<char> {
    match f {
        WalletFeature::Disconnect => "disconnect did not return Promise"@,
        _ => "feature method did not return a Promise"@,
    }
}

/// The feature's output was not of the expected shape (no array).
pub open spec fn bad_output_text(f: WalletFeature) -> Seq<char> {
    match f {
        WalletFeature::Connect => "connect output missing `accounts` array"@,
        _ => method_name(f) + " did not return array"@,
    }
}

/// The first output entry lacked the byte-array field.
pub open spec fn missing_field_text(f: WalletFeature) -> Seq<char> {
    method_name(f) + " output missing "@ + output_field(f).unwrap_or(Seq::empty())
}

impl WalletFeature {
    /// The feature's identifier.
    pub fn id(&self) -> (r: &'static str)
        ensures
            r@ == feature_id(*self),
    {
        match self {
            WalletFeature::Connect => FEATURE_CONNECT,
            WalletFeature::Disconnect => FEATURE_DISCONNECT,
            WalletFeature::SignMessage => FEATURE_SIGN_MESSAGE,
            WalletFeature::SignTransaction => FEATURE_SIGN_TRANSACTION,
            WalletFeature::SignAndSendTransaction => FEATURE_SIGN_AND_SEND_TRANSACTION,
        }
    }

    /// The name of the feature's method.
    pub fn method(&self) -> (r: &'static str)
        ensures
            r@ == method_name(*self),
    {
        match self {
            WalletFeature::Connect => "connect",
            WalletFeature::Disconnect => "disconnect",
            WalletFeature::SignMessage => "signMessage",
            WalletFeature::SignTransaction => "signTransaction",
            WalletFeature::SignAndSendTransaction => "signAndSendTransaction",
        }
    }

    /// The output field the library reads, if any.
    pub fn output(&self) -> (r: Option<&'static str>)
        ensures
            match r {
                Some(s) => output_field(*self) == Some(s@),
                None => output_field(*self) is None,
            },
    {
        match self {
            WalletFeature::Connect => Some("accounts"),
            WalletFeature::Disconnect => None,
            WalletFeature::SignMessage => Some("signature"),
            WalletFeature::SignTransaction => Some("signedTransaction"),
            WalletFeature::SignAndSendTransaction => Some("signature"),
        }
    }

    /// The wallet does not expose this feature (absent, `undefined` or
    /// `null`).
    pub fn missing(&self) -> (e: Error)
        ensures
            e@ == ErrorView::MissingFeature(feature_id(*self)),
    {
        Error::MissingFeature(self.id())
    }

    /// The feature's `name` member is not a function.
    pub fn not_a_function(name: &str) -> (e: Error)
        ensures
            e@ == ErrorView::Decode("feature method `"@ + name@ + "` not a function"@),
    {
        let mut text = String::from_str("feature method `");
        text.append(name);
        text.append("` not a function");
        Error::Decode(text)
    }

    /// The method returned something other than a promise.
    pub fn no_promise(&self) -> (e: Error)
        ensures
            e@ == ErrorView::Decode(no_promise_text(*self)),
    {
        match self {
            WalletFeature::Disconnect => Error::Decode(
                String::from_str("disconnect did not return Promise"),
            ),
            _ => Error::Decode(String::from_str("feature method did not return a Promise")),
        }
    }

    /// The promise resolved to something without the expected array.
    pub fn bad_output(&self) -> (e: Error)
        ensures
            e@ == ErrorView::Decode(bad_output_text(*self)),
    {
        match self {
            WalletFeature::Connect => Error::Decode(
                String::from_str("connect output missing `accounts` array"),
            ),
            _ => {
                let mut text = String::from_str(self.method());
                text.append(" did not return array");
                Error::Decode(text)
            },
        }
    }

    /// The first output entry lacks the byte-array field.
    pub fn missing_field(&self) -> (e: Error)
        ensures
            e@ == ErrorView::Decode(missing_field_text(*self)),
    {
        let mut text = String::from_str(self.method());
        text.append(" output missing ");
        match self.output() {
            Some(field) => text.append(field),
            None => {},
        }
        proof {
            assert(text@ =~= missing_field_text(*self));
        }
        Error::Decode(text)
    }
}

} // verus!
