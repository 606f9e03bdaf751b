//! The crate-wide error type, and how a value thrown by a wallet is sorted
//! into it.
use vstd::prelude::*;

use crate::text::{decimal, mentions, mentions_phrase, opt_view, push_decimal_i64, strings_view};

verus! {

/// Everything that can go wrong talking to a wallet or an RPC node.
#[derive(Debug, Clone, PartialEq, Eq)]
pub enum Error {
    /// The page has no Wallet Standard registry (`navigator.wallets` missing).
    WalletsUnavailable,
    /// The wallet does not expose the named feature.
    MissingFeature(&'static str),
    /// No wallet is selected, or the wallet exposed no (Solana) account.
    NoAccount,
    /// The wallet does not support the named chain.
    UnsupportedChain(String),
    /// The user rejected the request (wallet code `4001`).
    UserRejected,
    /// The wallet is locked or has not authorised this dApp (code `4100`).
    WalletLocked,
    /// The wallet does not implement the method (code `4200`).
    UnsupportedMethod(String),
    /// The wallet is disconnected (code `4900`).
    WalletDisconnected,
    /// The wallet is connected to another chain (code `4901`). `expected`
    /// is the chain the request asked for (see [`Error::expecting_chain`];
    /// empty for requests made for no chain); `got` is the chain the wallet
    /// reported, when it reported one.
    WrongChain { expected: String, got: Option<String> },
    /// The account cannot cover the fee and transfer.
    InsufficientFunds,
    /// Preflight did not know the blockhash (cluster mismatch or expiry).
    BlockhashNotFound,
    /// Preflight simulation failed; `logs` are the program logs, `err` the
    /// validator's message.
    SimulationFailed { logs: Vec<String>, err: String },
    /// Any other JavaScript-side failure.
    Js(String),
    /// A reply could not be decoded.
    Decode(String),
    /// The RPC node failed or answered with an error.
    Rpc(String),
    /// A transaction could not be (de)serialised.
    Serialize(String),
}

/// `Result` with the crate's [`Error`].
pub type Result<T> = core::result::Result<T, Error>;

/// The mathematical picture of an [`Error`]: every string taken as its
/// characters.
pub enum ErrorView {
    WalletsUnavailable,
    MissingFeature(Seq<char>),
    NoAccount,
    UnsupportedChain(Seq<char>),
    UserRejected,
    WalletLocked,
    UnsupportedMethod(Seq<char>),
    WalletDisconnected,
    WrongChain { expected: Seq<char>, got: Option<Seq<char>> },
    InsufficientFunds,
    BlockhashNotFound,
    SimulationFailed { logs: Seq<Seq<char>>, err: Seq<char> },
    Js(Seq<char>),
    Decode(Seq<char>),
    Rpc(Seq<char>),
    Serialize(Seq<char>),
}

impl View for Error {
    type V = ErrorView;

    open spec fn view(&self) -> ErrorView {
        match self {
            Error::WalletsUnavailable => ErrorView::WalletsUnavailable,
            Error::MissingFeature(id) => ErrorView::MissingFeature(id@),
            Error::NoAccount => ErrorView::NoAccount,
            Error::UnsupportedChain(c) => ErrorView::UnsupportedChain(c@),
            Error::UserRejected => ErrorView::UserRejected,
            Error::WalletLocked => ErrorView::WalletLocked,
            Error::UnsupportedMethod(m) => ErrorView::UnsupportedMethod(m@),
            Error::WalletDisconnected => ErrorView::WalletDisconnected,
            Error::WrongChain { expected, got } => ErrorView::WrongChain {
                expected: expected@,
                got: opt_view(*got),
            },
            Error::InsufficientFunds => ErrorView::InsufficientFunds,
            Error::BlockhashNotFound => ErrorView::BlockhashNotFound,
            Error::SimulationFailed { logs, err } => ErrorView::SimulationFailed {
                logs: strings_view(logs@),
                err: err@,
            },
            Error::Js(s) => ErrorView::Js(s@),
            Error::Decode(s) => ErrorView::Decode(s@),
            Error::Rpc(s) => ErrorView::Rpc(s@),
            Error::Serialize(s) => ErrorView::Serialize(s@),
        }
    }
}

// ----------------------------------------------------------------------------
// Values thrown by wallets
// ----------------------------------------------------------------------------

/// A numeric `code` property of a thrown object.
pub struct ErrorCode {
    /// The code's value when it is a whole number that fits an `i64`
    /// (`None` for fractions and out-of-range numbers).
    pub whole: Option<i64>,
    /// The code rounded to no decimals, as text (what `{:.0}` prints).
    pub text: String,
}

/// The properties of a thrown JavaScript object that decide its error.
pub struct ThrownObject {
    /// The `code` property, when it is a number.
    pub code: Option<ErrorCode>,
    /// The `message` property, when it is a string.
    pub message: Option<String>,
    /// The `name` property, when it is a string.
    pub name: Option<String>,
    /// The `logs` property, when it is an array of strings; empty otherwise.
    pub logs: Vec<String>,
}

/// A value a wallet threw or rejected a promise with.
pub struct ThrownValue {
    /// Its properties, when the value is an object.
    pub object: Option<ThrownObject>,
    /// The value itself when it is a string, else its JSON text, when either
    /// exists.
    pub text: Option<String>,
}

/// Numeric code of a thrown object, when whole.
pub open spec fn whole_code(o: ThrownObject) -> Option<i64> {
    match o.code {
        Some(c) => c.whole,
        None => None,
    }
}

/// The `message` of a thrown object, empty when absent.
pub open spec fn message_or_empty(o: ThrownObject) -> Seq<char> {
    match o.message {
        Some(m) => m@,
        None => Seq::empty(),
    }
}

/// A string property that is present and non-empty.
pub open spec fn filled(o: Option<String>) -> bool {
    o is Some && o->0@.len() > 0
}

/// `s`, followed by `sep` and `tail` (the separator only when `s` is not
/// empty).
pub open spec fn joined(s: Seq<char>, sep: Seq<char>, tail: Seq<char>) -> Seq<char> {
    if s.len() > 0 {
        s + sep + tail
    } else {
        tail
    }
}

/// `"<name> (<code>): <message>"`, each part present only when the object
/// has it (non-empty for the strings).
pub open spec fn described(o: ThrownObject) -> Seq<char> {
    let with_name = if filled(o.name) {
        o.name->0@
    } else {
        Seq::empty()
    };
    let with_code = match o.code {
        Some(c) => joined(with_name, " "@, "("@ + c.text@ + ")"@),
        None => with_name,
    };
    if filled(o.message) {
        joined(with_code, ": "@, o.message->0@)
    } else {
        with_code
    }
}

/// The text of a thrown value that is not a descriptive object.
pub open spec fn fallback_text(v: ThrownValue) -> Seq<char> {
    match v.text {
        Some(t) => t@,
        None => "unknown js error"@,
    }
}

/// How a thrown value is sorted into an error.
///
/// Objects are sorted first by their numeric wallet code (`4001`, `4100`,
/// `4200`, `4900`, `4901`), then by phrases in their message (ASCII case
/// ignored); an object that matches none of these but has a name, code or
/// message is described by them; anything else is reported by its text.
/// The value itself names no chain, so a wrong-chain report leaves the
/// expected chain empty here; [`expecting_chain`] fills in the chain a
/// request asked for.
pub open spec fn classify(v: ThrownValue) -> ErrorView {
    match v.object {
        Some(o) => {
            let code = whole_code(o);
            let msg = message_or_empty(o);
            if code == Some(4001i64) {
                ErrorView::UserRejected
            } else if code == Some(4100i64) {
                ErrorView::WalletLocked
            } else if code == Some(4200i64) {
                ErrorView::UnsupportedMethod(
                    if msg.len() == 0 {
                        "unknown"@
                    } else {
                        msg
                    },
                )
            } else if code == Some(4900i64) {
                ErrorView::WalletDisconnected
            } else if code == Some(4901i64) {
                ErrorView::WrongChain { expected: Seq::empty(), got: None }
            } else if msg.len() > 0 && mentions(msg, "blockhash not found"@) {
                ErrorView::BlockhashNotFound
            } else if msg.len() > 0 && (mentions(msg, "insufficient funds"@) || mentions(
                msg,
                "attempt to debit an account but found no record of a prior credit"@,
            )) {
                ErrorView::InsufficientFunds
            } else if msg.len() > 0 && mentions(msg, "transaction simulation failed"@) {
                ErrorView::SimulationFailed { logs: strings_view(o.logs@), err: msg }
            } else if filled(o.message) || filled(o.name) || o.code is Some {
                ErrorView::Js(described(o))
            } else {
                ErrorView::Js(fallback_text(v))
            }
        },
        None => ErrorView::Js(fallback_text(v)),
    }
}

/// True when `o` holds a non-empty string.
fn is_filled(o: &Option<String>) -> (r: bool)
    ensures
        r == filled(*o),
{
    match o {
        Some(s) => !s.as_str().is_empty(),
        None => false,
    }
}

/// Builds the "name (code): message" text of a thrown object.
fn describe(o: &ThrownObject) -> (r: String)
    ensures
        r@ == described(*o),
{
    let mut s = String::new();
    if is_filled(&o.name) {
        match &o.name {
            Some(n) => s.append(n.as_str()),
            None => {},
        }
    }
    match &o.code {
        Some(c) => {
            if !s.as_str().is_empty() {
                s.append(" ");
            }
            s.append("(");
            s.append(c.text.as_str());
            s.append(")");
        },
        None => {},
    }
    if is_filled(&o.message) {
        match &o.message {
            Some(m) => {
                if !s.as_str().is_empty() {
                    s.append(": ");
                }
                s.append(m.as_str());
            },
            None => {},
        }
    }
    s
}

/// `e` as the answer to a request made for `chain`: a wrong-chain report
/// names `chain` as the chain expected, keeping the reported chain; any
/// other error is unchanged.
pub open spec fn expecting_chain(e: ErrorView, chain: Seq<char>) -> ErrorView {
    match e {
        ErrorView::WrongChain { expected: _, got } => ErrorView::WrongChain { expected: chain, got },
        other => other,
    }
}

impl Error {
    /// Sorts a value thrown (or a promise rejection) by a wallet into an
    /// error; see [`classify`].
    pub fn from_thrown(v: ThrownValue) -> (e: Error)
        ensures
            e@ == classify(v),
    {
        let ghost whole = v;
        let fallback = match &v.text {
            Some(t) => t.clone(),
            None => String::from_str("unknown js error"),
        };
        match v.object {
            None => Error::Js(fallback),
            Some(o) => {
                let code: Option<i64> = match &o.code {
                    Some(c) => c.whole,
                    None => None,
                };
                let msg: String = match &o.message {
                    Some(m) => m.clone(),
                    None => String::new(),
                };
                match code {
                    Some(4001i64) => {
                        return Error::UserRejected;
                    },
                    Some(4100i64) => {
                        return Error::WalletLocked;
                    },
                    Some(4200i64) => {
                        if msg.as_str().is_empty() {
                            return Error::UnsupportedMethod(String::from_str("unknown"));
                        } else {
                            return Error::UnsupportedMethod(msg);
                        }
                    },
                    Some(4900i64) => {
                        return Error::WalletDisconnected;
                    },
                    Some(4901i64) => {
                        return Error::WrongChain { expected: String::new(), got: None };
                    },
                    _ => {},
                }
                if !msg.as_str().is_empty() {
                    if mentions_phrase(msg.as_str(), "blockhash not found") {
                        return Error::BlockhashNotFound;
                    }
                    if mentions_phrase(msg.as_str(), "insufficient funds") || mentions_phrase(
                        msg.as_str(),
                        "attempt to debit an account but found no record of a prior credit",
                    ) {
                        return Error::InsufficientFunds;
                    }
                    if mentions_phrase(msg.as_str(), "transaction simulation failed") {
                        return Error::SimulationFailed { logs: o.logs, err: msg };
                    }
                }
                if is_filled(&o.message) || is_filled(&o.name) || o.code.is_some() {
                    Error::Js(describe(&o))
                } else {
                    Error::Js(fallback)
                }
            },
        }
    }

    /// This error, as the answer to a request made for `chain`: a
    /// wrong-chain report names `chain` as the chain expected; any other
    /// error is returned unchanged.
    pub fn expecting_chain(self, chain: &str) -> (e: Error)
        ensures
            e@ == expecting_chain(self@, chain@),
    {
        match self {
            Error::WrongChain { expected: _, got } => Error::WrongChain {
                expected: String::from_str(chain),
                got,
            },
            other => other,
        }
    }

    /// Sorts a value a wallet threw while serving a request made for
    /// `chain`: as [`Error::from_thrown`], with a wrong-chain report naming
    /// `chain` as the chain expected.
    pub fn from_thrown_on_chain(v: ThrownValue, chain: &str) -> (e: Error)
        ensures
            e@ == expecting_chain(classify(v), chain@),
    {
        Error::from_thrown(v).expecting_chain(chain)
    }

    /// The error an RPC node's error object stands for: `"<message> (<code>)"`.
    pub fn from_rpc_failure(message: &str, code: i64) -> (e: Error)
        ensures
            e@ == ErrorView::Rpc(message@ + " ("@ + decimal(code as int) + ")"@),
    {
        let mut s = String::from_str(message);
        s.append(" (");
        push_decimal_i64(&mut s, code);
        s.append(")");
        Error::Rpc(s)
    }
}

} // verus!
