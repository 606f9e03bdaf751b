//! The Wallet Standard's `Wallet` and `WalletAccount`, as the plain values
//! the library decides on, plus the chain and feature identifiers.
//!
//! A wallet is a JavaScript object; the host keeps it and hands the library
//! its readable properties together with a `handle` by which the host finds
//! the object again.
use vstd::prelude::*;

use crate::text::{copy_bytes, copy_strings, is_prefix_of, starts_with, strings_view};

verus! {

/// Chain identifier of Solana mainnet.
pub const CHAIN_MAINNET: &'static str = "solana:mainnet";
/// Chain identifier of Solana devnet.
pub const CHAIN_DEVNET: &'static str = "solana:devnet";
/// Chain identifier of Solana testnet.
pub const CHAIN_TESTNET: &'static str = "solana:testnet";
/// Chain identifier of a local validator.
pub const CHAIN_LOCALNET: &'static str = "solana:localnet";

/// Feature `standard:connect`.
pub const FEATURE_CONNECT: &'static str = "standard:connect";
/// Feature `standard:disconnect`.
pub const FEATURE_DISCONNECT: &'static str = "standard:disconnect";
/// Feature `standard:events`.
pub const FEATURE_EVENTS: &'static str = "standard:events";
/// Feature `solana:signMessage`.
pub const FEATURE_SIGN_MESSAGE: &'static str = "solana:signMessage";
/// Feature `solana:signTransaction`.
pub const FEATURE_SIGN_TRANSACTION: &'static str = "solana:signTransaction";
/// Feature `solana:signAndSendTransaction`.
pub const FEATURE_SIGN_AND_SEND_TRANSACTION: &'static str = "solana:signAndSendTransaction";
/// Feature `solana:signIn`.
pub const FEATURE_SIGN_IN: &'static str = "solana:signIn";

/// Some chain in `chains` is a Solana chain (`solana:` prefix).
pub open spec fn advertises_solana(chains: Seq<Seq<char>>) -> bool {
    exists|i: int| 0 <= i < chains.len() && is_prefix_of("solana:"@, #[trigger] chains[i])
}

/// True when some chain of `chains` starts with `solana:`.
pub fn any_solana_chain(chains: &Vec<String>) -> (r: bool)
    ensures
        r == advertises_solana(strings_view(chains@)),
{
    let mut i: usize = 0;
    while i < chains.len()
        invariant
            i <= chains.len(),
            forall|k: int| 0 <= k < i ==> !is_prefix_of("solana:"@, (#[trigger] chains@[k])@),
        decreases chains.len() - i,
    {
        if starts_with(chains[i].as_str(), "solana:") {
            assert(strings_view(chains@)[i as int] == chains@[i as int]@);
            return true;
        }
        i += 1;
    }
    assert forall|k: int| 0 <= k < strings_view(chains@).len() implies !is_prefix_of(
        "solana:"@,
        #[trigger] strings_view(chains@)[k],
    ) by {
        assert(strings_view(chains@)[k] == chains@[k]@);
    }
    false
}

/// A Wallet Standard wallet.
#[derive(Debug, Clone)]
pub struct Wallet {
    /// Where the host keeps the wallet's JavaScript object.
    pub handle: u64,
    /// The `version` property.
    pub version: String,
    /// The `name` property.
    pub name: String,
    /// The `icon` property (a data URI).
    pub icon: String,
    /// The string entries of the `chains` property, e.g. `"solana:mainnet"`.
    pub chains: Vec<String>,
}

/// The mathematical picture of a [`Wallet`].
pub struct WalletView {
    pub handle: u64,
    pub version: Seq<char>,
    pub name: Seq<char>,
    pub icon: Seq<char>,
    pub chains: Seq<Seq<char>>,
}

impl View for Wallet {
    type V = WalletView;

    open spec fn view(&self) -> WalletView {
        WalletView {
            handle: self.handle,
            version: self.version@,
            name: self.name@,
            icon: self.icon@,
            chains: strings_view(self.chains@),
        }
    }
}

/// The wallet advertises some Solana chain.
pub open spec fn wallet_supports_solana(w: WalletView) -> bool {
    advertises_solana(w.chains)
}

impl Wallet {
    /// True if this wallet advertises support for any Solana chain.
    pub fn supports_solana(&self) -> (r: bool)
        ensures
            r == wallet_supports_solana(self@),
    {
        any_solana_chain(&self.chains)
    }

    /// A copy of this wallet.
    pub fn copy(&self) -> (r: Wallet)
        ensures
            r@ == self@,
    {
        Wallet {
            handle: self.handle,
            version: self.version.clone(),
            name: self.name.clone(),
            icon: self.icon.clone(),
            chains: copy_strings(&self.chains),
        }
    }
}

/// A Wallet Standard account.
#[derive(Debug, Clone)]
pub struct WalletAccount {
    /// Where the host keeps the account's JavaScript object.
    pub handle: u64,
    /// The `address` property (base58 for Solana).
    pub address: String,
    /// The `publicKey` property: raw public-key bytes (32 for Solana).
    pub public_key: Vec<u8>,
    /// The string entries of the `chains` property.
    pub chains: Vec<String>,
    /// The string entries of the `features` property.
    pub features: Vec<String>,
}

/// The mathematical picture of a [`WalletAccount`].
pub struct AccountView {
    pub handle: u64,
    pub address: Seq<char>,
    pub public_key: Seq<u8>,
    pub chains: Seq<Seq<char>>,
    pub features: Seq<Seq<char>>,
}

impl View for WalletAccount {
    type V = AccountView;

    open spec fn view(&self) -> AccountView {
        AccountView {
            handle: self.handle,
            address: self.address@,
            public_key: self.public_key@,
            chains: strings_view(self.chains@),
            features: strings_view(self.features@),
        }
    }
}

/// The account advertises some Solana chain.
pub open spec fn account_supports_solana(a: AccountView) -> bool {
    advertises_solana(a.chains)
}

impl WalletAccount {
    /// True if this account advertises a Solana chain.
    pub fn supports_solana(&self) -> (r: bool)
        ensures
            r == account_supports_solana(self@),
    {
        any_solana_chain(&self.chains)
    }

    /// A copy of this account.
    pub fn copy(&self) -> (r: WalletAccount)
        ensures
            r@ == self@,
    {
        WalletAccount {
            handle: self.handle,
            address: self.address.clone(),
            public_key: copy_bytes(&self.public_key),
            chains: copy_strings(&self.chains),
            features: copy_strings(&self.features),
        }
    }
}

} // verus!
