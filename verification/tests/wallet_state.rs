use leptos_solana::context::{pick_solana_account, WalletState};
use leptos_solana::discovery::WalletList;
use leptos_solana::features::WalletFeature;
use leptos_solana::wallet::{Wallet, WalletAccount, CHAIN_DEVNET, CHAIN_MAINNET};
use leptos_solana::Error;

fn wallet(handle: u64, name: &str, chains: &[&str]) -> Wallet {
    Wallet {
        handle,
        version: "1.0.0".to_string(),
        name: name.to_string(),
        icon: String::new(),
        chains: chains.iter().map(|c| c.to_string()).collect(),
    }
}

fn account(handle: u64, address: &str, chains: &[&str]) -> WalletAccount {
    WalletAccount {
        handle,
        address: address.to_string(),
        public_key: vec![1, 2, 3],
        chains: chains.iter().map(|c| c.to_string()).collect(),
        features: Vec::new(),
    }
}

#[test]
fn supports_solana_needs_a_solana_chain() {
    assert!(wallet(0, "Phantom", &["solana:mainnet"]).supports_solana());
    assert!(wallet(0, "Backpack", &["ethereum:1", "solana:devnet"]).supports_solana());
    assert!(!wallet(0, "MetaMask", &["ethereum:1"]).supports_solana());
    assert!(!wallet(0, "Empty", &[]).supports_solana());
}

#[test]
fn wallet_list_filters_and_finds() {
    let list = WalletList(vec![
        wallet(0, "MetaMask", &["ethereum:1"]),
        wallet(1, "Phantom", &["solana:mainnet"]),
        wallet(2, "Phantom", &["solana:devnet"]),
    ]);
    assert_eq!(list.len(), 3);
    assert!(!list.is_empty());
    assert_eq!(list.find_by_name("Phantom").map(|w| w.handle), Some(1));
    assert!(list.find_by_name("Glow").is_none());
    let solana = list.solana_only();
    assert_eq!(solana.0.iter().map(|w| w.handle).collect::<Vec<_>>(), vec![1, 2]);
    assert!(WalletList::new().is_empty());
}

#[test]
fn pick_solana_account_takes_the_first_solana_one() {
    let picked = pick_solana_account(vec![
        account(0, "0xabc", &["ethereum:1"]),
        account(1, "So1", &["solana:mainnet"]),
        account(2, "So2", &["solana:mainnet"]),
    ]);
    assert_eq!(picked.map(|a| a.handle), Some(1));
    assert!(pick_solana_account(vec![account(0, "0xabc", &["ethereum:1"])]).is_none());
    assert!(pick_solana_account(Vec::new()).is_none());
}

#[test]
fn registering_twice_keeps_one_entry() {
    let mut state = WalletState::new(CHAIN_MAINNET, None);
    assert!(!state.register(wallet(0, "Phantom", &["solana:mainnet"])));
    assert!(!state.register(wallet(1, "Phantom", &["solana:mainnet"])));
    assert!(!state.register(wallet(2, "Solflare", &["solana:mainnet"])));
    assert_eq!(state.wallets().len(), 2);
    assert_eq!(state.wallets().0[0].handle, 0);
    assert!(state.selected().is_none());
}

#[test]
fn remembered_wallet_is_selected_and_reconnected_once() {
    let mut state = WalletState::new(CHAIN_DEVNET, Some("Phantom".to_string()));
    assert!(!state.register(wallet(0, "Solflare", &["solana:mainnet"])));
    assert!(state.register(wallet(1, "Phantom", &["solana:mainnet"])));
    assert_eq!(state.selected().as_ref().map(|w| w.handle), Some(1));
    state.finish_silent_connect(vec![account(5, "So1", &["solana:devnet"])]);
    assert_eq!(state.account().as_ref().map(|a| a.handle), Some(5));
    // Connected now: a re-registration does not reconnect.
    assert!(!state.register(wallet(1, "Phantom", &["solana:mainnet"])));
}

#[test]
fn connect_needs_a_selection_and_a_solana_account() {
    let mut state = WalletState::new(CHAIN_MAINNET, None);
    assert_eq!(state.connect_target().err(), Some(Error::NoAccount));
    let phantom = wallet(1, "Phantom", &["solana:mainnet"]);
    state.select(phantom.clone());
    let target = state.connect_target().unwrap();
    assert_eq!(target.handle, 1);
    assert_eq!(
        state.finish_connect(&target, vec![account(3, "0xabc", &["ethereum:1"])]).err(),
        Some(Error::NoAccount)
    );
    assert!(state.account().is_none());
    assert_eq!(
        state.finish_connect(&target, vec![account(3, "0xabc", &["ethereum:1"]), account(4, "So1", &["solana:mainnet"])]),
        Ok("Phantom".to_string())
    );
    assert_eq!(state.account().as_ref().map(|a| a.handle), Some(4));
}

#[test]
fn signing_needs_wallet_and_account_and_uses_current_chain() {
    let mut state = WalletState::new(CHAIN_MAINNET, None);
    assert_eq!(state.signing_target().err(), Some(Error::NoAccount));
    let phantom = wallet(1, "Phantom", &["solana:mainnet"]);
    state.select(phantom.clone());
    assert_eq!(state.signing_target().err(), Some(Error::NoAccount));
    state.finish_connect(&phantom, vec![account(4, "So1", &["solana:mainnet"])]).unwrap();
    state.set_chain(CHAIN_DEVNET.to_string());
    let (w, a, chain) = state.signing_target().unwrap();
    assert_eq!((w.handle, a.handle, chain.as_str()), (1, 4, CHAIN_DEVNET));
    assert_eq!(state.chain(), CHAIN_DEVNET);
}

#[test]
fn disconnect_drops_the_account_but_keeps_the_selection() {
    let mut state = WalletState::new(CHAIN_MAINNET, None);
    let phantom = wallet(1, "Phantom", &["solana:mainnet"]);
    state.select(phantom.clone());
    state.finish_connect(&phantom, vec![account(4, "So1", &["solana:mainnet"])]).unwrap();
    assert_eq!(state.disconnect_target().map(|w| w.handle), Some(1));
    state.finish_disconnect();
    assert!(state.account().is_none());
    assert_eq!(state.selected().as_ref().map(|w| w.handle), Some(1));
    assert_eq!(state.signing_target().err(), Some(Error::NoAccount));
}

#[test]
fn feature_table_and_failures() {
    assert_eq!(WalletFeature::Connect.id(), "standard:connect");
    assert_eq!(WalletFeature::SignAndSendTransaction.id(), "solana:signAndSendTransaction");
    assert_eq!(WalletFeature::SignTransaction.method(), "signTransaction");
    assert_eq!(WalletFeature::SignTransaction.output(), Some("signedTransaction"));
    assert_eq!(WalletFeature::Disconnect.output(), None);
    assert_eq!(WalletFeature::SignMessage.missing(), Error::MissingFeature("solana:signMessage"));
    assert_eq!(
        WalletFeature::not_a_function("connect"),
        Error::Decode("feature method `connect` not a function".to_string())
    );
    assert_eq!(
        WalletFeature::Disconnect.no_promise(),
        Error::Decode("disconnect did not return Promise".to_string())
    );
    assert_eq!(
        WalletFeature::SignMessage.no_promise(),
        Error::Decode("feature method did not return a Promise".to_string())
    );
    assert_eq!(
        WalletFeature::Connect.bad_output(),
        Error::Decode("connect output missing `accounts` array".to_string())
    );
    assert_eq!(
        WalletFeature::SignAndSendTransaction.bad_output(),
        Error::Decode("signAndSendTransaction did not return array".to_string())
    );
    assert_eq!(
        WalletFeature::SignTransaction.missing_field(),
        Error::Decode("signTransaction output missing signedTransaction".to_string())
    );
    assert_eq!(
        WalletFeature::SignMessage.missing_field(),
        Error::Decode("signMessage output missing signature".to_string())
    );
}

#[test]
fn keeping_solana_wallets_twice_is_keeping_them_once() {
    let list = WalletList(vec![
        wallet(0, "Phantom", &["solana:mainnet"]),
        wallet(1, "MetaMask", &["ethereum:1"]),
        wallet(2, "Glow", &["solana:devnet", "solana:mainnet"]),
    ]);
    let once = list.clone().solana_only();
    let twice = once.clone().solana_only();
    assert_eq!(
        once.0.iter().map(|w| w.handle).collect::<Vec<_>>(),
        twice.0.iter().map(|w| w.handle).collect::<Vec<_>>()
    );
    assert!(once.0.iter().all(|w| w.supports_solana()));
}
