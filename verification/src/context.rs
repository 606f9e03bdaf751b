//! The wallet state behind the reactive context: which wallets registered,
//! which one the user picked, which account is connected and which chain
//! transactions are signed for.
//!
//! The host drives it. Each step the host takes with a wallet (discovery,
//! connect, disconnect, signing) asks the state what to do, performs the
//! wallet call, and reports the outcome back.
use vstd::prelude::*;

use crate::discovery::WalletList;
use crate::error::{Error, ErrorView};
use crate::text::{opt_view, same_text};
use crate::wallet::{account_supports_solana, AccountView, Wallet, WalletAccount, WalletView};

verus! {

/// The mathematical picture of a [`WalletState`].
pub struct WalletStateView {
    pub wallets: Seq<WalletView>,
    pub selected: Option<WalletView>,
    pub account: Option<AccountView>,
    pub chain: Seq<char>,
    pub remembered: Option<Seq<char>>,
}

/// The picture of an optional wallet.
pub open spec fn opt_wallet(o: Option<Wallet>) -> Option<WalletView> {
    match o {
        Some(w) => Some(w@),
        None => None,
    }
}

/// The picture of an optional account.
pub open spec fn opt_account(o: Option<WalletAccount>) -> Option<AccountView> {
    match o {
        Some(a) => Some(a@),
        None => None,
    }
}

/// Some wallet in `ws` is named `name`.
pub open spec fn knows_name(ws: Seq<WalletView>, name: Seq<char>) -> bool {
    exists|i: int| 0 <= i < ws.len() && (#[trigger] ws[i]).name == name
}

/// No two wallets in `ws` share a name.
pub open spec fn names_distinct(ws: Seq<WalletView>) -> bool {
    forall|i: int, j: int|
        0 <= i < ws.len() && 0 <= j < ws.len() && i != j ==> (#[trigger] ws[i]).name != (
        #[trigger] ws[j]).name
}

/// The first account of `accounts` that advertises a Solana chain.
pub open spec fn first_solana_account(accounts: Seq<AccountView>) -> Option<AccountView>
    decreases accounts.len(),
{
    if accounts.len() == 0 {
        None
    } else if account_supports_solana(accounts[0]) {
        Some(accounts[0])
    } else {
        first_solana_account(accounts.drop_first())
    }
}

/// The pictures of a list of accounts.
pub open spec fn accounts_view(v: Seq<WalletAccount>) -> Seq<AccountView> {
    v.map_values(|a: WalletAccount| a@)
}

impl WalletStateView {
    /// The state is consistent: wallet names are distinct and a connected
    /// account always advertises a Solana chain.
    pub open spec fn wf(self) -> bool {
        &&& names_distinct(self.wallets)
        &&& (self.account matches Some(a) ==> account_supports_solana(a))
    }

    /// A registering wallet `w` is silently reconnected: it is the wallet
    /// remembered from an earlier session and no account is connected.
    pub open spec fn reconnects(self, w: WalletView) -> bool {
        self.remembered == Some(w.name) && self.account is None
    }

    /// The state after wallet `w` registered: appended unless a wallet of
    /// that name is known, and selected when it is silently reconnected.
    pub open spec fn registered(self, w: WalletView) -> WalletStateView {
        WalletStateView {
            wallets: if knows_name(self.wallets, w.name) {
                self.wallets
            } else {
                self.wallets.push(w)
            },
            selected: if self.reconnects(w) {
                Some(w)
            } else {
                self.selected
            },
            ..self
        }
    }

    /// The state after the user picked `w`.
    pub open spec fn selecting(self, w: WalletView) -> WalletStateView {
        WalletStateView { selected: Some(w), ..self }
    }

    /// The state after switching the signing chain to `chain`.
    pub open spec fn with_chain(self, chain: Seq<char>) -> WalletStateView {
        WalletStateView { chain, ..self }
    }

    /// The state after a wallet exposed `accounts` on connecting: the first
    /// Solana account becomes the connected one; without one nothing changes.
    pub open spec fn connected(self, accounts: Seq<AccountView>) -> WalletStateView {
        match first_solana_account(accounts) {
            Some(a) => WalletStateView { account: Some(a), ..self },
            None => self,
        }
    }

    /// The state after disconnecting: no account.
    pub open spec fn disconnected(self) -> WalletStateView {
        WalletStateView { account: None, ..self }
    }
}

/// Wallets, selection, connected account and signing chain.
pub struct WalletState {
    wallets: WalletList,
    selected: Option<Wallet>,
    account: Option<WalletAccount>,
    chain: String,
    remembered: Option<String>,
}

impl View for WalletState {
    type V = WalletStateView;

    closed spec fn view(&self) -> WalletStateView {
        WalletStateView {
            wallets: self.wallets@,
            selected: opt_wallet(self.selected),
            account: opt_account(self.account),
            chain: self.chain@,
            remembered: opt_view(self.remembered),
        }
    }
}

impl WalletState {
    /// Every state is consistent (see [`WalletStateView::wf`]).
    #[verifier::type_invariant]
    spec fn consistent(self) -> bool {
        self@.wf()
    }
}

/// The first account of `accounts` that advertises a Solana chain.
///
/// Multi-chain wallets can expose accounts of other chains; taking the
/// first account unfiltered would hand an Ethereum address to Solana calls.
pub fn pick_solana_account(accounts: Vec<WalletAccount>) -> (r: Option<WalletAccount>)
    ensures
        opt_account(r) == first_solana_account(accounts_view(accounts@)),
{
    let ghost all = accounts_view(accounts@);
    let mut pool = accounts;
    let mut i: usize = 0;
    assert(all.skip(0) =~= all);
    while i < pool.len()
        invariant
            i <= pool.len(),
            all == accounts_view(pool@),
            all == accounts_view(accounts@),
            first_solana_account(all) == first_solana_account(all.skip(i as int)),
        decreases pool.len() - i,
    {
        assert(all.skip(i as int)[0] == pool@[i as int]@);
        if pool[i].supports_solana() {
            let ghost rest = all.skip(i as int);
            assert(first_solana_account(rest) == Some(rest[0]));
            let a = pool.swap_remove(i);
            return Some(a);
        }
        assert(all.skip(i as int).drop_first() =~= all.skip(i + 1));
        i += 1;
    }
    None
}

impl WalletState {
    /// A fresh state: no wallets, nothing selected, no account, signing for
    /// `default_chain`; `remembered` is the wallet name persisted by an
    /// earlier session, if any.
    pub fn new(default_chain: &str, remembered: Option<String>) -> (r: WalletState)
        ensures
            r@ == (WalletStateView {
                wallets: Seq::empty(),
                selected: None,
                account: None,
                chain: default_chain@,
                remembered: opt_view(remembered),
            }),
            r@.wf(),
    {
        WalletState {
            wallets: WalletList::new(),
            selected: None,
            account: None,
            chain: String::from_str(default_chain),
            remembered,
        }
    }

    /// Every wallet that registered so far.
    pub fn wallets(&self) -> (r: &WalletList)
        ensures
            r@ == self@.wallets,
    {
        &self.wallets
    }

    /// The wallet the user picked, if any.
    pub fn selected(&self) -> (r: &Option<Wallet>)
        ensures
            opt_wallet(*r) == self@.selected,
    {
        &self.selected
    }

    /// The connected account, if any.
    pub fn account(&self) -> (r: &Option<WalletAccount>)
        ensures
            opt_account(*r) == self@.account,
    {
        &self.account
    }

    /// The chain transactions are signed for.
    pub fn chain(&self) -> (r: &str)
        ensures
            r@ == self@.chain,
    {
        self.chain.as_str()
    }

    /// True when a wallet named `name` has registered.
    fn knows(&self, name: &str) -> (r: bool)
        ensures
            r == knows_name(self@.wallets, name@),
    {
        let mut i: usize = 0;
        while i < self.wallets.0.len()
            invariant
                i <= self.wallets.0.len(),
                forall|k: int| 0 <= k < i ==> (#[trigger] self@.wallets[k]).name != name@,
            decreases self.wallets.0.len() - i,
        {
            assert(self@.wallets[i as int] == self.wallets.0@[i as int]@);
            if same_text(self.wallets.0[i].name.as_str(), name) {
                return true;
            }
            i += 1;
        }
        false
    }

    /// A wallet registered (discovery reported it). Appends it unless a
    /// wallet of that name is known. Returns true when the host should
    /// silently reconnect it: it is the remembered wallet and no account is
    /// connected; it is then also the selected wallet.
    pub fn register(&mut self, wallet: Wallet) -> (reconnect: bool)
        ensures
            final(self)@ == old(self)@.registered(wallet@),
            reconnect == old(self)@.reconnects(wallet@),
            final(self)@.wf(),
    {
        proof {
            use_type_invariant(&*self);
        }
        let known = self.knows(wallet.name.as_str());
        let reconnect = match &self.remembered {
            Some(name) => same_text(name.as_str(), wallet.name.as_str()) && self.account.is_none(),
            None => false,
        };
        let ghost before = self.wallets@;
        if !known {
            let mut list = WalletList::new();
            core::mem::swap(&mut list, &mut self.wallets);
            list.0.push(wallet.copy());
            assert(list@ =~= before.push(wallet@));
            core::mem::swap(&mut list, &mut self.wallets);
        }
        if reconnect {
            self.selected = Some(wallet);
        }
        reconnect
    }

    /// The user picked `wallet`. Does not ask the wallet for anything.
    pub fn select(&mut self, wallet: Wallet)
        ensures
            final(self)@ == old(self)@.selecting(wallet@),
    {
        proof {
            use_type_invariant(&*self);
        }
        self.selected = Some(wallet);
    }

    /// Switches the chain passed to the wallet on later signing calls.
    pub fn set_chain(&mut self, chain: String)
        ensures
            final(self)@ == old(self)@.with_chain(chain@),
    {
        proof {
            use_type_invariant(&*self);
        }
        self.chain = chain;
    }

    /// The wallet to connect: the selected one, else `NoAccount`.
    pub fn connect_target(&self) -> (r: Result<Wallet, Error>)
        ensures
            match r {
                Ok(w) => self@.selected == Some(w@),
                Err(e) => self@.selected is None && e@ == ErrorView::NoAccount,
            },
    {
        match &self.selected {
            Some(w) => Ok(w.copy()),
            None => Err(Error::NoAccount),
        }
    }

    /// The wallet `wallet` answered a connect request with `accounts`. The
    /// first Solana account becomes the connected one and the wallet's name
    /// is returned for persisting; without a Solana account the answer is
    /// `NoAccount` and nothing changes.
    pub fn finish_connect(&mut self, wallet: &Wallet, accounts: Vec<WalletAccount>) -> (r: Result<
        String,
        Error,
    >)
        ensures
            final(self)@ == old(self)@.connected(accounts_view(accounts@)),
            final(self)@.wf(),
            match r {
                Ok(name) => first_solana_account(accounts_view(accounts@)) is Some && name@
                    == wallet@.name,
                Err(e) => first_solana_account(accounts_view(accounts@)) is None && e@
                    == ErrorView::NoAccount,
            },
    {
        proof {
            use_type_invariant(&*self);
        }
        let ghost accs = accounts_view(accounts@);
        proof {
            lemma_first_solana_supports(accs);
        }
        match pick_solana_account(accounts) {
            Some(a) => {
                self.account = Some(a);
                Ok(wallet.name.clone())
            },
            None => Err(Error::NoAccount),
        }
    }

    /// A silent reconnect answered with `accounts`: the first Solana account,
    /// if any, becomes the connected one.
    pub fn finish_silent_connect(&mut self, accounts: Vec<WalletAccount>)
        ensures
            final(self)@ == old(self)@.connected(accounts_view(accounts@)),
            final(self)@.wf(),
    {
        proof {
            use_type_invariant(&*self);
        }
        let ghost accs = accounts_view(accounts@);
        proof {
            lemma_first_solana_supports(accs);
        }
        match pick_solana_account(accounts) {
            Some(a) => {
                self.account = Some(a);
            },
            None => {},
        }
    }

    /// The wallet to ask to disconnect: the selected one, if any.
    pub fn disconnect_target(&self) -> (r: Option<Wallet>)
        ensures
            opt_wallet(r) == self@.selected,
    {
        match &self.selected {
            Some(w) => Some(w.copy()),
            None => None,
        }
    }

    /// The disconnect went through (or no wallet was selected): the account
    /// is dropped. The host also forgets the persisted wallet name.
    pub fn finish_disconnect(&mut self)
        ensures
            final(self)@ == old(self)@.disconnected(),
            final(self)@.wf(),
    {
        proof {
            use_type_invariant(&*self);
        }
        self.account = None;
    }

    /// What a signing request goes to: the selected wallet, the connected
    /// account and the chain; `NoAccount` when either is missing.
    pub fn signing_target(&self) -> (r: Result<(Wallet, WalletAccount, String), Error>)
        ensures
            match r {
                Ok((w, a, c)) => self@.selected == Some(w@) && self@.account == Some(a@) && c@
                    == self@.chain,
                Err(e) => (self@.selected is None || self@.account is None) && e@
                    == ErrorView::NoAccount,
            },
    {
        match (&self.selected, &self.account) {
            (Some(w), Some(a)) => Ok((w.copy(), a.copy(), self.chain.clone())),
            _ => Err(Error::NoAccount),
        }
    }
}

/// The account [`first_solana_account`] picks advertises a Solana chain.
pub proof fn lemma_first_solana_supports(accounts: Seq<AccountView>)
    ensures
        first_solana_account(accounts) matches Some(a) ==> account_supports_solana(a),
    decreases accounts.len(),
{
    if accounts.len() > 0 && !account_supports_solana(accounts[0]) {
        lemma_first_solana_supports(accounts.drop_first());
    }
}

} // verus!
