//! The list of wallets found through Wallet Standard discovery.
use vstd::prelude::*;

use crate::text::same_text;
use crate::wallet::{wallet_supports_solana, Wallet, WalletView};

verus! {

/// Every wallet that registered, in the order of registration.
#[derive(Debug, Clone)]
pub struct WalletList(pub Vec<Wallet>);

impl View for WalletList {
    type V = Seq<WalletView>;

    open spec fn view(&self) -> Seq<WalletView> {
        self.0@.map_values(|w: Wallet| w@)
    }
}

/// The wallets of `ws` that advertise a Solana chain, in their order.
pub open spec fn solana_wallets(ws: Seq<WalletView>) -> Seq<WalletView>
    decreases ws.len(),
{
    if ws.len() == 0 {
        ws
    } else {
        let rest = solana_wallets(ws.drop_last());
        if wallet_supports_solana(ws.last()) {
            rest.push(ws.last())
        } else {
            rest
        }
    }
}

/// The first wallet of `ws` named `name`, if any.
pub open spec fn first_named(ws: Seq<WalletView>, name: Seq<char>) -> Option<WalletView>
    decreases ws.len(),
{
    if ws.len() == 0 {
        None
    } else if ws[0].name == name {
        Some(ws[0])
    } else {
        first_named(ws.drop_first(), name)
    }
}

impl Default for WalletList {
    fn default() -> (r: Self)
        ensures
            r@ == Seq::<WalletView>::empty(),
    {
        WalletList::new()
    }
}

impl WalletList {
    /// The empty list.
    pub fn new() -> (r: Self)
        ensures
            r@ == Seq::<WalletView>::empty(),
    {
        let r = WalletList(Vec::new());
        assert(r@ =~= Seq::<WalletView>::empty());
        r
    }

    /// Number of wallets.
    pub fn len(&self) -> (r: usize)
        ensures
            r == self@.len(),
    {
        self.0.len()
    }

    /// True when no wallet has registered.
    pub fn is_empty(&self) -> (r: bool)
        ensures
            r == (self@.len() == 0),
    {
        self.0.len() == 0
    }

    /// Keeps the wallets that advertise a Solana chain, in their order.
    pub fn solana_only(self) -> (r: Self)
        ensures
            r@ == solana_wallets(self@),
    {
        let mut out: Vec<Wallet> = Vec::new();
        let mut i: usize = 0;
        while i < self.0.len()
            invariant
                i <= self.0.len(),
                out@.map_values(|w: Wallet| w@) == solana_wallets(self@.take(i as int)),
            decreases self.0.len() - i,
        {
            let ghost before = out@.map_values(|w: Wallet| w@);
            assert(self@.take(i + 1).drop_last() =~= self@.take(i as int));
            assert(self@.take(i + 1).last() == self.0@[i as int]@);
            if self.0[i].supports_solana() {
                out.push(self.0[i].copy());
                assert(out@.map_values(|w: Wallet| w@) =~= before.push(self.0@[i as int]@));
            }
            i += 1;
        }
        assert(self@.take(self@.len() as int) =~= self@);
        let r = WalletList(out);
        r
    }

    /// The first wallet named `name`, if any.
    pub fn find_by_name(&self, name: &str) -> (r: Option<&Wallet>)
        ensures
            match r {
                Some(w) => first_named(self@, name@) == Some(w@),
                None => first_named(self@, name@) is None,
            },
    {
        let mut i: usize = 0;
        assert(self@.skip(0) =~= self@);
        while i < self.0.len()
            invariant
                i <= self.0.len(),
                first_named(self@, name@) == first_named(self@.skip(i as int), name@),
            decreases self.0.len() - i,
        {
            assert(self@.skip(i as int)[0] == self.0@[i as int]@);
            if same_text(self.0[i].name.as_str(), name) {
                return Some(&self.0[i]);
            }
            assert(self@.skip(i as int).drop_first() =~= self@.skip(i + 1));
            i += 1;
        }
        None
    }
}

} // verus!
