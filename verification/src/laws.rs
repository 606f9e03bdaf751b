//! Properties that hold across the library's operations.
use vstd::prelude::*;

use crate::context::{first_solana_account, knows_name, lemma_first_solana_supports, WalletStateView};
use crate::discovery::{first_named, solana_wallets};
use crate::error::{classify, expecting_chain, message_or_empty, whole_code, ErrorView, ThrownValue};
use crate::features::{feature_id, method_name, output_field, WalletFeature};
use crate::text::{ascii_lowercase, codes, is_prefix_of, mentions, strings_view};
use crate::wallet::{
    advertises_solana, FEATURE_CONNECT, FEATURE_DISCONNECT, FEATURE_SIGN_AND_SEND_TRANSACTION,
    FEATURE_SIGN_MESSAGE, FEATURE_SIGN_TRANSACTION,
};
use crate::wallet::{account_supports_solana, wallet_supports_solana, AccountView, WalletView};

verus! {

/// Registering a wallet makes its name known, and registering it again
/// changes nothing in the list of wallets.
pub proof fn law_register_idempotent(s: WalletStateView, w: WalletView)
    ensures
        knows_name(s.registered(w).wallets, w.name),
        s.registered(w).registered(w).wallets == s.registered(w).wallets,
{
    let r = s.registered(w);
    if !knows_name(s.wallets, w.name) {
        assert(r.wallets[s.wallets.len() as int] == w);
    }
}

/// Registration only ever touches the list and the selection: the connected
/// account, the signing chain and the remembered name stay as they were.
pub proof fn law_register_keeps_account_and_chain(s: WalletStateView, w: WalletView)
    ensures
        s.registered(w).account == s.account,
        s.registered(w).chain == s.chain,
        s.registered(w).remembered == s.remembered,
{
}

/// Once a connect found a Solana account, no later registration triggers a
/// silent reconnect.
pub proof fn law_no_reconnect_once_connected(
    s: WalletStateView,
    accounts: Seq<AccountView>,
    w: WalletView,
)
    requires
        first_solana_account(accounts) is Some,
    ensures
        !s.connected(accounts).reconnects(w),
{
}

/// A connect that finds no Solana account leaves the state as it was.
pub proof fn law_connect_without_solana_account_changes_nothing(
    s: WalletStateView,
    accounts: Seq<AccountView>,
)
    requires
        first_solana_account(accounts) is None,
    ensures
        s.connected(accounts) == s,
{
}

/// The account a connect installs advertises a Solana chain and is one of
/// the accounts the wallet exposed.
pub proof fn law_connected_account_is_solana(s: WalletStateView, accounts: Seq<AccountView>)
    ensures
        first_solana_account(accounts) matches Some(a) ==> s.connected(accounts).account == Some(
            a,
        ) && account_supports_solana(a) && accounts.contains(a),
{
    lemma_first_solana_supports(accounts);
    lemma_first_solana_member(accounts);
}

/// The account [`first_solana_account`] picks is one of the accounts.
proof fn lemma_first_solana_member(accounts: Seq<AccountView>)
    ensures
        first_solana_account(accounts) matches Some(a) ==> accounts.contains(a),
    decreases accounts.len(),
{
    if accounts.len() > 0 {
        if account_supports_solana(accounts[0]) {
            assert(accounts[0] == accounts[0]);
        } else {
            lemma_first_solana_member(accounts.drop_first());
            if let Some(a) = first_solana_account(accounts.drop_first()) {
                let k = choose|k: int| 0 <= k < accounts.drop_first().len() && accounts.drop_first()[k] == a;
                assert(accounts[k + 1] == a);
            }
        }
    }
}

/// After disconnecting there is no account, so every signing request is
/// answered `NoAccount` until the next connect; the wallet list, selection
/// and chain stay.
pub proof fn law_disconnect_drops_account(s: WalletStateView)
    ensures
        s.disconnected().account is None,
        s.disconnected().wallets == s.wallets,
        s.disconnected().selected == s.selected,
        s.disconnected().chain == s.chain,
{
}

/// Picking a wallet makes it the one a connect goes to, and touches nothing
/// else.
pub proof fn law_select_then_connect_target(s: WalletStateView, w: WalletView)
    ensures
        s.selecting(w).selected == Some(w),
        s.selecting(w).account == s.account,
        s.selecting(w).wallets == s.wallets,
{
}

/// The chain set last is the chain signing requests go to.
pub proof fn law_set_chain_then_sign(s: WalletStateView, c1: Seq<char>, c2: Seq<char>)
    ensures
        s.with_chain(c1).chain == c1,
        s.with_chain(c1).with_chain(c2) == s.with_chain(c2),
{
}

/// Every operation keeps the state consistent (distinct wallet names, a
/// connected account advertises Solana).
pub proof fn law_operations_keep_state_consistent(
    s: WalletStateView,
    w: WalletView,
    accounts: Seq<AccountView>,
    c: Seq<char>,
)
    requires
        s.wf(),
    ensures
        s.registered(w).wf(),
        s.selecting(w).wf(),
        s.with_chain(c).wf(),
        s.connected(accounts).wf(),
        s.disconnected().wf(),
{
    lemma_first_solana_supports(accounts);
    let r = s.registered(w);
    if !knows_name(s.wallets, w.name) {
        assert forall|i: int, j: int|
            0 <= i < r.wallets.len() && 0 <= j < r.wallets.len() && i != j implies
            (#[trigger] r.wallets[i]).name != (#[trigger] r.wallets[j]).name by {
            if i < s.wallets.len() && j < s.wallets.len() {
            } else if i < s.wallets.len() {
                assert(s.wallets[i] == r.wallets[i]);
            } else {
                assert(s.wallets[j] == r.wallets[j]);
            }
        }
    }
}

/// Keeping only Solana wallets keeps only wallets that advertise Solana,
/// and doing it twice is the same as doing it once.
pub proof fn law_solana_only(ws: Seq<WalletView>)
    ensures
        forall|i: int|
            0 <= i < solana_wallets(ws).len() ==> wallet_supports_solana(
                #[trigger] solana_wallets(ws)[i],
            ),
        solana_wallets(solana_wallets(ws)) == solana_wallets(ws),
        solana_wallets(ws).len() <= ws.len(),
    decreases ws.len(),
{
    if ws.len() > 0 {
        law_solana_only(ws.drop_last());
        let rest = solana_wallets(ws.drop_last());
        if wallet_supports_solana(ws.last()) {
            let r = rest.push(ws.last());
            assert(r.drop_last() =~= rest);
            assert(solana_wallets(r) == solana_wallets(rest).push(ws.last()));
        }
    }
}

/// The wallet found by name carries that name; a name no wallet carries
/// finds nothing.
pub proof fn law_find_by_name(ws: Seq<WalletView>, name: Seq<char>)
    ensures
        first_named(ws, name) matches Some(w) ==> w.name == name,
        first_named(ws, name) is None <==> !knows_name(ws, name),
    decreases ws.len(),
{
    if ws.len() > 0 {
        law_find_by_name(ws.drop_first(), name);
        if ws[0].name != name {
            if knows_name(ws, name) {
                let k = choose|k: int| 0 <= k < ws.len() && (#[trigger] ws[k]).name == name;
                assert(ws.drop_first()[k - 1].name == name);
            }
            if knows_name(ws.drop_first(), name) {
                let k = choose|k: int|
                    0 <= k < ws.drop_first().len() && (#[trigger] ws.drop_first()[k]).name == name;
                assert(ws[k + 1].name == name);
            }
        }
    }
}

/// A wallet's numeric code decides the error before anything its message
/// says: `4001` is a rejection, `4100` a locked wallet, `4200` an
/// unsupported method, `4900` a disconnected wallet, `4901` a wrong chain.
pub proof fn law_wallet_code_decides_first(v: ThrownValue)
    requires
        v.object is Some,
    ensures
        whole_code(v.object->0) == Some(4001i64) ==> classify(v) == ErrorView::UserRejected,
        whole_code(v.object->0) == Some(4100i64) ==> classify(v) == ErrorView::WalletLocked,
        whole_code(v.object->0) == Some(4200i64) ==> classify(v) is UnsupportedMethod,
        whole_code(v.object->0) == Some(4900i64) ==> classify(v)
            == ErrorView::WalletDisconnected,
        whole_code(v.object->0) == Some(4901i64) ==> classify(v) is WrongChain,
{
}

/// Without a wallet code, a message that mentions "blockhash not found" (in
/// any ASCII case) is a `BlockhashNotFound` error, one that mentions
/// "insufficient funds" an `InsufficientFunds` error.
pub proof fn law_message_phrases(v: ThrownValue)
    requires
        v.object is Some,
        !(whole_code(v.object->0) matches Some(c) && (c == 4001 || c == 4100 || c == 4200 || c
            == 4900 || c == 4901)),
    ensures
        mentions(message_or_empty(v.object->0), "blockhash not found"@) && message_or_empty(
            v.object->0,
        ).len() > 0 ==> classify(v) == ErrorView::BlockhashNotFound,
        !mentions(message_or_empty(v.object->0), "blockhash not found"@) && mentions(
            message_or_empty(v.object->0),
            "insufficient funds"@,
        ) && message_or_empty(v.object->0).len() > 0 ==> classify(v)
            == ErrorView::InsufficientFunds,
{
}

/// A thrown value is always sorted into one of the wallet-side errors: it is
/// never reported as an RPC, decoding or serialisation failure, nor as a
/// missing feature or account.
pub proof fn law_thrown_values_stay_wallet_side(v: ThrownValue)
    ensures
        !(classify(v) is Rpc),
        !(classify(v) is Decode),
        !(classify(v) is Serialize),
        !(classify(v) is MissingFeature),
        !(classify(v) is NoAccount),
{
}

/// A wallet answering a request made for `chain` with code `4901` is
/// reported as a wrong-chain error expecting `chain`; naming the chain leaves
/// every other error as it was.
pub proof fn law_wrong_chain_names_requested_chain(v: ThrownValue, chain: Seq<char>)
    ensures
        (v.object matches Some(o) && whole_code(o) == Some(4901i64)) ==> expecting_chain(
            classify(v),
            chain,
        ) == (ErrorView::WrongChain { expected: chain, got: None }),
        !(classify(v) is WrongChain) ==> expecting_chain(classify(v), chain) == classify(v),
{
}

/// A message that mentions a non-empty phrase is not empty.
proof fn lemma_mentions_nonempty(text: Seq<char>, phrase: Seq<char>)
    requires
        mentions(text, phrase),
        phrase.len() > 0,
    ensures
        text.len() > 0,
{
    let i = choose|i: int|
        0 <= i && i + codes(phrase).len() <= ascii_lowercase(text).len() && #[trigger] ascii_lowercase(
            text,
        ).subrange(i, i + codes(phrase).len()) == codes(phrase);
    assert(ascii_lowercase(text).len() == text.len());
}

/// Without a wallet code, the phrases of a message decide the error in a
/// fixed order, whatever else the message says (ASCII case ignored):
/// "blockhash not found" first; then "insufficient funds" or "attempt to
/// debit an account but found no record of a prior credit" (the preflight
/// failure of an unfunded sender, usually inside a "Transaction simulation
/// failed" message) are insufficient funds; only then "transaction
/// simulation failed" is a simulation failure carrying the logs and message.
pub proof fn law_message_phrase_order(v: ThrownValue)
    requires
        v.object is Some,
        !(whole_code(v.object->0) matches Some(c) && (c == 4001 || c == 4100 || c == 4200 || c
            == 4900 || c == 4901)),
    ensures
        ({
            let o = v.object->0;
            let m = message_or_empty(o);
            &&& mentions(m, "blockhash not found"@) ==> classify(v) == ErrorView::BlockhashNotFound
            &&& !mentions(m, "blockhash not found"@) && mentions(
                m,
                "attempt to debit an account but found no record of a prior credit"@,
            ) ==> classify(v) == ErrorView::InsufficientFunds
            &&& !mentions(m, "blockhash not found"@) && mentions(m, "insufficient funds"@)
                ==> classify(v) == ErrorView::InsufficientFunds
            &&& !mentions(m, "blockhash not found"@) && !mentions(m, "insufficient funds"@)
                && !mentions(m, "attempt to debit an account but found no record of a prior credit"@)
                && mentions(m, "transaction simulation failed"@) ==> classify(v)
                == (ErrorView::SimulationFailed { logs: strings_view(o.logs@), err: m })
        }),
{
    reveal_strlit("blockhash not found");
    reveal_strlit("attempt to debit an account but found no record of a prior credit");
    reveal_strlit("insufficient funds");
    reveal_strlit("transaction simulation failed");
    let m = message_or_empty(v.object->0);
    if mentions(m, "blockhash not found"@) {
        lemma_mentions_nonempty(m, "blockhash not found"@);
    }
    if mentions(m, "attempt to debit an account but found no record of a prior credit"@) {
        lemma_mentions_nonempty(
            m,
            "attempt to debit an account but found no record of a prior credit"@,
        );
    }
    if mentions(m, "insufficient funds"@) {
        lemma_mentions_nonempty(m, "insufficient funds"@);
    }
    if mentions(m, "transaction simulation failed"@) {
        lemma_mentions_nonempty(m, "transaction simulation failed"@);
    }
}

/// A list of chains advertises Solana exactly when a chain at some position
/// starts with `solana:`; so adding a chain anywhere keeps a Solana list
/// Solana, and the answer does not depend on the order of the chains.
pub proof fn law_advertises_solana_any_position(chains: Seq<Seq<char>>, c: Seq<char>, i: int)
    ensures
        0 <= i < chains.len() && is_prefix_of("solana:"@, chains[i]) ==> advertises_solana(chains),
        advertises_solana(chains) ==> exists|k: int|
            0 <= k < chains.len() && is_prefix_of("solana:"@, #[trigger] chains[k]),
        advertises_solana(chains.push(c)) == (advertises_solana(chains) || is_prefix_of(
            "solana:"@,
            c,
        )),
        advertises_solana(seq![c] + chains) == (is_prefix_of("solana:"@, c) || advertises_solana(
            chains,
        )),
{
    let p = chains.push(c);
    let q = seq![c] + chains;
    if advertises_solana(p) {
        let k = choose|k: int| 0 <= k < p.len() && is_prefix_of("solana:"@, #[trigger] p[k]);
        if k < chains.len() {
            assert(chains[k] == p[k]);
        }
    }
    if advertises_solana(chains) {
        let k = choose|k: int| 0 <= k < chains.len() && is_prefix_of("solana:"@, #[trigger] chains[k]);
        assert(p[k] == chains[k]);
        assert(q[k + 1] == chains[k]);
    }
    if is_prefix_of("solana:"@, c) {
        assert(p[chains.len() as int] == c);
        assert(q[0] == c);
    }
    if advertises_solana(q) {
        let k = choose|k: int| 0 <= k < q.len() && is_prefix_of("solana:"@, #[trigger] q[k]);
        if k > 0 {
            assert(chains[k - 1] == q[k]);
        }
    }
}

/// Two lists holding the same chains (in any order, any number of times)
/// agree on advertising Solana.
pub proof fn law_advertises_solana_ignores_order(a: Seq<Seq<char>>, b: Seq<Seq<char>>)
    requires
        forall|x: Seq<char>| a.contains(x) <==> b.contains(x),
    ensures
        advertises_solana(a) == advertises_solana(b),
{
    if advertises_solana(a) {
        let k = choose|k: int| 0 <= k < a.len() && is_prefix_of("solana:"@, #[trigger] a[k]);
        assert(a.contains(a[k]));
        let j = choose|j: int| 0 <= j < b.len() && b[j] == a[k];
        assert(is_prefix_of("solana:"@, b[j]));
    }
    if advertises_solana(b) {
        let k = choose|k: int| 0 <= k < b.len() && is_prefix_of("solana:"@, #[trigger] b[k]);
        assert(b.contains(b[k]));
        let j = choose|j: int| 0 <= j < a.len() && a[j] == b[k];
        assert(is_prefix_of("solana:"@, a[j]));
    }
}

/// A connect changes only the account: the signing chain, the selection,
/// the wallet list and the remembered name stay as they were.
pub proof fn law_connect_changes_only_the_account(s: WalletStateView, accounts: Seq<AccountView>)
    ensures
        s.connected(accounts).chain == s.chain,
        s.connected(accounts).selected == s.selected,
        s.connected(accounts).wallets == s.wallets,
        s.connected(accounts).remembered == s.remembered,
        first_solana_account(accounts) matches Some(a) ==> s.connected(accounts).account == Some(a),
        first_solana_account(accounts) is None ==> s.connected(accounts).account == s.account,
{
}

/// The account a connect keeps is the first Solana account: every account
/// before it advertises no Solana chain.
pub proof fn law_connect_keeps_first_solana_account(accounts: Seq<AccountView>)
    ensures
        first_solana_account(accounts) matches Some(a) ==> exists|i: int|
            0 <= i < accounts.len() && accounts[i] == a && advertises_solana(a.chains) && (forall|
                j: int,
            |
                0 <= j < i ==> !advertises_solana(#[trigger] accounts[j].chains)),
        first_solana_account(accounts) is None ==> forall|j: int|
            0 <= j < accounts.len() ==> !advertises_solana(#[trigger] accounts[j].chains),
    decreases accounts.len(),
{
    if accounts.len() > 0 {
        law_connect_keeps_first_solana_account(accounts.drop_first());
        let rest = accounts.drop_first();
        if !account_supports_solana(accounts[0]) {
            if let Some(a) = first_solana_account(rest) {
                let i = choose|i: int|
                    0 <= i < rest.len() && rest[i] == a && advertises_solana(a.chains) && (forall|
                        j: int,
                    |
                        0 <= j < i ==> !advertises_solana(#[trigger] rest[j].chains));
                assert(accounts[i + 1] == a);
                assert forall|j: int| 0 <= j < i + 1 implies !advertises_solana(
                    #[trigger] accounts[j].chains,
                ) by {
                    if j > 0 {
                        assert(accounts[j] == rest[j - 1]);
                    }
                }
            } else {
                assert forall|j: int| 0 <= j < accounts.len() implies !advertises_solana(
                    #[trigger] accounts[j].chains,
                ) by {
                    if j > 0 {
                        assert(accounts[j] == rest[j - 1]);
                    }
                }
            }
        }
    }
}

/// Each feature is looked up under the Wallet Standard identifier
/// `<namespace>:<method>` (`standard` for connect and disconnect, `solana`
/// for the signing features), the crate's feature constants name the same
/// strings, and no two features share an identifier.
pub proof fn law_feature_ids(f: WalletFeature, g: WalletFeature)
    ensures
        feature_id(f) == (if f is Connect || f is Disconnect {
            "standard"@
        } else {
            "solana"@
        }) + ":"@ + method_name(f),
        feature_id(WalletFeature::Connect) == FEATURE_CONNECT@,
        feature_id(WalletFeature::Disconnect) == FEATURE_DISCONNECT@,
        feature_id(WalletFeature::SignMessage) == FEATURE_SIGN_MESSAGE@,
        feature_id(WalletFeature::SignTransaction) == FEATURE_SIGN_TRANSACTION@,
        feature_id(WalletFeature::SignAndSendTransaction) == FEATURE_SIGN_AND_SEND_TRANSACTION@,
        f != g ==> feature_id(f) != feature_id(g),
        f != g ==> method_name(f) != method_name(g),
{
    reveal_strlit("standard:connect");
    reveal_strlit("standard:disconnect");
    reveal_strlit("solana:signMessage");
    reveal_strlit("solana:signTransaction");
    reveal_strlit("solana:signAndSendTransaction");
    reveal_strlit("standard");
    reveal_strlit("solana");
    reveal_strlit(":");
    reveal_strlit("connect");
    reveal_strlit("disconnect");
    reveal_strlit("signMessage");
    reveal_strlit("signTransaction");
    reveal_strlit("signAndSendTransaction");
    assert(feature_id(f) =~= (if f is Connect || f is Disconnect {
        "standard"@
    } else {
        "solana"@
    }) + ":"@ + method_name(f));
    if f != g {
        assert(method_name(f) != method_name(g)) by {
            if method_name(f).len() == method_name(g).len() {
                assert(method_name(f)[0] != method_name(g)[0] || method_name(f)[4] != method_name(
                    g,
                )[4] || method_name(f)[7] != method_name(g)[7]);
            }
        }
        assert(feature_id(f) != feature_id(g)) by {
            let pf = (if f is Connect || f is Disconnect {
                "standard"@
            } else {
                "solana"@
            }) + ":"@;
            let pg = (if g is Connect || g is Disconnect {
                "standard"@
            } else {
                "solana"@
            }) + ":"@;
            if pf == pg {
                assert(feature_id(f).subrange(pf.len() as int, feature_id(f).len() as int)
                    =~= method_name(f));
                assert(feature_id(g).subrange(pg.len() as int, feature_id(g).len() as int)
                    =~= method_name(g));
            } else {
                assert(feature_id(f)[1] != feature_id(g)[1]);
            }
        }
    }
}

/// The field read from a signing feature's output is the one the Wallet
/// Standard defines for what the feature returns: `signature` for the
/// features that return a signature (sign a message, sign and send), and
/// `signedTransaction` for the one that returns the signed transaction;
/// connect reads `accounts` and disconnect reads nothing.
pub proof fn law_output_fields(f: WalletFeature)
    ensures
        output_field(f) == Some("signature"@) <==> (f is SignMessage || f is SignAndSendTransaction),
        output_field(f) == Some("signedTransaction"@) <==> f is SignTransaction,
        output_field(f) == Some("accounts"@) <==> f is Connect,
        output_field(f) is None <==> f is Disconnect,
{
    reveal_strlit("signature");
    reveal_strlit("signedTransaction");
    reveal_strlit("accounts");
    assert("signature"@ != "signedTransaction"@) by {
        assert("signature"@.len() != "signedTransaction"@.len());
    }
    assert("signature"@ != "accounts"@) by {
        assert("signature"@.len() != "accounts"@.len());
    }
    assert("signedTransaction"@ != "accounts"@) by {
        assert("signedTransaction"@.len() != "accounts"@.len());
    }
}

} // verus!
