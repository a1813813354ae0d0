//! Decision logic of the regtest block generator.
//!
//! The generator talks to a node over RPC, sleeps and watches a stop signal;
//! none of that happens here. This module decides: which wallet to use at
//! bootstrap, whether the mining address belongs to regtest, and, as a state
//! machine from phase and event to next phase and action, what the run loop
//! does next.
use bitcoincore_rpc::bitcoin::address::NetworkUnchecked;
use bitcoincore_rpc::bitcoin::{Address, Network};
use std::time::Duration;
use vstd::prelude::*;
use vstd::string::StringExecFns;

verus! {

/// Name of the wallet created when the node has none.
pub const WALLET_NAME: &'static str = "regtest_wallet";

/// Blocks mined in one batch before the loop starts, enough for coinbase maturity.
pub const SEED_BLOCKS: u64 = 100;

/// Relies on `Clone` of `std::time::Duration`, a `Copy` type: the clone is the same duration.
pub assume_specification[ <Duration as Clone>::clone ](d: &Duration) -> (r: Duration)
    ensures
        r == *d,
;

/// Settings of a block generator.
#[derive(Clone)]
pub struct BlockGeneratorConfig {
    pub block_time: Duration,
    pub bitcoin_rpc_url: String,
    pub bitcoin_rpc_user: String,
    pub bitcoin_rpc_pass: String,
}

/// What went wrong in a block generator.
pub enum GeneratorError {
    /// The address the node handed out is not a regtest address.
    WrongNetwork,
    /// The seed batch could not be mined; the node's message.
    SeedMining(String),
    /// A balance query failed; the node's message.
    Balance(String),
}

/// What to do with the node's wallets at bootstrap.
pub enum WalletAction {
    Create(String),
    Load(String),
}

/// The wallet names as the node listed them, or `None` where listing failed.
pub open spec fn listed_names(listed: Option<Vec<String>>) -> Option<Seq<Seq<char>>> {
    match listed {
        Some(v) => Some(v@.map_values(|s: String| s@)),
        None => None,
    }
}

/// Bootstrap plan: `(true, name)` to create wallet `name`, `(false, name)` to load it.
/// The first listed wallet is loaded; with none listed, or no list at all,
/// the default wallet is created.
pub open spec fn wallet_plan(listed: Option<Seq<Seq<char>>>) -> (bool, Seq<char>) {
    match listed {
        Some(ws) if ws.len() > 0 => (false, ws[0]),
        _ => (true, WALLET_NAME@),
    }
}

/// The node's wallets after the plan for `listed` was carried out.
pub open spec fn wallets_after(listed: Option<Seq<Seq<char>>>) -> Seq<Seq<char>> {
    let (create, name) = wallet_plan(listed);
    let before = match listed {
        Some(ws) => ws,
        None => Seq::empty(),
    };
    if create {
        before.push(name)
    } else {
        before
    }
}

/// A wallet action as a plan: whether it creates, and which wallet.
pub open spec fn action_plan(a: WalletAction) -> (bool, Seq<char>) {
    match a {
        WalletAction::Create(n) => (true, n@),
        WalletAction::Load(n) => (false, n@),
    }
}

/// Chooses the bootstrap wallet action from the result of listing the node's wallets.
pub fn wallet_action(listed: Option<Vec<String>>) -> (r: WalletAction)
    ensures
        action_plan(r) == wallet_plan(listed_names(listed)),
{
    match listed {
        Some(ws) => {
            if ws.len() > 0 {
                let first = ws[0].clone();
                WalletAction::Load(first)
            } else {
                WalletAction::Create(String::from_str(WALLET_NAME))
            }
        },
        None => WalletAction::Create(String::from_str(WALLET_NAME)),
    }
}

/// Bootstrap never duplicates a wallet: where the node already has one, the
/// plan loads the first one listed; and carrying out any plan leaves the node
/// in a state where bootstrapping again loads a wallet instead of creating one.
pub proof fn lemma_bootstrap_reuses_wallets(listed: Option<Seq<Seq<char>>>)
    ensures
        (listed is Some && listed->0.len() > 0) ==> wallet_plan(listed) == (false, listed->0[0]),
        wallet_plan(Some(wallets_after(listed))).0 == false,
        wallets_after(listed).contains(wallet_plan(listed).1),
        wallets_after(Some(wallets_after(listed))) == wallets_after(listed),
{
    let after = wallets_after(listed);
    let (create, name) = wallet_plan(listed);
    if create {
        let before = match listed {
            Some(ws) => ws,
            None => Seq::<Seq<char>>::empty(),
        };
        assert(after[before.len() as int] == name);
    } else {
        assert(after[0] == name);
    }
}

/// Whether `s` is the text of a Bitcoin address that is valid on regtest.
pub uninterp spec fn is_regtest_address(s: Seq<char>) -> bool;

/// Relies on bitcoin's `Address<NetworkUnchecked>` parsing (`FromStr`) followed by
/// `is_valid_for_network(Network::Regtest)`, the test that `require_network` makes.
#[verifier::external_body]
fn address_valid_on_regtest(s: &str) -> (r: bool)
    ensures
        r == is_regtest_address(s@),
{
    match s.parse::<Address<NetworkUnchecked>>() {
        Ok(a) => a.is_valid_for_network(Network::Regtest),
        Err(_) => false,
    }
}

/// Accepts a mining address only where it belongs to the regtest network.
pub fn check_mining_address(addr: &str) -> (r: Result<(), GeneratorError>)
    ensures
        r is Ok <==> is_regtest_address(addr@),
        r is Err ==> r->Err_0 is WrongNetwork,
{
    if address_valid_on_regtest(addr) {
        Ok(())
    } else {
        Err(GeneratorError::WrongNetwork)
    }
}

} // verus!
