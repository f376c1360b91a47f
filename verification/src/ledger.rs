//! The engine's side of the asset ledger: which balances exist, which
//! movements an operation asks for, and what those movements do to balances.
//!
//! The engine never holds balances. Each operation returns the movements it
//! wants made, in order; whoever runs the engine makes them, all or none.

use vstd::prelude::*;
use crate::keys::Pubkey;
use crate::types::Side;

verus! {

/// A balance that the ledger keeps.
#[derive(Clone, Copy, Debug, PartialEq, Eq)]
pub enum LedgerAccount {
    /// What `owner` holds of the asset `mint` outside the engine.
    Wallet { owner: Pubkey, mint: Pubkey },
    /// The margin vault of one side of a deal.
    MarginVault { deal: Pubkey, side: Side },
    /// The pooled vault of a cross-margin account.
    CrossMarginVault { cross_margin: Pubkey },
    /// Where a market collects fees paid in `mint`.
    FeeVault { market: Pubkey, mint: Pubkey },
    /// The strategy vault in which a deal's idle margin is parked.
    StrategyVault { deal: Pubkey },
}

/// Who authorises a movement.
#[derive(Clone, Copy, Debug, PartialEq, Eq)]
pub enum Authority {
    /// A party that signed the operation.
    Signer { key: Pubkey },
    /// The signing capability that a record owns over its own vaults.
    Record { key: Pubkey, bump: u8 },
}

/// One request to the ledger.
#[derive(Clone, Copy, Debug, PartialEq, Eq)]
pub enum LedgerAction {
    /// Move `amount` from one balance to another.
    Transfer { from: LedgerAccount, to: LedgerAccount, authority: Authority, amount: u64 },
    /// Issue `amount` new units of `mint` to a balance.
    MintTo { mint: Pubkey, to: LedgerAccount, authority: Authority, amount: u64 },
    /// Destroy `amount` units of `mint` held in a balance.
    Burn { mint: Pubkey, from: LedgerAccount, authority: Authority, amount: u64 },
    /// Hand the right to issue `mint` from its current holder to another.
    SetMintAuthority { mint: Pubkey, current_authority: Pubkey, new_authority: Authority },
}

/// What the ledger holds in `account`; a balance never touched is zero.
pub open spec fn balance_of(balances: Map<LedgerAccount, nat>, account: LedgerAccount) -> nat {
    if balances.dom().contains(account) {
        balances[account]
    } else {
        0
    }
}

impl LedgerAction {
    /// What the action takes out of `account`.
    pub open spec fn debit(self, account: LedgerAccount) -> nat {
        match self {
            LedgerAction::Transfer { from, amount, .. } => if from == account {
                amount as nat
            } else {
                0
            },
            LedgerAction::Burn { from, amount, .. } => if from == account {
                amount as nat
            } else {
                0
            },
            _ => 0,
        }
    }

    /// What the action puts into `account`.
    pub open spec fn credit(self, account: LedgerAccount) -> nat {
        match self {
            LedgerAction::Transfer { to, amount, .. } => if to == account {
                amount as nat
            } else {
                0
            },
            LedgerAction::MintTo { to, amount, .. } => if to == account {
                amount as nat
            } else {
                0
            },
            _ => 0,
        }
    }

    /// Whether the ledger accepts the action: the balance it draws on holds
    /// enough.
    pub open spec fn accepted(self, balances: Map<LedgerAccount, nat>) -> bool {
        match self {
            LedgerAction::Transfer { from, amount, .. } => balance_of(balances, from) >= amount,
            LedgerAction::Burn { from, amount, .. } => balance_of(balances, from) >= amount,
            _ => true,
        }
    }

    /// The balances after an accepted action.
    pub open spec fn apply(self, balances: Map<LedgerAccount, nat>) -> Map<LedgerAccount, nat> {
        match self {
            LedgerAction::Transfer { from, to, amount, .. } => {
                let drawn = balances.insert(from, (balance_of(balances, from) - amount) as nat);
                drawn.insert(to, balance_of(drawn, to) + amount as nat)
            },
            LedgerAction::MintTo { to, amount, .. } => balances.insert(
                to,
                balance_of(balances, to) + amount as nat,
            ),
            LedgerAction::Burn { from, amount, .. } => balances.insert(
                from,
                (balance_of(balances, from) - amount) as nat,
            ),
            LedgerAction::SetMintAuthority { .. } => balances,
        }
    }
}

/// Everything `actions` put into `account` less everything they took out.
pub open spec fn net_flow(actions: Seq<LedgerAction>, account: LedgerAccount) -> int
    decreases actions.len(),
{
    if actions.len() == 0 {
        0
    } else {
        net_flow(actions.drop_last(), account) + actions.last().credit(account)
            - actions.last().debit(account)
    }
}

/// The balances after `actions` were made in order, or `None` where the
/// ledger refuses one of them: then none of them is made.
pub open spec fn apply_all(balances: Map<LedgerAccount, nat>, actions: Seq<LedgerAction>) -> Option<
    Map<LedgerAccount, nat>,
>
    decreases actions.len(),
{
    if actions.len() == 0 {
        Some(balances)
    } else {
        match apply_all(balances, actions.drop_last()) {
            Some(before) => if actions.last().accepted(before) {
                Some(actions.last().apply(before))
            } else {
                None
            },
            None => None,
        }
    }
}

/// An accepted action changes each balance by what it credits less what it
/// debits.
pub proof fn lemma_apply_changes_by_flow(
    action: LedgerAction,
    balances: Map<LedgerAccount, nat>,
    account: LedgerAccount,
)
    requires
        action.accepted(balances),
    ensures
        balance_of(action.apply(balances), account) == balance_of(balances, account)
            + action.credit(account) - action.debit(account),
{
}

/// Where the ledger makes `actions`, every balance ends at what it was plus
/// the net flow of `actions` into it.
pub proof fn lemma_apply_all_changes_by_net_flow(
    balances: Map<LedgerAccount, nat>,
    actions: Seq<LedgerAction>,
    account: LedgerAccount,
)
    requires
        apply_all(balances, actions) is Some,
    ensures
        balance_of(apply_all(balances, actions).unwrap(), account) == balance_of(balances, account)
            + net_flow(actions, account),
    decreases actions.len(),
{
    if actions.len() > 0 {
        lemma_apply_all_changes_by_net_flow(balances, actions.drop_last(), account);
        lemma_apply_changes_by_flow(
            actions.last(),
            apply_all(balances, actions.drop_last()).unwrap(),
            account,
        );
    }
}

/// The net flow of a single action.
pub proof fn lemma_net_flow_one(action: LedgerAction, account: LedgerAccount)
    ensures
        net_flow(seq![action], account) == action.credit(account) - action.debit(account),
{
    let s = seq![action];
    assert(s.drop_last() =~= Seq::<LedgerAction>::empty());
    assert(s.last() == action);
    assert(net_flow(s.drop_last(), account) == 0);
}

/// Appending an action adds its flow.
pub proof fn lemma_net_flow_push(
    actions: Seq<LedgerAction>,
    action: LedgerAction,
    account: LedgerAccount,
)
    ensures
        net_flow(actions.push(action), account) == net_flow(actions, account) + action.credit(
            account,
        ) - action.debit(account),
{
    let s = actions.push(action);
    assert(s.drop_last() =~= actions);
    assert(s.last() == action);
}

/// The net flow of two runs of actions, one after the other, is the sum of
/// their net flows.
pub proof fn lemma_net_flow_concat(
    first: Seq<LedgerAction>,
    second: Seq<LedgerAction>,
    account: LedgerAccount,
)
    ensures
        net_flow(first + second, account) == net_flow(first, account) + net_flow(second, account),
    decreases second.len(),
{
    if second.len() == 0 {
        assert(first + second =~= first);
    } else {
        lemma_net_flow_concat(first, second.drop_last(), account);
        assert((first + second).drop_last() =~= first + second.drop_last());
        assert((first + second).last() == second.last());
    }
}

/// A movement out of a vault, authorised by the record that owns the vault.
pub fn transfer_signed(
    from: LedgerAccount,
    to: LedgerAccount,
    seed_key: &Pubkey,
    vault_bump: u8,
    amount: u64,
) -> (action: LedgerAction)
    ensures
        action == (LedgerAction::Transfer {
            from,
            to,
            authority: Authority::Record { key: *seed_key, bump: vault_bump },
            amount,
        }),
{
    LedgerAction::Transfer {
        from,
        to,
        authority: Authority::Record { key: *seed_key, bump: vault_bump },
        amount,
    }
}

/// A movement that a signing party makes from a balance of its own.
pub fn transfer_by_signer(from: LedgerAccount, to: LedgerAccount, signer: &Pubkey, amount: u64) -> (action:
    LedgerAction)
    ensures
        action == (LedgerAction::Transfer {
            from,
            to,
            authority: Authority::Signer { key: *signer },
            amount,
        }),
{
    LedgerAction::Transfer { from, to, authority: Authority::Signer { key: *signer }, amount }
}

} // verus!
