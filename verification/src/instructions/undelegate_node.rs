//! Taking a node entry back from the outside execution context.

use vstd::prelude::*;
use crate::ErrorCode;
use crate::address::derived_view;
use crate::instructions::account::{Account, NodeEntry, Registry, Signer};
use crate::ledger::Ledger;
use crate::pubkey::{Caller, Pubkey};
use crate::state::undelegate_refusal_at;

verus! {

/// The accounts of `undelegate_node_account`.
#[derive(Debug)]
pub struct UndelegateNodeAccount {
    /// The node entry that is to come back.
    pub node: Account<NodeEntry>,
    /// The registry of the entry.
    pub registry: Account<Registry>,
    /// The node itself, which asks for its entry.
    pub receiver: Signer,
}

/// What is asked of the outside execution context: to commit what it has
/// done to the accounts and to give them back, at the cost of the payer.
#[derive(Debug)]
pub struct Undelegation {
    pub payer: Pubkey,
    pub accounts: Vec<Pubkey>,
}

impl UndelegateNodeAccount {
    /// Finds and checks the accounts: `derived` is the address derived for
    /// the entry of `account` under `registry`.
    pub fn try_accounts(
        ledger: &Ledger,
        derived: Option<(Pubkey, u8)>,
        receiver: &Caller,
        registry: &Pubkey,
        account: &Pubkey,
    ) -> (accounts: Result<UndelegateNodeAccount, ErrorCode>)
        requires
            ledger.wf(),
        ensures
            match accounts {
                Ok(ctx) => {
                    &&& undelegate_refusal_at(
                        ledger@,
                        derived_view(derived),
                        *receiver,
                        registry@,
                        account@,
                    ) is None
                    &&& ctx.node.key@ == derived.unwrap().0@
                    &&& ledger@.node_at(ctx.node.key@) == Some(ctx.node.data@)
                    &&& ctx.registry.key@ == registry@
                    &&& ledger@.registry_at(registry@) == Some(ctx.registry.data@)
                    &&& ctx.receiver.key == receiver.key
                },
                Err(e) => undelegate_refusal_at(
                    ledger@,
                    derived_view(derived),
                    *receiver,
                    registry@,
                    account@,
                ) == Some(e),
            },
    {
        let receiver = Signer::try_accounts(receiver)?;
        let registry = ledger.registry(registry)?;
        let address = match derived {
            Some((address, _)) => address,
            None => return Err(ErrorCode::ConstraintViolation),
        };
        let node = ledger.node(&address)?;
        if node.data.parent != registry.key || node.data.registred != *account {
            return Err(ErrorCode::ConstraintViolation);
        }
        if *account != receiver.key {
            return Err(ErrorCode::ConstraintViolation);
        }
        if !ledger.is_delegated(&address) {
            return Err(ErrorCode::ConstraintViolation);
        }
        Ok(UndelegateNodeAccount { node, registry, receiver })
    }

    /// Stores the outcome: the entry is with the registry again.
    pub fn exit(self, ledger: &mut Ledger)
        requires
            old(ledger).wf(),
        ensures
            final(ledger).wf(),
            final(ledger)@ == old(ledger)@.set_delegated(self.node.key@, false),
    {
        ledger.set_delegated(&self.node.key, false);
    }
}

/// Says what to ask of the outside execution context: the node entry alone
/// is committed and given back, and the receiver pays.
pub fn undelegate_node_account(ctx: &UndelegateNodeAccount, _account: Pubkey) -> (request: Result<
    Undelegation,
    ErrorCode,
>)
    ensures
        request is Ok,
        request.unwrap().payer == ctx.receiver.key,
        request.unwrap().accounts@ == seq![ctx.node.key],
{
    let mut accounts: Vec<Pubkey> = Vec::new();
    accounts.push(ctx.node.key);
    Ok(Undelegation { payer: ctx.receiver.key, accounts })
}

} // verus!
