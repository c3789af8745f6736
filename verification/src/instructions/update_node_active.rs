//! An active node says of another node whether it is fit to serve.

use vstd::prelude::*;
use crate::ErrorCode;
use crate::address::derived_view;
use crate::instructions::account::{Account, NodeEntry, NodeEntryView, Registry, Signer};
use crate::ledger::{Ledger, Record};
use crate::pubkey::{Caller, Pubkey};
use crate::state::{update_active_refusal_at, RecordView};

verus! {

/// The accounts of `update_node_active`.
#[derive(Debug)]
pub struct UpdateNodeActive {
    /// The entry of the node that is spoken of.
    pub entry: Account<NodeEntry>,
    /// The registry of both nodes.
    pub registry: Account<Registry>,
    /// The entry of the node that speaks; it is active.
    pub authority_node: Account<NodeEntry>,
    /// The node that speaks.
    pub authority: Signer,
}

impl UpdateNodeActive {
    /// Finds and checks the accounts: `derived` is the address derived for
    /// the entry of `account_to_update` under `registry`, `derived_peer`
    /// that for the entry of the caller.
    pub fn try_accounts(
        ledger: &Ledger,
        derived: Option<(Pubkey, u8)>,
        derived_peer: Option<(Pubkey, u8)>,
        authority: &Caller,
        registry: &Pubkey,
        account_to_update: &Pubkey,
    ) -> (accounts: Result<UpdateNodeActive, ErrorCode>)
        requires
            ledger.wf(),
        ensures
            match accounts {
                Ok(ctx) => {
                    &&& update_active_refusal_at(
                        ledger@,
                        derived_view(derived),
                        derived_view(derived_peer),
                        *authority,
                        registry@,
                        account_to_update@,
                    ) is None
                    &&& ctx.entry.key@ == derived.unwrap().0@
                    &&& ledger@.node_at(ctx.entry.key@) == Some(ctx.entry.data@)
                    &&& ctx.registry.key@ == registry@
                    &&& ledger@.registry_at(registry@) == Some(ctx.registry.data@)
                    &&& ctx.authority_node.key@ == derived_peer.unwrap().0@
                    &&& ledger@.node_at(ctx.authority_node.key@) == Some(ctx.authority_node.data@)
                    &&& ctx.authority.key == authority.key
                },
                Err(e) => update_active_refusal_at(
                    ledger@,
                    derived_view(derived),
                    derived_view(derived_peer),
                    *authority,
                    registry@,
                    account_to_update@,
                ) == Some(e),
            },
    {
        let authority = Signer::try_accounts(authority)?;
        let registry = ledger.registry(registry)?;
        if *account_to_update == authority.key {
            return Err(ErrorCode::ConstraintViolation);
        }
        let address = match derived {
            Some((address, _)) => address,
            None => return Err(ErrorCode::ConstraintViolation),
        };
        let entry = ledger.node(&address)?;
        if entry.data.parent != registry.key || entry.data.registred != *account_to_update {
            return Err(ErrorCode::ConstraintViolation);
        }
        let peer_address = match derived_peer {
            Some((address, _)) => address,
            None => return Err(ErrorCode::ConstraintViolation),
        };
        let authority_node = ledger.node(&peer_address)?;
        if authority_node.data.parent != registry.key || authority_node.data.registred
            != authority.key {
            return Err(ErrorCode::ConstraintViolation);
        }
        if !authority_node.data.active {
            return Err(ErrorCode::ConstraintViolation);
        }
        if ledger.is_delegated(&address) {
            return Err(ErrorCode::ConstraintViolation);
        }
        Ok(UpdateNodeActive { entry, registry, authority_node, authority })
    }

    /// Stores the outcome: the entry as it is now stands at its address.
    pub fn exit(self, ledger: &mut Ledger)
        requires
            old(ledger).wf(),
        ensures
            final(ledger).wf(),
            final(ledger)@ == old(ledger)@.store(
                self.entry.key@,
                RecordView::Node(self.entry.data@),
            ),
    {
        ledger.store(self.entry.key, Record::Node(self.entry.data));
    }
}

/// Writes the active flag of the node that is spoken of.
pub fn update_node_active(ctx: &mut UpdateNodeActive, _account_to_update: Pubkey, active: bool) -> (done:
    Result<(), ErrorCode>)
    ensures
        done is Ok,
        final(ctx).entry.data@ == (NodeEntryView { active, ..old(ctx).entry.data@ }),
        final(ctx).entry.key == old(ctx).entry.key,
        final(ctx).registry == old(ctx).registry,
        final(ctx).authority_node == old(ctx).authority_node,
        final(ctx).authority == old(ctx).authority,
{
    ctx.entry.data.active = active;
    Ok(())
}

} // verus!
