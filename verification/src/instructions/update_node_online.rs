//! A node reports its own liveness.

use vstd::prelude::*;
use crate::ErrorCode;
use crate::address::derived_view;
use crate::instructions::account::{Account, NodeEntry, NodeEntryView, Registry, Signer};
use crate::ledger::{Ledger, Record};
use crate::pubkey::{Caller, Pubkey};
use crate::state::{online_refusal, update_online_refusal_at, RecordView};

verus! {

/// The accounts of `update_node_online`.
#[derive(Debug)]
pub struct UpdateNodeOnline {
    /// The entry of the node.
    pub entry: Account<NodeEntry>,
    /// The registry of the entry.
    pub registry: Account<Registry>,
    /// The node itself.
    pub authority: Signer,
}

impl UpdateNodeOnline {
    /// Finds and checks the accounts: `derived` is the address derived for
    /// the entry of `account_to_update` under `registry`.
    pub fn try_accounts(
        ledger: &Ledger,
        derived: Option<(Pubkey, u8)>,
        authority: &Caller,
        registry: &Pubkey,
        account_to_update: &Pubkey,
    ) -> (accounts: Result<UpdateNodeOnline, ErrorCode>)
        requires
            ledger.wf(),
        ensures
            match accounts {
                Ok(ctx) => {
                    &&& update_online_refusal_at(
                        ledger@,
                        derived_view(derived),
                        *authority,
                        registry@,
                        account_to_update@,
                    ) is None
                    &&& ctx.entry.key@ == derived.unwrap().0@
                    &&& ledger@.node_at(ctx.entry.key@) == Some(ctx.entry.data@)
                    &&& ctx.registry.key@ == registry@
                    &&& ledger@.registry_at(registry@) == Some(ctx.registry.data@)
                    &&& ctx.authority.key == authority.key
                },
                Err(e) => update_online_refusal_at(
                    ledger@,
                    derived_view(derived),
                    *authority,
                    registry@,
                    account_to_update@,
                ) == Some(e),
            },
    {
        let authority = Signer::try_accounts(authority)?;
        let registry = ledger.registry(registry)?;
        let address = match derived {
            Some((address, _)) => address,
            None => return Err(ErrorCode::ConstraintViolation),
        };
        let entry = ledger.node(&address)?;
        if entry.data.parent != registry.key || entry.data.registred != *account_to_update {
            return Err(ErrorCode::ConstraintViolation);
        }
        if entry.data.registred != authority.key {
            return Err(ErrorCode::ConstraintViolation);
        }
        if ledger.is_delegated(&address) {
            return Err(ErrorCode::ConstraintViolation);
        }
        Ok(UpdateNodeOnline { entry, registry, authority })
    }

    /// Stores the outcome: the entry as it is now stands at its address.
    pub fn exit(self, ledger: &mut Ledger)
        requires
            old(ledger).wf(),
        ensures
            final(ledger).wf(),
            final(ledger)@ == old(ledger)@.store(
                self.entry.key@,
                RecordView::Node(self.entry.data@),
            ),
    {
        ledger.store(self.entry.key, Record::Node(self.entry.data));
    }
}

/// Writes the liveness counter of the node, unless the value is negative.
pub fn update_node_online(ctx: &mut UpdateNodeOnline, _account_to_update: Pubkey, value: i32) -> (done:
    Result<(), ErrorCode>)
    ensures
        match done {
            Ok(()) => online_refusal(value) is None && final(ctx).entry.data@ == (NodeEntryView {
                online: value,
                ..old(ctx).entry.data@
            }),
            Err(e) => online_refusal(value) == Some(e) && final(ctx).entry == old(ctx).entry,
        },
        final(ctx).entry.key == old(ctx).entry.key,
        final(ctx).registry == old(ctx).registry,
        final(ctx).authority == old(ctx).authority,
{
    if value < 0 {
        return Err(ErrorCode::InvalidOnlineValue);
    }
    ctx.entry.data.online = value;
    Ok(())
}

} // verus!
