//! Registering a node.

use vstd::prelude::*;
use crate::ErrorCode;
use crate::address::derived_view;
use crate::instructions::account::{
    Account, NodeEntry, NodeEntryView, Registry, Signer, MAX_DOMAIN_LEN,
};
use crate::ledger::{Ledger, Record};
use crate::pubkey::{Caller, Pubkey};
use crate::state::{add_entry_refusal_at, domain_refusal, RecordView};

verus! {

/// The accounts of `add_node_to_registry`.
#[derive(Debug)]
pub struct AddNodeToRegistry {
    /// The new entry, with nothing written to it yet.
    pub entry: Account<NodeEntry>,
    /// The registry that the node is added to.
    pub registry: Account<Registry>,
    /// The authority of the registry.
    pub authority: Signer,
}

impl AddNodeToRegistry {
    /// Finds and checks the accounts: `derived` is the address derived for
    /// the entry of the new node under `registry`.
    pub fn try_accounts(
        ledger: &Ledger,
        derived: Option<(Pubkey, u8)>,
        authority: &Caller,
        registry: &Pubkey,
    ) -> (accounts: Result<AddNodeToRegistry, ErrorCode>)
        requires
            ledger.wf(),
        ensures
            match accounts {
                Ok(ctx) => {
                    &&& add_entry_refusal_at(ledger@, derived_view(derived), *authority, registry@)
                        is None
                    &&& ctx.entry.key@ == derived.unwrap().0@
                    &&& ctx.entry.data@ == (NodeEntryView {
                        parent: Pubkey::zero(),
                        registred: Pubkey::zero(),
                        domain: Seq::empty(),
                        online: 0,
                        active: false,
                    })
                    &&& ctx.registry.key@ == registry@
                    &&& ledger@.registry_at(registry@) == Some(ctx.registry.data@)
                    &&& ctx.authority.key == authority.key
                },
                Err(e) => add_entry_refusal_at(
                    ledger@,
                    derived_view(derived),
                    *authority,
                    registry@,
                ) == Some(e),
            },
    {
        let authority = Signer::try_accounts(authority)?;
        let registry = ledger.registry(registry)?;
        if registry.data.authority != authority.key {
            return Err(ErrorCode::ConstraintViolation);
        }
        let address = match derived {
            Some((address, _)) => address,
            None => return Err(ErrorCode::ConstraintViolation),
        };
        if ledger.contains(&address) {
            return Err(ErrorCode::AccountAlreadyExists);
        }
        Ok(
            AddNodeToRegistry {
                entry: Account { key: address, data: NodeEntry::default() },
                registry,
                authority,
            },
        )
    }

    /// Stores the outcome: the entry stands at its address.
    pub fn exit(self, ledger: &mut Ledger)
        requires
            old(ledger).wf(),
        ensures
            final(ledger).wf(),
            final(ledger)@ == old(ledger)@.store(
                self.entry.key@,
                RecordView::Node(self.entry.data@),
            ),
    {
        ledger.store(self.entry.key, Record::Node(self.entry.data));
    }
}

/// Writes the entry of the node, unless the domain takes more than 253
/// bytes: the entry belongs to the registry and gets the domain; its
/// liveness counter and its active flag stay as they were.
pub fn add_node_to_registry(ctx: &mut AddNodeToRegistry, account_to_add: Pubkey, domain: String) -> (done:
    Result<(), ErrorCode>)
    ensures
        match done {
            Ok(()) => {
                &&& domain_refusal(domain@) is None
                &&& final(ctx).entry.data@ == (NodeEntryView {
                    parent: old(ctx).registry.key@,
                    registred: account_to_add@,
                    domain: domain@,
                    online: old(ctx).entry.data.online,
                    active: old(ctx).entry.data.active,
                })
            },
            Err(e) => domain_refusal(domain@) == Some(e) && final(ctx).entry == old(ctx).entry,
        },
        final(ctx).entry.key == old(ctx).entry.key,
        final(ctx).registry == old(ctx).registry,
        final(ctx).authority == old(ctx).authority,
{
    if domain.as_str().as_bytes().len() > MAX_DOMAIN_LEN {
        return Err(ErrorCode::DomainTooLong);
    }
    ctx.entry.data.parent = ctx.registry.key;
    ctx.entry.data.registred = account_to_add;
    ctx.entry.data.domain = domain;
    Ok(())
}

} // verus!
