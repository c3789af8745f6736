//! Registering a client.

use vstd::prelude::*;
use crate::ErrorCode;
use crate::address::derived_view;
use crate::instructions::account::{
    Account, ClientEntry, ClientEntryView, Registry, Signer,
};
use crate::ledger::{Ledger, Record};
use crate::pubkey::{Caller, Pubkey};
use crate::state::{add_entry_refusal_at, RecordView};

verus! {

/// The accounts of `add_client_to_registry`.
#[derive(Debug)]
pub struct AddClientToRegistry {
    /// The new entry, with nothing written to it yet.
    pub entry: Account<ClientEntry>,
    /// The registry that the client is added to.
    pub registry: Account<Registry>,
    /// The authority of the registry.
    pub authority: Signer,
}

impl AddClientToRegistry {
    /// Finds and checks the accounts: `derived` is the address derived for
    /// the entry of the new client under `registry`.
    pub fn try_accounts(
        ledger: &Ledger,
        derived: Option<(Pubkey, u8)>,
        authority: &Caller,
        registry: &Pubkey,
    ) -> (accounts: Result<AddClientToRegistry, ErrorCode>)
        requires
            ledger.wf(),
        ensures
            match accounts {
                Ok(ctx) => {
                    &&& add_entry_refusal_at(ledger@, derived_view(derived), *authority, registry@)
                        is None
                    &&& ctx.entry.key@ == derived.unwrap().0@
                    &&& ctx.entry.data@ == (ClientEntryView {
                        parent: Pubkey::zero(),
                        registred: Pubkey::zero(),
                        until: 0,
                        limit: 0,
                    })
                    &&& ctx.registry.key@ == registry@
                    &&& ledger@.registry_at(registry@) == Some(ctx.registry.data@)
                    &&& ctx.authority.key == authority.key
                },
                Err(e) => add_entry_refusal_at(
                    ledger@,
                    derived_view(derived),
                    *authority,
                    registry@,
                ) == Some(e),
            },
    {
        let authority = Signer::try_accounts(authority)?;
        let registry = ledger.registry(registry)?;
        if registry.data.authority != authority.key {
            return Err(ErrorCode::ConstraintViolation);
        }
        let address = match derived {
            Some((address, _)) => address,
            None => return Err(ErrorCode::ConstraintViolation),
        };
        if ledger.contains(&address) {
            return Err(ErrorCode::AccountAlreadyExists);
        }
        Ok(
            AddClientToRegistry {
                entry: Account { key: address, data: ClientEntry::default() },
                registry,
                authority,
            },
        )
    }

    /// Stores the outcome: the entry stands at its address.
    pub fn exit(self, ledger: &mut Ledger)
        requires
            old(ledger).wf(),
        ensures
            final(ledger).wf(),
            final(ledger)@ == old(ledger)@.store(
                self.entry.key@,
                RecordView::Client(self.entry.data@),
            ),
    {
        ledger.store(self.entry.key, Record::Client(self.entry.data));
    }
}

/// Writes the entry of the client: it belongs to the registry, and expiry
/// and quota are taken as they are handed in.
pub fn add_client_to_registry(
    ctx: &mut AddClientToRegistry,
    account_to_add: Pubkey,
    until: i64,
    limit: u32,
) -> (done: Result<(), ErrorCode>)
    ensures
        done is Ok,
        final(ctx).entry.data@ == (ClientEntryView {
            parent: old(ctx).registry.key@,
            registred: account_to_add@,
            until,
            limit,
        }),
        final(ctx).entry.key == old(ctx).entry.key,
        final(ctx).registry == old(ctx).registry,
        final(ctx).authority == old(ctx).authority,
{
    ctx.entry.data.parent = ctx.registry.key;
    ctx.entry.data.registred = account_to_add;
    ctx.entry.data.until = until;
    ctx.entry.data.limit = limit;
    Ok(())
}

} // verus!
