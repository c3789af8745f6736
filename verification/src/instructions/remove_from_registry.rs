//! Removing an entry: its storage goes back to the authority.

use vstd::prelude::*;
use crate::ErrorCode;
use crate::address::derived_view;
use crate::instructions::account::{Account, ClientEntry, NodeEntry, Registry, Signer};
use crate::ledger::Ledger;
use crate::pubkey::{Caller, Pubkey};
use crate::state::{remove_client_refusal_at, remove_node_refusal_at};

verus! {

/// The accounts of `remove_client_from_registry`.
#[derive(Debug)]
pub struct RemoveClientFromRegistry {
    /// The entry that is removed.
    pub entry: Account<ClientEntry>,
    /// The registry of the entry.
    pub registry: Account<Registry>,
    /// The authority of the registry.
    pub authority: Signer,
}

/// The accounts of `remove_node_from_registry`.
#[derive(Debug)]
pub struct RemoveNodeFromRegistry {
    /// The entry that is removed.
    pub entry: Account<NodeEntry>,
    /// The registry of the entry.
    pub registry: Account<Registry>,
    /// The authority of the registry.
    pub authority: Signer,
}

impl RemoveClientFromRegistry {
    /// Finds and checks the accounts: `derived` is the address derived for
    /// the entry of `account_to_delete` under `registry`.
    pub fn try_accounts(
        ledger: &Ledger,
        derived: Option<(Pubkey, u8)>,
        authority: &Caller,
        registry: &Pubkey,
        account_to_delete: &Pubkey,
    ) -> (accounts: Result<RemoveClientFromRegistry, ErrorCode>)
        requires
            ledger.wf(),
        ensures
            match accounts {
                Ok(ctx) => {
                    &&& remove_client_refusal_at(
                        ledger@,
                        derived_view(derived),
                        *authority,
                        registry@,
                        account_to_delete@,
                    ) is None
                    &&& ctx.entry.key@ == derived.unwrap().0@
                    &&& ledger@.client_at(ctx.entry.key@) == Some(ctx.entry.data@)
                    &&& ctx.registry.key@ == registry@
                    &&& ledger@.registry_at(registry@) == Some(ctx.registry.data@)
                    &&& ctx.authority.key == authority.key
                },
                Err(e) => remove_client_refusal_at(
                    ledger@,
                    derived_view(derived),
                    *authority,
                    registry@,
                    account_to_delete@,
                ) == Some(e),
            },
    {
        let authority = Signer::try_accounts(authority)?;
        let registry = ledger.registry(registry)?;
        if registry.data.authority != authority.key {
            return Err(ErrorCode::ConstraintViolation);
        }
        let address = match derived {
            Some((address, _)) => address,
            None => return Err(ErrorCode::ConstraintViolation),
        };
        let entry = ledger.client(&address)?;
        if entry.data.parent != registry.key || entry.data.registred != *account_to_delete {
            return Err(ErrorCode::ConstraintViolation);
        }
        Ok(RemoveClientFromRegistry { entry, registry, authority })
    }

    /// Stores the outcome: nothing stands at the address of the entry.
    pub fn exit(self, ledger: &mut Ledger)
        requires
            old(ledger).wf(),
        ensures
            final(ledger).wf(),
            final(ledger)@ == old(ledger)@.close(self.entry.key@),
    {
        ledger.close(&self.entry.key);
    }
}

impl RemoveNodeFromRegistry {
    /// Finds and checks the accounts: `derived` is the address derived for
    /// the entry of `account_to_delete` under `registry`.
    pub fn try_accounts(
        ledger: &Ledger,
        derived: Option<(Pubkey, u8)>,
        authority: &Caller,
        registry: &Pubkey,
        account_to_delete: &Pubkey,
    ) -> (accounts: Result<RemoveNodeFromRegistry, ErrorCode>)
        requires
            ledger.wf(),
        ensures
            match accounts {
                Ok(ctx) => {
                    &&& remove_node_refusal_at(
                        ledger@,
                        derived_view(derived),
                        *authority,
                        registry@,
                        account_to_delete@,
                    ) is None
                    &&& ctx.entry.key@ == derived.unwrap().0@
                    &&& ledger@.node_at(ctx.entry.key@) == Some(ctx.entry.data@)
                    &&& ctx.registry.key@ == registry@
                    &&& ledger@.registry_at(registry@) == Some(ctx.registry.data@)
                    &&& ctx.authority.key == authority.key
                },
                Err(e) => remove_node_refusal_at(
                    ledger@,
                    derived_view(derived),
                    *authority,
                    registry@,
                    account_to_delete@,
                ) == Some(e),
            },
    {
        let authority = Signer::try_accounts(authority)?;
        let registry = ledger.registry(registry)?;
        if registry.data.authority != authority.key {
            return Err(ErrorCode::ConstraintViolation);
        }
        let address = match derived {
            Some((address, _)) => address,
            None => return Err(ErrorCode::ConstraintViolation),
        };
        let entry = ledger.node(&address)?;
        if entry.data.parent != registry.key || entry.data.registred != *account_to_delete {
            return Err(ErrorCode::ConstraintViolation);
        }
        if ledger.is_delegated(&address) {
            return Err(ErrorCode::ConstraintViolation);
        }
        Ok(RemoveNodeFromRegistry { entry, registry, authority })
    }

    /// Stores the outcome: nothing stands at the address of the entry.
    pub fn exit(self, ledger: &mut Ledger)
        requires
            old(ledger).wf(),
        ensures
            final(ledger).wf(),
            final(ledger)@ == old(ledger)@.close(self.entry.key@),
    {
        ledger.close(&self.entry.key);
    }
}

/// Has nothing to write: the entry goes when the outcome is stored.
pub fn remove_client_from_registry(_ctx: &RemoveClientFromRegistry, _account_to_delete: Pubkey) -> (done:
    Result<(), ErrorCode>)
    ensures
        done is Ok,
{
    Ok(())
}

/// Has nothing to write: the entry goes when the outcome is stored.
pub fn remove_node_from_registry(_ctx: &RemoveNodeFromRegistry, _account_to_delete: Pubkey) -> (done:
    Result<(), ErrorCode>)
    ensures
        done is Ok,
{
    Ok(())
}

} // verus!
