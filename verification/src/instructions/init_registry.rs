//! Creating a registry.

use vstd::prelude::*;
use crate::ErrorCode;
use crate::address::derived_view;
use crate::instructions::account::{Account, Registry, RegistryView, Signer, MAX_NAME_LEN};
use crate::ledger::{Ledger, Record};
use crate::pubkey::{Caller, Pubkey};
use crate::state::{init_registry_refusal_at, RecordView};

verus! {

/// The accounts of `init_registry`.
#[derive(Debug)]
pub struct InitRegistry {
    /// The new registry, with nothing written to it yet.
    pub registry: Account<Registry>,
    /// The account that creates the registry and signs for it.
    pub authority: Signer,
}

impl InitRegistry {
    /// Finds and checks the accounts: `derived` is the address derived for
    /// the registry of `authority` under `name`.
    pub fn try_accounts(
        ledger: &Ledger,
        derived: Option<(Pubkey, u8)>,
        authority: &Caller,
        name: &str,
    ) -> (accounts: Result<InitRegistry, ErrorCode>)
        requires
            ledger.wf(),
        ensures
            match accounts {
                Ok(ctx) => {
                    &&& init_registry_refusal_at(ledger@, derived_view(derived), *authority, name@)
                        is None
                    &&& ctx.registry.key@ == derived.unwrap().0@
                    &&& ctx.registry.data@ == (RegistryView {
                        authority: Pubkey::zero(),
                        name: Seq::empty(),
                    })
                    &&& ctx.authority.key == authority.key
                },
                Err(e) => init_registry_refusal_at(
                    ledger@,
                    derived_view(derived),
                    *authority,
                    name@,
                ) == Some(e),
            },
    {
        let authority = Signer::try_accounts(authority)?;
        if name.as_bytes().len() > MAX_NAME_LEN {
            return Err(ErrorCode::ConstraintViolation);
        }
        let address = match derived {
            Some((address, _)) => address,
            None => return Err(ErrorCode::ConstraintViolation),
        };
        if ledger.contains(&address) {
            return Err(ErrorCode::AccountAlreadyExists);
        }
        Ok(InitRegistry { registry: Account { key: address, data: Registry::default() }, authority })
    }

    /// Stores the outcome: the registry stands at its address.
    pub fn exit(self, ledger: &mut Ledger)
        requires
            old(ledger).wf(),
        ensures
            final(ledger).wf(),
            final(ledger)@ == old(ledger)@.store(
                self.registry.key@,
                RecordView::Registry(self.registry.data@),
            ),
    {
        ledger.store(self.registry.key, Record::Registry(self.registry.data));
    }
}

/// Writes the registry: the account that creates it becomes its authority,
/// and it gets the name that was handed in.
pub fn init_registry(ctx: &mut InitRegistry, name: String) -> (done: Result<(), ErrorCode>)
    ensures
        done is Ok,
        final(ctx).registry.data@ == (RegistryView {
            authority: old(ctx).authority.key@,
            name: name@,
        }),
        final(ctx).registry.key == old(ctx).registry.key,
        final(ctx).authority == old(ctx).authority,
{
    ctx.registry.data.authority = ctx.authority.key;
    ctx.registry.data.name = name;
    Ok(())
}

} // verus!
