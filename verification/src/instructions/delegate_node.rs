//! Handing a node entry out to the outside execution context.

use vstd::prelude::*;
use crate::ErrorCode;
use crate::address::derived_view;
use crate::instructions::account::{Account, NodeEntry, Registry, Signer};
use crate::ledger::Ledger;
use crate::pubkey::{Caller, Pubkey};
use crate::state::delegate_refusal_at;

verus! {

/// The accounts of `delegate_node_account`.
#[derive(Debug)]
pub struct DelegateNodeAccount {
    /// The node entry that is handed out.
    pub node: Account<NodeEntry>,
    /// The registry of the entry.
    pub registry: Account<Registry>,
    /// The authority of the registry.
    pub authority: Signer,
}

/// How the outside execution context is to treat a record.
#[derive(Clone, Copy, Debug)]
pub struct DelegateConfig {
    /// Milliseconds between two commits of the record.
    pub commit_frequency_ms: u32,
    /// The validator that the record is handed to, if one is chosen.
    pub validator: Option<Pubkey>,
}

/// Calls `DelegateConfig::default` of `ephemeral_rollups_sdk::cpi`.
///
/// The outside function takes both fields from the default of the
/// arguments of a delegation, which are the largest `u32` as the commit
/// frequency and no validator.
#[verifier::external_body]
fn default_delegate_config() -> (config: DelegateConfig)
    ensures
        config.commit_frequency_ms == u32::MAX,
        config.validator is None,
{
    let config = ephemeral_rollups_sdk::cpi::DelegateConfig::default();
    DelegateConfig {
        commit_frequency_ms: config.commit_frequency_ms,
        validator: match config.validator {
            Some(key) => Some(Pubkey { bytes: key.to_bytes() }),
            None => None,
        },
    }
}

impl Default for DelegateConfig {
    fn default() -> (config: DelegateConfig)
        ensures
            config.commit_frequency_ms == u32::MAX,
            config.validator is None,
    {
        default_delegate_config()
    }
}

/// What is handed to the outside execution context with a record: the seeds
/// that the address of the record is derived from, and the configuration.
#[derive(Clone, Copy, Debug)]
pub struct Delegation {
    pub payer: Pubkey,
    pub seeds: [Pubkey; 2],
    pub config: DelegateConfig,
}

impl DelegateNodeAccount {
    /// Finds and checks the accounts: `derived` is the address derived for
    /// the entry of `account` under `registry`.
    pub fn try_accounts(
        ledger: &Ledger,
        derived: Option<(Pubkey, u8)>,
        authority: &Caller,
        registry: &Pubkey,
        account: &Pubkey,
    ) -> (accounts: Result<DelegateNodeAccount, ErrorCode>)
        requires
            ledger.wf(),
        ensures
            match accounts {
                Ok(ctx) => {
                    &&& delegate_refusal_at(
                        ledger@,
                        derived_view(derived),
                        *authority,
                        registry@,
                        account@,
                    ) is None
                    &&& ctx.node.key@ == derived.unwrap().0@
                    &&& ledger@.node_at(ctx.node.key@) == Some(ctx.node.data@)
                    &&& ctx.registry.key@ == registry@
                    &&& ledger@.registry_at(registry@) == Some(ctx.registry.data@)
                    &&& ctx.authority.key == authority.key
                },
                Err(e) => delegate_refusal_at(
                    ledger@,
                    derived_view(derived),
                    *authority,
                    registry@,
                    account@,
                ) == Some(e),
            },
    {
        let authority = Signer::try_accounts(authority)?;
        let registry = ledger.registry(registry)?;
        if registry.data.authority != authority.key {
            return Err(ErrorCode::ConstraintViolation);
        }
        let address = match derived {
            Some((address, _)) => address,
            None => return Err(ErrorCode::ConstraintViolation),
        };
        let node = ledger.node(&address)?;
        if node.data.parent != registry.key || node.data.registred != *account {
            return Err(ErrorCode::ConstraintViolation);
        }
        if ledger.is_delegated(&address) {
            return Err(ErrorCode::ConstraintViolation);
        }
        Ok(DelegateNodeAccount { node, registry, authority })
    }

    /// Stores the outcome: the entry is with the outside execution context.
    pub fn exit(self, ledger: &mut Ledger)
        requires
            old(ledger).wf(),
        ensures
            final(ledger).wf(),
            final(ledger)@ == old(ledger)@.set_delegated(self.node.key@, true),
    {
        ledger.set_delegated(&self.node.key, true);
    }
}

/// Says what to hand to the outside execution context: the entry goes out
/// under the seeds of its address, the account and the registry, with the
/// default configuration, and the authority pays.
pub fn delegate_node_account(ctx: &DelegateNodeAccount, account: Pubkey) -> (request: Result<
    Delegation,
    ErrorCode,
>)
    ensures
        request is Ok,
        request.unwrap().payer == ctx.authority.key,
        request.unwrap().seeds@ == seq![account, ctx.registry.key],
        request.unwrap().config.commit_frequency_ms == u32::MAX,
        request.unwrap().config.validator is None,
{
    let seeds = [account, ctx.registry.key];
    Ok(Delegation { payer: ctx.authority.key, seeds, config: DelegateConfig::default() })
}

} // verus!
