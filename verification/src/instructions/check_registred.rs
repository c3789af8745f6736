//! Looking an account up: anybody may ask whether an account is a client or
//! a node of a registry, and is told what its entry holds.

use vstd::prelude::*;
use crate::ErrorCode;
use crate::address::derived_view;
use crate::instructions::account::{
    Account, ClientEntry, ClientInfo, NodeEntry, NodeInfo, Registry,
};
use crate::ledger::Ledger;
use crate::pubkey::Pubkey;
use crate::state::{check_client_refusal_at, check_node_refusal_at};

verus! {

/// What a check tells, by the kind of the entry.
#[derive(Debug, PartialEq, Eq)]
pub enum RegistryInfo {
    Client(ClientInfo),
    Node(NodeInfo),
}

/// The accounts of `check_client`.
#[derive(Debug)]
pub struct CheckClient {
    /// The entry of the client.
    pub entry: Account<ClientEntry>,
    /// The registry that is asked.
    pub registry: Account<Registry>,
}

/// The accounts of `check_node`.
#[derive(Debug)]
pub struct CheckNode {
    /// The entry of the node.
    pub entry: Account<NodeEntry>,
    /// The registry that is asked.
    pub registry: Account<Registry>,
}

impl CheckClient {
    /// Finds and checks the accounts: `derived` is the address derived for
    /// the entry of `account_to_check` under `registry`. An entry that names
    /// another registry or another account is not handed out.
    pub fn try_accounts(
        ledger: &Ledger,
        derived: Option<(Pubkey, u8)>,
        registry: &Pubkey,
        account_to_check: &Pubkey,
    ) -> (accounts: Result<CheckClient, ErrorCode>)
        requires
            ledger.wf(),
        ensures
            match accounts {
                Ok(ctx) => {
                    &&& check_client_refusal_at(
                        ledger@,
                        derived_view(derived),
                        registry@,
                        account_to_check@,
                    ) is None
                    &&& ctx.entry.key@ == derived.unwrap().0@
                    &&& ledger@.client_at(ctx.entry.key@) == Some(ctx.entry.data@)
                    &&& ctx.registry.key@ == registry@
                    &&& ledger@.registry_at(registry@) == Some(ctx.registry.data@)
                },
                Err(e) => check_client_refusal_at(
                    ledger@,
                    derived_view(derived),
                    registry@,
                    account_to_check@,
                ) == Some(e),
            },
    {
        let registry = ledger.registry(registry)?;
        let address = match derived {
            Some((address, _)) => address,
            None => return Err(ErrorCode::ConstraintViolation),
        };
        let entry = ledger.client(&address)?;
        if entry.data.parent != registry.key || entry.data.registred != *account_to_check {
            return Err(ErrorCode::ConstraintViolation);
        }
        Ok(CheckClient { entry, registry })
    }
}

impl CheckNode {
    /// Finds and checks the accounts: `derived` is the address derived for
    /// the entry of `account_to_check` under `registry`. An entry that names
    /// another registry or another account is not handed out.
    pub fn try_accounts(
        ledger: &Ledger,
        derived: Option<(Pubkey, u8)>,
        registry: &Pubkey,
        account_to_check: &Pubkey,
    ) -> (accounts: Result<CheckNode, ErrorCode>)
        requires
            ledger.wf(),
        ensures
            match accounts {
                Ok(ctx) => {
                    &&& check_node_refusal_at(
                        ledger@,
                        derived_view(derived),
                        registry@,
                        account_to_check@,
                    ) is None
                    &&& ctx.entry.key@ == derived.unwrap().0@
                    &&& ledger@.node_at(ctx.entry.key@) == Some(ctx.entry.data@)
                    &&& ctx.registry.key@ == registry@
                    &&& ledger@.registry_at(registry@) == Some(ctx.registry.data@)
                },
                Err(e) => check_node_refusal_at(
                    ledger@,
                    derived_view(derived),
                    registry@,
                    account_to_check@,
                ) == Some(e),
            },
    {
        let registry = ledger.registry(registry)?;
        let address = match derived {
            Some((address, _)) => address,
            None => return Err(ErrorCode::ConstraintViolation),
        };
        let entry = ledger.node(&address)?;
        if entry.data.parent != registry.key || entry.data.registred != *account_to_check {
            return Err(ErrorCode::ConstraintViolation);
        }
        Ok(CheckNode { entry, registry })
    }
}

/// Tells expiry and quota of the client.
pub fn check_client(ctx: &CheckClient, _account_to_check: Pubkey) -> (info: Result<
    ClientInfo,
    ErrorCode,
>)
    ensures
        info == Ok::<ClientInfo, ErrorCode>(
            ClientInfo { until: ctx.entry.data.until, limit: ctx.entry.data.limit },
        ),
{
    Ok(ClientInfo { until: ctx.entry.data.until, limit: ctx.entry.data.limit })
}

/// Tells the domain of the node and whether it is active.
pub fn check_node(ctx: &CheckNode, _account_to_check: Pubkey) -> (info: Result<NodeInfo, ErrorCode>)
    ensures
        info is Ok,
        info.unwrap().domain@ == ctx.entry.data.domain@,
        info.unwrap().active == ctx.entry.data.active,
{
    Ok(NodeInfo { domain: ctx.entry.data.domain.clone(), active: ctx.entry.data.active })
}

} // verus!
