//! The operations of the program on its store.
//!
//! Every operation derives the addresses it needs, finds and checks its
//! accounts, lets the instruction do its work and stores the outcome. It
//! either does all of that or leaves the store as it was, and it leaves a
//! store that was in order in order.

use vstd::prelude::*;
use crate::ErrorCode;
use crate::address::{find_entry_address, find_registry_address};
use crate::instructions::account::{ClientInfo, NodeInfo};
use crate::instructions::add_node::AddNodeToRegistry;
use crate::instructions::add_to_registry::AddClientToRegistry;
use crate::instructions::check_registred::{CheckClient, CheckNode};
use crate::instructions::delegate_node::DelegateNodeAccount;
use crate::instructions::init_registry::InitRegistry;
use crate::instructions::remove_from_registry::{RemoveClientFromRegistry, RemoveNodeFromRegistry};
use crate::instructions::undelegate_node::UndelegateNodeAccount;
use crate::instructions::update_node_active::UpdateNodeActive;
use crate::instructions::update_node_online::UpdateNodeOnline;
use crate::laws::{in_order, lemma_step_keeps_order, Operation};
use crate::ledger::Ledger;
use crate::pubkey::{Caller, Pubkey};
use crate::state::{
    add_client_next, add_client_refusal, add_node_next, add_node_refusal, check_client_refusal,
    check_node_refusal, checked_client, checked_node, delegate_next, delegate_refusal,
    init_registry_next, init_registry_refusal, remove_client_refusal, remove_entry_next,
    remove_node_refusal, undelegate_next, undelegate_refusal, update_active_next,
    update_active_refusal, update_online_next, update_online_refusal,
};

verus! {

/// Creates the registry of `authority` under `name`.
pub fn init_registry(ledger: &mut Ledger, authority: &Caller, name: String) -> (done: Result<
    (),
    ErrorCode,
>)
    requires
        old(ledger).wf(),
    ensures
        final(ledger).wf(),
        in_order(old(ledger)@) ==> in_order(final(ledger)@),
        match done {
            Ok(()) => init_registry_refusal(old(ledger)@, *authority, name@) is None
                && final(ledger)@ == init_registry_next(old(ledger)@, *authority, name@),
            Err(e) => init_registry_refusal(old(ledger)@, *authority, name@) == Some(e)
                && final(ledger)@ == old(ledger)@,
        },
{
    let derived = find_registry_address(&authority.key, name.as_str(), ledger.program_id());
    let mut ctx = InitRegistry::try_accounts(ledger, derived, authority, name.as_str())?;
    crate::instructions::init_registry::init_registry(&mut ctx, name)?;
    ctx.exit(ledger);
    proof {
        if in_order(old(ledger)@) {
            lemma_step_keeps_order(
                old(ledger)@,
                Operation::InitRegistry {
                    authority: *authority,
                    name: name@,
                },
            );
        }
    }
    Ok(())
}

/// Registers `account_to_add` as a client of `registry`, with its expiry
/// and its quota.
pub fn add_client_to_registry(
    ledger: &mut Ledger,
    authority: &Caller,
    registry: &Pubkey,
    account_to_add: Pubkey,
    until: i64,
    limit: u32,
) -> (done: Result<(), ErrorCode>)
    requires
        old(ledger).wf(),
    ensures
        final(ledger).wf(),
        in_order(old(ledger)@) ==> in_order(final(ledger)@),
        match done {
            Ok(()) => add_client_refusal(old(ledger)@, *authority, registry@, account_to_add@)
                is None && final(ledger)@ == add_client_next(
                old(ledger)@,
                registry@,
                account_to_add@,
                until,
                limit,
            ),
            Err(e) => add_client_refusal(old(ledger)@, *authority, registry@, account_to_add@)
                == Some(e) && final(ledger)@ == old(ledger)@,
        },
{
    let derived = find_entry_address(&account_to_add, registry, ledger.program_id());
    let mut ctx = AddClientToRegistry::try_accounts(ledger, derived, authority, registry)?;
    crate::instructions::add_to_registry::add_client_to_registry(
        &mut ctx,
        account_to_add,
        until,
        limit,
    )?;
    ctx.exit(ledger);
    proof {
        if in_order(old(ledger)@) {
            lemma_step_keeps_order(
                old(ledger)@,
                Operation::AddClient {
                    authority: *authority,
                    registry: registry@,
                    target: account_to_add@,
                    until,
                    limit,
                },
            );
        }
    }
    Ok(())
}

/// Registers `account_to_add` as a node of `registry` that serves under
/// `domain`.
pub fn add_node_to_registry(
    ledger: &mut Ledger,
    authority: &Caller,
    registry: &Pubkey,
    account_to_add: Pubkey,
    domain: String,
) -> (done: Result<(), ErrorCode>)
    requires
        old(ledger).wf(),
    ensures
        final(ledger).wf(),
        in_order(old(ledger)@) ==> in_order(final(ledger)@),
        match done {
            Ok(()) => add_node_refusal(
                old(ledger)@,
                *authority,
                registry@,
                account_to_add@,
                domain@,
            ) is None && final(ledger)@ == add_node_next(
                old(ledger)@,
                registry@,
                account_to_add@,
                domain@,
            ),
            Err(e) => add_node_refusal(
                old(ledger)@,
                *authority,
                registry@,
                account_to_add@,
                domain@,
            ) == Some(e) && final(ledger)@ == old(ledger)@,
        },
{
    let derived = find_entry_address(&account_to_add, registry, ledger.program_id());
    let mut ctx = AddNodeToRegistry::try_accounts(ledger, derived, authority, registry)?;
    crate::instructions::add_node::add_node_to_registry(&mut ctx, account_to_add, domain)?;
    ctx.exit(ledger);
    proof {
        if in_order(old(ledger)@) {
            lemma_step_keeps_order(
                old(ledger)@,
                Operation::AddNode {
                    authority: *authority,
                    registry: registry@,
                    target: account_to_add@,
                    domain: domain@,
                },
            );
        }
    }
    Ok(())
}

/// Hands the entry of the node `account` under `registry` out to the
/// outside execution context.
pub fn delegate_node_account(
    ledger: &mut Ledger,
    authority: &Caller,
    registry: &Pubkey,
    account: Pubkey,
) -> (done: Result<(), ErrorCode>)
    requires
        old(ledger).wf(),
    ensures
        final(ledger).wf(),
        in_order(old(ledger)@) ==> in_order(final(ledger)@),
        match done {
            Ok(()) => delegate_refusal(old(ledger)@, *authority, registry@, account@) is None
                && final(ledger)@ == delegate_next(old(ledger)@, registry@, account@),
            Err(e) => delegate_refusal(old(ledger)@, *authority, registry@, account@) == Some(e)
                && final(ledger)@ == old(ledger)@,
        },
{
    let derived = find_entry_address(&account, registry, ledger.program_id());
    let ctx = DelegateNodeAccount::try_accounts(ledger, derived, authority, registry, &account)?;
    crate::instructions::delegate_node::delegate_node_account(&ctx, account)?;
    ctx.exit(ledger);
    proof {
        if in_order(old(ledger)@) {
            lemma_step_keeps_order(
                old(ledger)@,
                Operation::Delegate {
                    authority: *authority,
                    registry: registry@,
                    target: account@,
                },
            );
        }
    }
    Ok(())
}

/// Takes the entry of the node `account` under `registry` back from the
/// outside execution context.
pub fn undelegate_node_acount(
    ledger: &mut Ledger,
    receiver: &Caller,
    registry: &Pubkey,
    account: Pubkey,
) -> (done: Result<(), ErrorCode>)
    requires
        old(ledger).wf(),
    ensures
        final(ledger).wf(),
        in_order(old(ledger)@) ==> in_order(final(ledger)@),
        match done {
            Ok(()) => undelegate_refusal(old(ledger)@, *receiver, registry@, account@) is None
                && final(ledger)@ == undelegate_next(old(ledger)@, registry@, account@),
            Err(e) => undelegate_refusal(old(ledger)@, *receiver, registry@, account@) == Some(e)
                && final(ledger)@ == old(ledger)@,
        },
{
    let derived = find_entry_address(&account, registry, ledger.program_id());
    let ctx = UndelegateNodeAccount::try_accounts(ledger, derived, receiver, registry, &account)?;
    crate::instructions::undelegate_node::undelegate_node_account(&ctx, account)?;
    ctx.exit(ledger);
    proof {
        if in_order(old(ledger)@) {
            lemma_step_keeps_order(
                old(ledger)@,
                Operation::Undelegate {
                    receiver: *receiver,
                    registry: registry@,
                    target: account@,
                },
            );
        }
    }
    Ok(())
}

/// Tells expiry and quota of `account_to_check` if it is a client of
/// `registry`.
pub fn check_client(ledger: &Ledger, registry: &Pubkey, account_to_check: Pubkey) -> (info: Result<
    ClientInfo,
    ErrorCode,
>)
    requires
        ledger.wf(),
    ensures
        match info {
            Ok(found) => {
                &&& check_client_refusal(ledger@, registry@, account_to_check@) is None
                &&& found.until == checked_client(ledger@, registry@, account_to_check@).until
                &&& found.limit == checked_client(ledger@, registry@, account_to_check@).limit
            },
            Err(e) => check_client_refusal(ledger@, registry@, account_to_check@) == Some(e),
        },
{
    let derived = find_entry_address(&account_to_check, registry, ledger.program_id());
    let ctx = CheckClient::try_accounts(ledger, derived, registry, &account_to_check)?;
    crate::instructions::check_registred::check_client(&ctx, account_to_check)
}

/// Tells domain and active flag of `account_to_check` if it is a node of
/// `registry`.
pub fn check_node(ledger: &Ledger, registry: &Pubkey, account_to_check: Pubkey) -> (info: Result<
    NodeInfo,
    ErrorCode,
>)
    requires
        ledger.wf(),
    ensures
        match info {
            Ok(found) => {
                &&& check_node_refusal(ledger@, registry@, account_to_check@) is None
                &&& found.domain@ == checked_node(ledger@, registry@, account_to_check@).domain
                &&& found.active == checked_node(ledger@, registry@, account_to_check@).active
            },
            Err(e) => check_node_refusal(ledger@, registry@, account_to_check@) == Some(e),
        },
{
    let derived = find_entry_address(&account_to_check, registry, ledger.program_id());
    let ctx = CheckNode::try_accounts(ledger, derived, registry, &account_to_check)?;
    crate::instructions::check_registred::check_node(&ctx, account_to_check)
}

/// Removes the client `account_to_delete` from `registry`.
pub fn remove_client_from_registry(
    ledger: &mut Ledger,
    authority: &Caller,
    registry: &Pubkey,
    account_to_delete: Pubkey,
) -> (done: Result<(), ErrorCode>)
    requires
        old(ledger).wf(),
    ensures
        final(ledger).wf(),
        in_order(old(ledger)@) ==> in_order(final(ledger)@),
        match done {
            Ok(()) => remove_client_refusal(
                old(ledger)@,
                *authority,
                registry@,
                account_to_delete@,
            ) is None && final(ledger)@ == remove_entry_next(
                old(ledger)@,
                registry@,
                account_to_delete@,
            ),
            Err(e) => remove_client_refusal(
                old(ledger)@,
                *authority,
                registry@,
                account_to_delete@,
            ) == Some(e) && final(ledger)@ == old(ledger)@,
        },
{
    let derived = find_entry_address(&account_to_delete, registry, ledger.program_id());
    let ctx = RemoveClientFromRegistry::try_accounts(
        ledger,
        derived,
        authority,
        registry,
        &account_to_delete,
    )?;
    crate::instructions::remove_from_registry::remove_client_from_registry(
        &ctx,
        account_to_delete,
    )?;
    ctx.exit(ledger);
    proof {
        if in_order(old(ledger)@) {
            lemma_step_keeps_order(
                old(ledger)@,
                Operation::RemoveClient {
                    authority: *authority,
                    registry: registry@,
                    target: account_to_delete@,
                },
            );
        }
    }
    Ok(())
}

/// Removes the node `account_to_delete` from `registry`.
pub fn remove_node_from_registry(
    ledger: &mut Ledger,
    authority: &Caller,
    registry: &Pubkey,
    account_to_delete: Pubkey,
) -> (done: Result<(), ErrorCode>)
    requires
        old(ledger).wf(),
    ensures
        final(ledger).wf(),
        in_order(old(ledger)@) ==> in_order(final(ledger)@),
        match done {
            Ok(()) => remove_node_refusal(
                old(ledger)@,
                *authority,
                registry@,
                account_to_delete@,
            ) is None && final(ledger)@ == remove_entry_next(
                old(ledger)@,
                registry@,
                account_to_delete@,
            ),
            Err(e) => remove_node_refusal(
                old(ledger)@,
                *authority,
                registry@,
                account_to_delete@,
            ) == Some(e) && final(ledger)@ == old(ledger)@,
        },
{
    let derived = find_entry_address(&account_to_delete, registry, ledger.program_id());
    let ctx = RemoveNodeFromRegistry::try_accounts(
        ledger,
        derived,
        authority,
        registry,
        &account_to_delete,
    )?;
    crate::instructions::remove_from_registry::remove_node_from_registry(&ctx, account_to_delete)?;
    ctx.exit(ledger);
    proof {
        if in_order(old(ledger)@) {
            lemma_step_keeps_order(
                old(ledger)@,
                Operation::RemoveNode {
                    authority: *authority,
                    registry: registry@,
                    target: account_to_delete@,
                },
            );
        }
    }
    Ok(())
}

/// Writes the liveness counter that the node `account_to_update` reports of
/// itself.
pub fn update_node_online(
    ledger: &mut Ledger,
    authority: &Caller,
    registry: &Pubkey,
    account_to_update: Pubkey,
    online: i32,
) -> (done: Result<(), ErrorCode>)
    requires
        old(ledger).wf(),
    ensures
        final(ledger).wf(),
        in_order(old(ledger)@) ==> in_order(final(ledger)@),
        match done {
            Ok(()) => update_online_refusal(
                old(ledger)@,
                *authority,
                registry@,
                account_to_update@,
                online,
            ) is None && final(ledger)@ == update_online_next(
                old(ledger)@,
                registry@,
                account_to_update@,
                online,
            ),
            Err(e) => update_online_refusal(
                old(ledger)@,
                *authority,
                registry@,
                account_to_update@,
                online,
            ) == Some(e) && final(ledger)@ == old(ledger)@,
        },
{
    let derived = find_entry_address(&account_to_update, registry, ledger.program_id());
    let mut ctx = UpdateNodeOnline::try_accounts(
        ledger,
        derived,
        authority,
        registry,
        &account_to_update,
    )?;
    crate::instructions::update_node_online::update_node_online(
        &mut ctx,
        account_to_update,
        online,
    )?;
    ctx.exit(ledger);
    proof {
        if in_order(old(ledger)@) {
            lemma_step_keeps_order(
                old(ledger)@,
                Operation::UpdateNodeOnline {
                    authority: *authority,
                    registry: registry@,
                    target: account_to_update@,
                    value: online,
                },
            );
        }
    }
    Ok(())
}

/// Writes what the calling node, which is active itself, says of the node
/// `account_to_update`: whether it is fit to serve.
pub fn update_node_active(
    ledger: &mut Ledger,
    authority: &Caller,
    registry: &Pubkey,
    account_to_update: Pubkey,
    active: bool,
) -> (done: Result<(), ErrorCode>)
    requires
        old(ledger).wf(),
    ensures
        final(ledger).wf(),
        in_order(old(ledger)@) ==> in_order(final(ledger)@),
        match done {
            Ok(()) => update_active_refusal(
                old(ledger)@,
                *authority,
                registry@,
                account_to_update@,
            ) is None && final(ledger)@ == update_active_next(
                old(ledger)@,
                registry@,
                account_to_update@,
                active,
            ),
            Err(e) => update_active_refusal(
                old(ledger)@,
                *authority,
                registry@,
                account_to_update@,
            ) == Some(e) && final(ledger)@ == old(ledger)@,
        },
{
    let derived = find_entry_address(&account_to_update, registry, ledger.program_id());
    let derived_peer = find_entry_address(&authority.key, registry, ledger.program_id());
    let mut ctx = UpdateNodeActive::try_accounts(
        ledger,
        derived,
        derived_peer,
        authority,
        registry,
        &account_to_update,
    )?;
    crate::instructions::update_node_active::update_node_active(
        &mut ctx,
        account_to_update,
        active,
    )?;
    ctx.exit(ledger);
    proof {
        if in_order(old(ledger)@) {
            lemma_step_keeps_order(
                old(ledger)@,
                Operation::UpdateNodeActive {
                    authority: *authority,
                    registry: registry@,
                    target: account_to_update@,
                    active,
                },
            );
        }
    }
    Ok(())
}

} // verus!
