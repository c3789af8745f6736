//! What holds of the registry whatever is asked of it.
//!
//! The operations that change the store are taken together as one step of a
//! state machine; the laws speak of every state that can be reached from an
//! empty store by such steps, and of every operation.

use vstd::prelude::*;
use crate::ErrorCode;
use crate::address::{entry_address, registry_address};
use crate::instructions::account::{NodeEntryView, MAX_DOMAIN_LEN, MAX_NAME_LEN};
use crate::pubkey::Caller;
use crate::state::{
    add_client_next, add_client_refusal, add_node_next, add_node_refusal, byte_len,
    check_client_refusal, check_node_refusal, checked_client, checked_node, delegate_next,
    delegate_refusal, init_registry_next, init_registry_refusal, remove_client_refusal,
    remove_entry_next, remove_node_refusal, undelegate_next, undelegate_refusal,
    update_active_next, update_active_refusal, update_online_next, update_online_refusal,
    RecordView, State,
};

verus! {

/// An operation that may change the store, with what is handed to it.
pub enum Operation {
    InitRegistry { authority: Caller, name: Seq<char> },
    AddClient { authority: Caller, registry: Seq<u8>, target: Seq<u8>, until: i64, limit: u32 },
    AddNode { authority: Caller, registry: Seq<u8>, target: Seq<u8>, domain: Seq<char> },
    RemoveClient { authority: Caller, registry: Seq<u8>, target: Seq<u8> },
    RemoveNode { authority: Caller, registry: Seq<u8>, target: Seq<u8> },
    UpdateNodeOnline { authority: Caller, registry: Seq<u8>, target: Seq<u8>, value: i32 },
    UpdateNodeActive { authority: Caller, registry: Seq<u8>, target: Seq<u8>, active: bool },
    Delegate { authority: Caller, registry: Seq<u8>, target: Seq<u8> },
    Undelegate { receiver: Caller, registry: Seq<u8>, target: Seq<u8> },
}

/// Why the operation is refused in the state `s`, if it is.
pub open spec fn refusal(s: State, op: Operation) -> Option<ErrorCode> {
    match op {
        Operation::InitRegistry { authority, name } => init_registry_refusal(s, authority, name),
        Operation::AddClient { authority, registry, target, until, limit } => add_client_refusal(
            s,
            authority,
            registry,
            target,
        ),
        Operation::AddNode { authority, registry, target, domain } => add_node_refusal(
            s,
            authority,
            registry,
            target,
            domain,
        ),
        Operation::RemoveClient { authority, registry, target } => remove_client_refusal(
            s,
            authority,
            registry,
            target,
        ),
        Operation::RemoveNode { authority, registry, target } => remove_node_refusal(
            s,
            authority,
            registry,
            target,
        ),
        Operation::UpdateNodeOnline { authority, registry, target, value } => update_online_refusal(
            s,
            authority,
            registry,
            target,
            value,
        ),
        Operation::UpdateNodeActive { authority, registry, target, active } => update_active_refusal(
            s,
            authority,
            registry,
            target,
        ),
        Operation::Delegate { authority, registry, target } => delegate_refusal(
            s,
            authority,
            registry,
            target,
        ),
        Operation::Undelegate { receiver, registry, target } => undelegate_refusal(
            s,
            receiver,
            registry,
            target,
        ),
    }
}

/// The state that the operation leaves: the state as it was where the
/// operation is refused.
pub open spec fn step(s: State, op: Operation) -> State {
    if refusal(s, op) is Some {
        s
    } else {
        match op {
            Operation::InitRegistry { authority, name } => init_registry_next(s, authority, name),
            Operation::AddClient { authority, registry, target, until, limit } => add_client_next(
                s,
                registry,
                target,
                until,
                limit,
            ),
            Operation::AddNode { authority, registry, target, domain } => add_node_next(
                s,
                registry,
                target,
                domain,
            ),
            Operation::RemoveClient { authority, registry, target } => remove_entry_next(
                s,
                registry,
                target,
            ),
            Operation::RemoveNode { authority, registry, target } => remove_entry_next(
                s,
                registry,
                target,
            ),
            Operation::UpdateNodeOnline { authority, registry, target, value } => update_online_next(
                s,
                registry,
                target,
                value,
            ),
            Operation::UpdateNodeActive { authority, registry, target, active } => update_active_next(
                s,
                registry,
                target,
                active,
            ),
            Operation::Delegate { authority, registry, target } => delegate_next(
                s,
                registry,
                target,
            ),
            Operation::Undelegate { receiver, registry, target } => undelegate_next(
                s,
                registry,
                target,
            ),
        }
    }
}

/// Whether the record at `address` is what a record at that address may be.
///
/// An entry stands at the address derived from its registered account and
/// its parent, and its parent is a stored registry. A node has a liveness
/// counter that is not negative and a domain of at most 253 bytes. A
/// registry stands at the address derived from its authority and its name,
/// and its name takes at most 32 bytes.
pub open spec fn record_valid(s: State, address: Seq<u8>) -> bool {
    match s.accounts[address] {
        RecordView::Registry(registry) => {
            &&& registry_address(registry.authority, registry.name, s.program_id) matches Some(
                derived,
            )
            &&& derived.0 == address
            &&& byte_len(registry.name) <= MAX_NAME_LEN
        },
        RecordView::Client(entry) => {
            &&& entry_address(entry.registred, entry.parent, s.program_id) matches Some(derived)
            &&& derived.0 == address
            &&& s.registry_at(entry.parent) is Some
        },
        RecordView::Node(entry) => {
            &&& entry_address(entry.registred, entry.parent, s.program_id) matches Some(derived)
            &&& derived.0 == address
            &&& s.registry_at(entry.parent) is Some
            &&& entry.online >= 0
            &&& byte_len(entry.domain) <= MAX_DOMAIN_LEN
        },
    }
}

/// What holds of every state that the operations can reach: every record
/// is what a record at its address may be, and only node entries are handed
/// out.
pub open spec fn in_order(s: State) -> bool {
    &&& forall|address: Seq<u8>| #[trigger]
        s.accounts.contains_key(address) ==> record_valid(s, address)
    &&& forall|address: Seq<u8>| #[trigger]
        s.delegated.contains(address) ==> s.node_at(address) is Some
}

/// Whether `target` is a client of `registry`: a check of it succeeds.
pub open spec fn is_client(s: State, registry: Seq<u8>, target: Seq<u8>) -> bool {
    check_client_refusal(s, registry, target) is None
}

/// Whether `target` is a node of `registry`: a check of it succeeds.
pub open spec fn is_node(s: State, registry: Seq<u8>, target: Seq<u8>) -> bool {
    check_node_refusal(s, registry, target) is None
}

/// An empty store is in order.
pub proof fn lemma_empty_in_order(program_id: Seq<u8>)
    ensures
        in_order(State::empty(program_id)),
{
}

/// No operation brings the store out of order: the records stay at their
/// derived addresses under stored registries, liveness counters stay
/// non-negative, names and domains stay within their bounds, and only node
/// entries are handed out.
pub proof fn lemma_step_keeps_order(s: State, op: Operation)
    requires
        in_order(s),
    ensures
        in_order(step(s, op)),
{
    let t = step(s, op);
    assert forall|address: Seq<u8>| #[trigger] t.accounts.contains_key(address) implies record_valid(
        t,
        address,
    ) by {
        if s.accounts.contains_key(address) {
            assert(record_valid(s, address));
        }
        lemma_registries_stay(s, op);
    }
    assert forall|address: Seq<u8>| #[trigger] t.delegated.contains(address) implies t.node_at(
        address,
    ) is Some by {
        if s.delegated.contains(address) {
            assert(s.node_at(address) is Some);
        }
    }
}

/// A registry, once created, stays as it is: no operation removes or
/// changes it.
pub proof fn lemma_registries_stay(s: State, op: Operation)
    ensures
        forall|address: Seq<u8>| #[trigger]
            s.registry_at(address) is Some ==> step(s, op).registry_at(address) == s.registry_at(
                address,
            ),
{
}

/// What an operation finds where the entry of `target` under `registry`
/// would stand: a record there is what a record at its address may be, it
/// is a node entry if it is handed out, the registries stay, and a registry
/// is created only where nothing stood.
proof fn lemma_entry_slot(s: State, op: Operation, registry: Seq<u8>, target: Seq<u8>)
    requires
        in_order(s),
    ensures
        forall|address: Seq<u8>| #[trigger]
            s.registry_at(address) is Some ==> step(s, op).registry_at(address) == s.registry_at(
                address,
            ),
        entry_address(target, registry, s.program_id) matches Some(derived) ==> {
            &&& s.accounts.contains_key(derived.0) ==> record_valid(s, derived.0)
            &&& s.delegated.contains(derived.0) ==> s.node_at(derived.0) is Some
        },
        refusal(s, op) is None ==> (op matches Operation::InitRegistry { authority, name }
            ==> !s.accounts.contains_key(
            registry_address(authority.key@, name, s.program_id).unwrap().0,
        )),
{
    lemma_registries_stay(s, op);
}

/// Being a client is a matter of adding and removing alone: after any
/// operation, `target` is a client of `registry` if it was just added, is
/// none if it was just removed, and is otherwise what it was before.
pub proof fn lemma_client_iff_added_and_not_removed(
    s: State,
    op: Operation,
    registry: Seq<u8>,
    target: Seq<u8>,
)
    requires
        in_order(s),
    ensures
        is_client(step(s, op), registry, target) == if refusal(s, op) is Some {
            is_client(s, registry, target)
        } else if op matches Operation::AddClient { registry: r, target: t, .. } && r == registry
            && t == target {
            true
        } else if op matches Operation::RemoveClient { registry: r, target: t, .. } && r
            == registry && t == target {
            false
        } else {
            is_client(s, registry, target)
        },
{
    lemma_entry_slot(s, op, registry, target);
}

/// Being a node is a matter of adding and removing alone: after any
/// operation, `target` is a node of `registry` if it was just added, is
/// none if it was just removed, and is otherwise what it was before.
pub proof fn lemma_node_iff_added_and_not_removed(
    s: State,
    op: Operation,
    registry: Seq<u8>,
    target: Seq<u8>,
)
    requires
        in_order(s),
    ensures
        is_node(step(s, op), registry, target) == if refusal(s, op) is Some {
            is_node(s, registry, target)
        } else if op matches Operation::AddNode { registry: r, target: t, .. } && r == registry
            && t == target {
            true
        } else if op matches Operation::RemoveNode { registry: r, target: t, .. } && r == registry
            && t == target {
            false
        } else {
            is_node(s, registry, target)
        },
{
    lemma_entry_slot(s, op, registry, target);
}

/// A check hands out the entry of the account that was asked for under the
/// registry that was asked, and never one of another registry.
pub proof fn lemma_check_names_registry_and_account(s: State, registry: Seq<u8>, target: Seq<u8>)
    ensures
        is_client(s, registry, target) ==> checked_client(s, registry, target).parent == registry
            && checked_client(s, registry, target).registred == target,
        is_node(s, registry, target) ==> checked_node(s, registry, target).parent == registry
            && checked_node(s, registry, target).registred == target,
{
}

/// Only the authority of a registry adds to it and removes from it, and
/// hands its nodes out: whoever else signs for such an operation on a
/// stored registry is refused with `ConstraintViolation`, whatever else
/// holds.
pub proof fn lemma_authority_gates_administration(s: State, op: Operation)
    ensures
        match op {
            Operation::AddClient { authority, registry, .. }
            | Operation::AddNode { authority, registry, .. }
            | Operation::RemoveClient { authority, registry, .. }
            | Operation::RemoveNode { authority, registry, .. }
            | Operation::Delegate { authority, registry, .. } => {
                &&& refusal(s, op) is None ==> authority.signed && s.registry_at(registry)
                    is Some && s.registry_at(registry).unwrap().authority == authority.key@
                &&& authority.signed && s.registry_at(registry) is Some && s.registry_at(
                    registry,
                ).unwrap().authority != authority.key@ ==> refusal(s, op) == Some(
                    ErrorCode::ConstraintViolation,
                )
            },
            _ => true,
        },
{
}

/// Only a node itself reports its liveness and asks for its entry back:
/// whoever else signs for that on a node of a stored registry is refused
/// with `ConstraintViolation`. The node is heard on its liveness while its
/// entry is with the registry, and on taking the entry back while it is
/// handed out.
pub proof fn lemma_node_gates_itself(s: State, op: Operation)
    ensures
        match op {
            Operation::UpdateNodeOnline { authority: caller, registry, target, .. }
            | Operation::Undelegate { receiver: caller, registry, target } => {
                &&& refusal(s, op) is None ==> caller.signed && is_node(s, registry, target)
                    && checked_node(s, registry, target).registred == caller.key@
                &&& caller.signed && is_node(s, registry, target) && checked_node(
                    s,
                    registry,
                    target,
                ).registred != caller.key@ ==> refusal(s, op) == Some(
                    ErrorCode::ConstraintViolation,
                )
            },
            _ => true,
        },
        op matches Operation::UpdateNodeOnline { authority, registry, target, value } ==> (refusal(
            s,
            op,
        ) is None <==> {
            &&& authority.signed
            &&& authority.key@ == target
            &&& is_node(s, registry, target)
            &&& !s.delegated.contains(entry_address(target, registry, s.program_id).unwrap().0)
            &&& value >= 0
        }),
        op matches Operation::Undelegate { receiver, registry, target } ==> (refusal(s, op)
            is None <==> {
            &&& receiver.signed
            &&& receiver.key@ == target
            &&& is_node(s, registry, target)
            &&& s.delegated.contains(entry_address(target, registry, s.program_id).unwrap().0)
        }),
{
}

/// Only a node's active peers say whether it is active: the flag of a node
/// that is with the registry is written if and only if the caller signs, is
/// another account than the node, is itself a node of the same registry, and
/// is active. A peer that is not active is refused with
/// `ConstraintViolation`, and so is a node that speaks of itself.
pub proof fn lemma_peers_gate_activity(
    s: State,
    authority: Caller,
    registry: Seq<u8>,
    target: Seq<u8>,
    active: bool,
)
    ensures
        refusal(s, Operation::UpdateNodeActive { authority, registry, target, active }) is None
            <==> {
            &&& authority.signed
            &&& authority.key@ != target
            &&& is_node(s, registry, target)
            &&& is_node(s, registry, authority.key@)
            &&& checked_node(s, registry, authority.key@).active
            &&& !s.delegated.contains(entry_address(target, registry, s.program_id).unwrap().0)
        },
        authority.signed && authority.key@ == target && s.registry_at(registry) is Some
            ==> refusal(s, Operation::UpdateNodeActive { authority, registry, target, active })
            == Some(ErrorCode::ConstraintViolation),
        authority.signed && authority.key@ != target && is_node(s, registry, target) && is_node(
            s,
            registry,
            authority.key@,
        ) && !checked_node(s, registry, authority.key@).active ==> refusal(
            s,
            Operation::UpdateNodeActive { authority, registry, target, active },
        ) == Some(ErrorCode::ConstraintViolation) && step(
            s,
            Operation::UpdateNodeActive { authority, registry, target, active },
        ) == s,
{
}

/// No node becomes the first active one through the operations: where no
/// node entry is active, none is after any operation. The first active node
/// of a store has to be stored as such.
pub proof fn lemma_no_first_active_node(s: State, op: Operation)
    requires
        forall|address: Seq<u8>| #[trigger]
            s.node_at(address) is Some ==> !s.node_at(address).unwrap().active,
    ensures
        forall|address: Seq<u8>| #[trigger]
            step(s, op).node_at(address) is Some ==> !step(s, op).node_at(address).unwrap().active,
{
    assert forall|address: Seq<u8>| #[trigger]
        step(s, op).node_at(address) is Some implies !step(s, op).node_at(address).unwrap().active by {
        if s.node_at(address) is Some {
            assert(!s.node_at(address).unwrap().active);
        }
        match op {
            Operation::UpdateNodeActive { authority, registry, .. } => {
                let peer = entry_address(authority.key@, registry, s.program_id);
                if peer is Some && s.node_at(peer.unwrap().0) is Some {
                    assert(!s.node_at(peer.unwrap().0).unwrap().active);
                }
            },
            _ => {},
        }
    }
}

/// A client entry is never written again: an operation leaves it as it is
/// or, if the authority removes it, takes it away.
pub proof fn lemma_client_entry_is_fixed(s: State, op: Operation, address: Seq<u8>)
    requires
        s.client_at(address) is Some,
    ensures
        step(s, op).client_at(address) == s.client_at(address) || (step(s, op).client_at(address)
            is None && op is RemoveClient && refusal(s, op) is None),
{
}

/// What an operation may change of a node entry: the liveness counter, if
/// the node itself reports it; the active flag, if another node of the
/// registry that is itself active sets it; nothing else, unless the
/// authority removes the entry.
pub proof fn lemma_node_entry_changes_by_its_gates(s: State, op: Operation, address: Seq<u8>)
    requires
        s.node_at(address) is Some,
    ensures
        ({
            let before = s.node_at(address).unwrap();
            match step(s, op).node_at(address) {
                None => op is RemoveNode && refusal(s, op) is None,
                Some(after) => {
                    &&& after.parent == before.parent
                    &&& after.registred == before.registred
                    &&& after.domain == before.domain
                    &&& after.online != before.online ==> (op matches Operation::UpdateNodeOnline {
                        authority,
                        ..
                    } && authority.signed && authority.key@ == before.registred)
                    &&& after.active != before.active ==> (op matches Operation::UpdateNodeActive {
                        authority,
                        registry,
                        ..
                    } && authority.signed && authority.key@ != before.registred && is_node(
                        s,
                        registry,
                        authority.key@,
                    ) && checked_node(s, registry, authority.key@).active && registry
                        == before.parent)
                },
            }
        }),
{
}

/// Clients whose entries have different addresses do not stand in each
/// other's way: where the entries of two accounts are derived to different
/// addresses, adding the second after the first succeeds wherever it would
/// have succeeded alone, and leaves the entry of the first as it was added.
/// Nothing is said here of when two addresses differ.
pub proof fn lemma_adds_at_different_addresses(
    s: State,
    first: Caller,
    second: Caller,
    registry: Seq<u8>,
    target: Seq<u8>,
    until: i64,
    limit: u32,
    other_registry: Seq<u8>,
    other_target: Seq<u8>,
    other_until: i64,
    other_limit: u32,
)
    ensures
        ({
            let add = Operation::AddClient { authority: first, registry, target, until, limit };
            let other = Operation::AddClient {
                authority: second,
                registry: other_registry,
                target: other_target,
                until: other_until,
                limit: other_limit,
            };
            let address = entry_address(target, registry, s.program_id);
            let other_address = entry_address(other_target, other_registry, s.program_id);
            refusal(s, add) is None && refusal(s, other) is None && address.unwrap().0
                != other_address.unwrap().0 ==> {
                &&& refusal(step(s, add), other) is None
                &&& is_client(step(step(s, add), other), registry, target)
                &&& checked_client(step(step(s, add), other), registry, target) == checked_client(
                    step(s, add),
                    registry,
                    target,
                )
                &&& checked_client(step(s, add), registry, target).until == until
                &&& checked_client(step(s, add), registry, target).limit == limit
                &&& is_client(step(step(s, add), other), other_registry, other_target)
            }
        }),
{
}

/// Adding a client a second time fails and changes nothing: the entry keeps
/// the expiry and the quota of the first time. For the authority the
/// failure is `AccountAlreadyExists`.
pub proof fn lemma_second_add_fails(
    s: State,
    authority: Caller,
    again: Caller,
    registry: Seq<u8>,
    target: Seq<u8>,
    until: i64,
    limit: u32,
    other_until: i64,
    other_limit: u32,
)
    requires
        refusal(s, Operation::AddClient { authority, registry, target, until, limit }) is None,
    ensures
        ({
            let first = Operation::AddClient { authority, registry, target, until, limit };
            let second = Operation::AddClient {
                authority: again,
                registry,
                target,
                until: other_until,
                limit: other_limit,
            };
            &&& refusal(step(s, first), second) is Some
            &&& again == authority ==> refusal(step(s, first), second) == Some(
                ErrorCode::AccountAlreadyExists,
            )
            &&& step(step(s, first), second) == step(s, first)
            &&& is_client(step(s, first), registry, target)
            &&& checked_client(step(s, first), registry, target).until == until
            &&& checked_client(step(s, first), registry, target).limit == limit
        }),
{
}

/// A node that is removed and added again has a fresh entry at the address
/// where the old one stood: with the new domain, never online, not active,
/// and with the registry.
pub proof fn lemma_remove_then_add_node(
    s: State,
    authority: Caller,
    registry: Seq<u8>,
    target: Seq<u8>,
    domain: Seq<char>,
)
    requires
        refusal(s, Operation::RemoveNode { authority, registry, target }) is None,
        byte_len(domain) <= MAX_DOMAIN_LEN,
    ensures
        ({
            let removed = step(s, Operation::RemoveNode { authority, registry, target });
            let add = Operation::AddNode { authority, registry, target, domain };
            let address = entry_address(target, registry, s.program_id).unwrap().0;
            &&& s.node_at(address) is Some
            &&& !is_node(removed, registry, target)
            &&& refusal(removed, add) is None
            &&& step(removed, add).node_at(address) == Some(
                NodeEntryView { parent: registry, registred: target, domain, online: 0, active: false },
            )
            &&& !step(removed, add).delegated.contains(address)
        }),
{
}

/// Where the accounts are in order, a node is added if and only if its
/// domain takes at most 253 bytes, and a longer one is refused with
/// `DomainTooLong`.
pub proof fn lemma_domain_bound(
    s: State,
    authority: Caller,
    registry: Seq<u8>,
    target: Seq<u8>,
    domain: Seq<char>,
)
    requires
        add_client_refusal(s, authority, registry, target) is None,
    ensures
        add_node_refusal(s, authority, registry, target, domain) == if byte_len(domain) <= 253 {
            None
        } else {
            Some(ErrorCode::DomainTooLong)
        },
{
}

/// Where the accounts are in order, a liveness value is written if and only
/// if it is not negative, and a negative one is refused with
/// `InvalidOnlineValue`.
pub proof fn lemma_online_bound(
    s: State,
    authority: Caller,
    registry: Seq<u8>,
    target: Seq<u8>,
    value: i32,
)
    requires
        update_online_refusal(s, authority, registry, target, 0) is None,
    ensures
        update_online_refusal(s, authority, registry, target, value) == if value >= 0 {
            None
        } else {
            Some(ErrorCode::InvalidOnlineValue)
        },
{
}

/// While a node entry is handed out, no operation changes or removes it;
/// it only comes back.
pub proof fn lemma_delegated_entry_is_untouched(s: State, op: Operation, address: Seq<u8>)
    requires
        in_order(s),
        s.delegated.contains(address),
    ensures
        step(s, op).node_at(address) == s.node_at(address),
        !step(s, op).delegated.contains(address) ==> op is Undelegate && refusal(s, op) is None,
{
    assert(s.node_at(address) is Some);
    assert(record_valid(s, address));
}

/// A node entry is handed out by the authority and asked back by the node;
/// after both, the store is as it was before.
pub proof fn lemma_delegate_then_undelegate(
    s: State,
    authority: Caller,
    receiver: Caller,
    registry: Seq<u8>,
    target: Seq<u8>,
)
    requires
        refusal(s, Operation::Delegate { authority, registry, target }) is None,
        receiver.signed,
        receiver.key@ == target,
    ensures
        ({
            let out = step(s, Operation::Delegate { authority, registry, target });
            let back = Operation::Undelegate { receiver, registry, target };
            let address = entry_address(target, registry, s.program_id).unwrap().0;
            &&& out.delegated.contains(address)
            &&& refusal(out, Operation::Delegate { authority, registry, target }) is Some
            &&& refusal(out, back) is None
            &&& step(out, back) == s
        }),
{
    let out = step(s, Operation::Delegate { authority, registry, target });
    let back = Operation::Undelegate { receiver, registry, target };
    assert(step(out, back).delegated =~= s.delegated);
}

} // verus!
