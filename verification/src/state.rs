//! The registry as a state machine: what is stored, and for every operation
//! the first reason to refuse it and the state that it leaves.
//!
//! An operation is refused for the first of its checks that fails, in this
//! order: the signature of the caller, the registry, the caller's right over
//! the registry (or, for a peer, that it does not speak of itself), the
//! address of the entry, the record at that address, the binding of the
//! record to registry and account (and, for a peer, the same of its own
//! entry, and that this entry is active), who holds the record, and last the
//! values handed in. A refused operation leaves the state as it was.
//!
//! Every function here that ends in `_at` takes the derived address as it
//! was found; the one without takes it from `entry_address` or
//! `registry_address`.

use vstd::prelude::*;
use vstd::utf8::encode_utf8;
use crate::ErrorCode;
use crate::address::{entry_address, registry_address};
use crate::instructions::account::{
    ClientEntryView, NodeEntryView, RegistryView, MAX_DOMAIN_LEN, MAX_NAME_LEN,
};
use crate::pubkey::Caller;

verus! {

/// What a stored record holds, by its kind.
pub enum RecordView {
    Registry(RegistryView),
    Client(ClientEntryView),
    Node(NodeEntryView),
}

/// Everything the program has stored.
pub struct State {
    /// The key of the program; every address is derived under it.
    pub program_id: Seq<u8>,
    /// The records, by their addresses.
    pub accounts: Map<Seq<u8>, RecordView>,
    /// The addresses of the records that are handed out to the outside
    /// execution context and have not come back.
    pub delegated: Set<Seq<u8>>,
}

/// Number of bytes that a text takes.
pub open spec fn byte_len(text: Seq<char>) -> nat {
    encode_utf8(text).len()
}

/// The first of two refusals.
pub open spec fn or_else(first: Option<ErrorCode>, second: Option<ErrorCode>) -> Option<
    ErrorCode,
> {
    if first is Some {
        first
    } else {
        second
    }
}

impl State {
    /// The state of a program that has stored nothing yet.
    pub open spec fn empty(program_id: Seq<u8>) -> State {
        State { program_id, accounts: Map::empty(), delegated: Set::empty() }
    }

    /// The registry stored at `address`, if a registry is stored there.
    pub open spec fn registry_at(self, address: Seq<u8>) -> Option<RegistryView> {
        if self.accounts.contains_key(address) {
            match self.accounts[address] {
                RecordView::Registry(registry) => Some(registry),
                _ => None,
            }
        } else {
            None
        }
    }

    /// The client entry stored at `address`, if one is stored there.
    pub open spec fn client_at(self, address: Seq<u8>) -> Option<ClientEntryView> {
        if self.accounts.contains_key(address) {
            match self.accounts[address] {
                RecordView::Client(entry) => Some(entry),
                _ => None,
            }
        } else {
            None
        }
    }

    /// The node entry stored at `address`, if one is stored there.
    pub open spec fn node_at(self, address: Seq<u8>) -> Option<NodeEntryView> {
        if self.accounts.contains_key(address) {
            match self.accounts[address] {
                RecordView::Node(entry) => Some(entry),
                _ => None,
            }
        } else {
            None
        }
    }

    /// The state with `record` stored at `address`.
    pub open spec fn store(self, address: Seq<u8>, record: RecordView) -> State {
        State { accounts: self.accounts.insert(address, record), ..self }
    }

    /// The state without a record at `address`.
    pub open spec fn close(self, address: Seq<u8>) -> State {
        State {
            accounts: self.accounts.remove(address),
            delegated: self.delegated.remove(address),
            ..self
        }
    }

    /// The state with the record at `address` handed out, or taken back.
    /// Where nothing is stored at `address`, nothing changes.
    pub open spec fn set_delegated(self, address: Seq<u8>, delegated: bool) -> State {
        if !self.accounts.contains_key(address) {
            self
        } else if delegated {
            State { delegated: self.delegated.insert(address), ..self }
        } else {
            State { delegated: self.delegated.remove(address), ..self }
        }
    }
}

/// Refuses a caller that did not sign.
pub open spec fn signer_refusal(caller: Caller) -> Option<ErrorCode> {
    if !caller.signed {
        Some(ErrorCode::SignatureMissing)
    } else {
        None
    }
}

/// Refuses a caller that did not sign, and a registry that is not stored.
pub open spec fn member_refusal(s: State, caller: Caller, registry: Seq<u8>) -> Option<ErrorCode> {
    if !caller.signed {
        Some(ErrorCode::SignatureMissing)
    } else if s.registry_at(registry) is None {
        Some(ErrorCode::AccountNotFound)
    } else {
        None
    }
}

/// Refuses every caller but the authority of the registry, with its
/// signature.
pub open spec fn admin_refusal(s: State, caller: Caller, registry: Seq<u8>) -> Option<ErrorCode> {
    if !caller.signed {
        Some(ErrorCode::SignatureMissing)
    } else if s.registry_at(registry) is None {
        Some(ErrorCode::AccountNotFound)
    } else if s.registry_at(registry).unwrap().authority != caller.key@ {
        Some(ErrorCode::ConstraintViolation)
    } else {
        None
    }
}

/// Refuses an address that could not be derived, and one that is taken.
pub open spec fn vacant_refusal(s: State, derived: Option<(Seq<u8>, u8)>) -> Option<ErrorCode> {
    match derived {
        None => Some(ErrorCode::ConstraintViolation),
        Some((address, _)) => if s.accounts.contains_key(address) {
            Some(ErrorCode::AccountAlreadyExists)
        } else {
            None
        },
    }
}

/// Refuses unless a client entry is stored at the derived address that names
/// `registry` as its parent and `target` as the registered account.
pub open spec fn client_refusal(
    s: State,
    derived: Option<(Seq<u8>, u8)>,
    registry: Seq<u8>,
    target: Seq<u8>,
) -> Option<ErrorCode> {
    match derived {
        None => Some(ErrorCode::ConstraintViolation),
        Some((address, _)) => match s.client_at(address) {
            None => Some(ErrorCode::AccountNotFound),
            Some(entry) => if entry.parent != registry || entry.registred != target {
                Some(ErrorCode::ConstraintViolation)
            } else {
                None
            },
        },
    }
}

/// Refuses unless a node entry is stored at the derived address that names
/// `registry` as its parent and `target` as the registered account.
pub open spec fn node_refusal(
    s: State,
    derived: Option<(Seq<u8>, u8)>,
    registry: Seq<u8>,
    target: Seq<u8>,
) -> Option<ErrorCode> {
    match derived {
        None => Some(ErrorCode::ConstraintViolation),
        Some((address, _)) => match s.node_at(address) {
            None => Some(ErrorCode::AccountNotFound),
            Some(entry) => if entry.parent != registry || entry.registred != target {
                Some(ErrorCode::ConstraintViolation)
            } else {
                None
            },
        },
    }
}

/// Refuses a record that is handed out to the outside execution context.
pub open spec fn owned_refusal(s: State, address: Seq<u8>) -> Option<ErrorCode> {
    if s.delegated.contains(address) {
        Some(ErrorCode::ConstraintViolation)
    } else {
        None
    }
}

/// Refuses a record that is not handed out.
pub open spec fn delegated_refusal(s: State, address: Seq<u8>) -> Option<ErrorCode> {
    if !s.delegated.contains(address) {
        Some(ErrorCode::ConstraintViolation)
    } else {
        None
    }
}

/// Refuses a domain of more than 253 bytes.
pub open spec fn domain_refusal(domain: Seq<char>) -> Option<ErrorCode> {
    if byte_len(domain) > MAX_DOMAIN_LEN {
        Some(ErrorCode::DomainTooLong)
    } else {
        None
    }
}

/// Refuses a negative liveness value.
pub open spec fn online_refusal(value: i32) -> Option<ErrorCode> {
    if value < 0 {
        Some(ErrorCode::InvalidOnlineValue)
    } else {
        None
    }
}

/// Why the accounts of `init_registry` are refused: the caller has to sign,
/// the name has to fit the 32 bytes set aside for it, and the address of the
/// registry has to be free.
pub open spec fn init_registry_refusal_at(
    s: State,
    derived: Option<(Seq<u8>, u8)>,
    authority: Caller,
    name: Seq<char>,
) -> Option<ErrorCode> {
    if !authority.signed {
        Some(ErrorCode::SignatureMissing)
    } else if byte_len(name) > MAX_NAME_LEN {
        Some(ErrorCode::ConstraintViolation)
    } else {
        vacant_refusal(s, derived)
    }
}

/// Why `init_registry` is refused, if it is.
pub open spec fn init_registry_refusal(s: State, authority: Caller, name: Seq<char>) -> Option<
    ErrorCode,
> {
    init_registry_refusal_at(
        s,
        registry_address(authority.key@, name, s.program_id),
        authority,
        name,
    )
}

/// The state after `init_registry`: a registry of the caller under `name`,
/// at the address derived from both.
pub open spec fn init_registry_next(s: State, authority: Caller, name: Seq<char>) -> State {
    s.store(
        registry_address(authority.key@, name, s.program_id).unwrap().0,
        RecordView::Registry(RegistryView { authority: authority.key@, name }),
    )
}

/// Why the accounts of an instruction that adds an entry are refused: only
/// the authority of the registry may add, and only at a free address.
pub open spec fn add_entry_refusal_at(
    s: State,
    derived: Option<(Seq<u8>, u8)>,
    authority: Caller,
    registry: Seq<u8>,
) -> Option<ErrorCode> {
    or_else(admin_refusal(s, authority, registry), vacant_refusal(s, derived))
}

/// Why `add_client_to_registry` is refused, if it is.
pub open spec fn add_client_refusal(
    s: State,
    authority: Caller,
    registry: Seq<u8>,
    target: Seq<u8>,
) -> Option<ErrorCode> {
    add_entry_refusal_at(s, entry_address(target, registry, s.program_id), authority, registry)
}

/// The state after `add_client_to_registry`.
pub open spec fn add_client_next(
    s: State,
    registry: Seq<u8>,
    target: Seq<u8>,
    until: i64,
    limit: u32,
) -> State {
    s.store(
        entry_address(target, registry, s.program_id).unwrap().0,
        RecordView::Client(ClientEntryView { parent: registry, registred: target, until, limit }),
    )
}

/// Why `add_node_to_registry` is refused, if it is.
pub open spec fn add_node_refusal(
    s: State,
    authority: Caller,
    registry: Seq<u8>,
    target: Seq<u8>,
    domain: Seq<char>,
) -> Option<ErrorCode> {
    or_else(
        add_entry_refusal_at(s, entry_address(target, registry, s.program_id), authority, registry),
        domain_refusal(domain),
    )
}

/// The state after `add_node_to_registry`: the new node has never reported
/// itself online and is not active.
pub open spec fn add_node_next(
    s: State,
    registry: Seq<u8>,
    target: Seq<u8>,
    domain: Seq<char>,
) -> State {
    s.store(
        entry_address(target, registry, s.program_id).unwrap().0,
        RecordView::Node(
            NodeEntryView { parent: registry, registred: target, domain, online: 0, active: false },
        ),
    )
}

/// Why the accounts of `check_client` are refused.
pub open spec fn check_client_refusal_at(
    s: State,
    derived: Option<(Seq<u8>, u8)>,
    registry: Seq<u8>,
    target: Seq<u8>,
) -> Option<ErrorCode> {
    if s.registry_at(registry) is None {
        Some(ErrorCode::AccountNotFound)
    } else {
        client_refusal(s, derived, registry, target)
    }
}

/// Why `check_client` is refused, if it is.
pub open spec fn check_client_refusal(s: State, registry: Seq<u8>, target: Seq<u8>) -> Option<
    ErrorCode,
> {
    check_client_refusal_at(s, entry_address(target, registry, s.program_id), registry, target)
}

/// The client entry that `check_client` reads.
pub open spec fn checked_client(s: State, registry: Seq<u8>, target: Seq<u8>) -> ClientEntryView {
    s.client_at(entry_address(target, registry, s.program_id).unwrap().0).unwrap()
}

/// Why the accounts of `check_node` are refused.
pub open spec fn check_node_refusal_at(
    s: State,
    derived: Option<(Seq<u8>, u8)>,
    registry: Seq<u8>,
    target: Seq<u8>,
) -> Option<ErrorCode> {
    if s.registry_at(registry) is None {
        Some(ErrorCode::AccountNotFound)
    } else {
        node_refusal(s, derived, registry, target)
    }
}

/// Why `check_node` is refused, if it is.
pub open spec fn check_node_refusal(s: State, registry: Seq<u8>, target: Seq<u8>) -> Option<
    ErrorCode,
> {
    check_node_refusal_at(s, entry_address(target, registry, s.program_id), registry, target)
}

/// The node entry that `check_node` reads.
pub open spec fn checked_node(s: State, registry: Seq<u8>, target: Seq<u8>) -> NodeEntryView {
    s.node_at(entry_address(target, registry, s.program_id).unwrap().0).unwrap()
}

/// Why the accounts of `remove_client_from_registry` are refused.
pub open spec fn remove_client_refusal_at(
    s: State,
    derived: Option<(Seq<u8>, u8)>,
    authority: Caller,
    registry: Seq<u8>,
    target: Seq<u8>,
) -> Option<ErrorCode> {
    or_else(admin_refusal(s, authority, registry), client_refusal(s, derived, registry, target))
}

/// Why `remove_client_from_registry` is refused, if it is.
pub open spec fn remove_client_refusal(
    s: State,
    authority: Caller,
    registry: Seq<u8>,
    target: Seq<u8>,
) -> Option<ErrorCode> {
    remove_client_refusal_at(
        s,
        entry_address(target, registry, s.program_id),
        authority,
        registry,
        target,
    )
}

/// Why the accounts of `remove_node_from_registry` are refused: a node that
/// is handed out cannot be removed.
pub open spec fn remove_node_refusal_at(
    s: State,
    derived: Option<(Seq<u8>, u8)>,
    authority: Caller,
    registry: Seq<u8>,
    target: Seq<u8>,
) -> Option<ErrorCode> {
    or_else(
        admin_refusal(s, authority, registry),
        or_else(
            node_refusal(s, derived, registry, target),
            owned_refusal(s, derived.unwrap().0),
        ),
    )
}

/// Why `remove_node_from_registry` is refused, if it is.
pub open spec fn remove_node_refusal(
    s: State,
    authority: Caller,
    registry: Seq<u8>,
    target: Seq<u8>,
) -> Option<ErrorCode> {
    remove_node_refusal_at(
        s,
        entry_address(target, registry, s.program_id),
        authority,
        registry,
        target,
    )
}

/// The state after the entry of `target` under `registry` was removed.
pub open spec fn remove_entry_next(s: State, registry: Seq<u8>, target: Seq<u8>) -> State {
    s.close(entry_address(target, registry, s.program_id).unwrap().0)
}

/// Why the accounts of `update_node_online` are refused: only the node
/// itself reports its liveness, and not while its entry is handed out.
pub open spec fn update_online_refusal_at(
    s: State,
    derived: Option<(Seq<u8>, u8)>,
    authority: Caller,
    registry: Seq<u8>,
    target: Seq<u8>,
) -> Option<ErrorCode> {
    or_else(
        member_refusal(s, authority, registry),
        or_else(
            node_refusal(s, derived, registry, target),
            if target != authority.key@ {
                Some(ErrorCode::ConstraintViolation)
            } else {
                owned_refusal(s, derived.unwrap().0)
            },
        ),
    )
}

/// Why `update_node_online` is refused, if it is.
pub open spec fn update_online_refusal(
    s: State,
    authority: Caller,
    registry: Seq<u8>,
    target: Seq<u8>,
    value: i32,
) -> Option<ErrorCode> {
    or_else(
        update_online_refusal_at(
            s,
            entry_address(target, registry, s.program_id),
            authority,
            registry,
            target,
        ),
        online_refusal(value),
    )
}

/// The state after `update_node_online`.
pub open spec fn update_online_next(
    s: State,
    registry: Seq<u8>,
    target: Seq<u8>,
    value: i32,
) -> State {
    let address = entry_address(target, registry, s.program_id).unwrap().0;
    s.store(address, RecordView::Node(NodeEntryView { online: value, ..s.node_at(address).unwrap() }))
}

/// Refuses unless `peer` has a node entry of its own at the derived address,
/// under `registry`, and that entry is active.
pub open spec fn active_peer_refusal(
    s: State,
    derived_peer: Option<(Seq<u8>, u8)>,
    registry: Seq<u8>,
    peer: Seq<u8>,
) -> Option<ErrorCode> {
    or_else(
        node_refusal(s, derived_peer, registry, peer),
        if !s.node_at(derived_peer.unwrap().0).unwrap().active {
            Some(ErrorCode::ConstraintViolation)
        } else {
            None
        },
    )
}

/// Why the accounts of `update_node_active` are refused: the caller has to
/// be another node with an entry of its own under the same registry, and
/// has to be active itself.
pub open spec fn update_active_refusal_at(
    s: State,
    derived: Option<(Seq<u8>, u8)>,
    derived_peer: Option<(Seq<u8>, u8)>,
    authority: Caller,
    registry: Seq<u8>,
    target: Seq<u8>,
) -> Option<ErrorCode> {
    or_else(
        member_refusal(s, authority, registry),
        if target == authority.key@ {
            Some(ErrorCode::ConstraintViolation)
        } else {
            or_else(
                node_refusal(s, derived, registry, target),
                or_else(
                    active_peer_refusal(s, derived_peer, registry, authority.key@),
                    owned_refusal(s, derived.unwrap().0),
                ),
            )
        },
    )
}

/// Why `update_node_active` is refused, if it is.
pub open spec fn update_active_refusal(
    s: State,
    authority: Caller,
    registry: Seq<u8>,
    target: Seq<u8>,
) -> Option<ErrorCode> {
    update_active_refusal_at(
        s,
        entry_address(target, registry, s.program_id),
        entry_address(authority.key@, registry, s.program_id),
        authority,
        registry,
        target,
    )
}

/// The state after `update_node_active`.
pub open spec fn update_active_next(
    s: State,
    registry: Seq<u8>,
    target: Seq<u8>,
    active: bool,
) -> State {
    let address = entry_address(target, registry, s.program_id).unwrap().0;
    s.store(address, RecordView::Node(NodeEntryView { active, ..s.node_at(address).unwrap() }))
}

/// Why the accounts of `delegate_node_account` are refused: only the
/// authority of the registry hands a node entry out, and only one that is
/// not handed out yet.
pub open spec fn delegate_refusal_at(
    s: State,
    derived: Option<(Seq<u8>, u8)>,
    authority: Caller,
    registry: Seq<u8>,
    target: Seq<u8>,
) -> Option<ErrorCode> {
    or_else(
        admin_refusal(s, authority, registry),
        or_else(
            node_refusal(s, derived, registry, target),
            owned_refusal(s, derived.unwrap().0),
        ),
    )
}

/// Why `delegate_node_account` is refused, if it is.
pub open spec fn delegate_refusal(
    s: State,
    authority: Caller,
    registry: Seq<u8>,
    target: Seq<u8>,
) -> Option<ErrorCode> {
    delegate_refusal_at(
        s,
        entry_address(target, registry, s.program_id),
        authority,
        registry,
        target,
    )
}

/// The state after `delegate_node_account`.
pub open spec fn delegate_next(s: State, registry: Seq<u8>, target: Seq<u8>) -> State {
    s.set_delegated(entry_address(target, registry, s.program_id).unwrap().0, true)
}

/// Why the accounts of `undelegate_node_account` are refused: only the node
/// itself asks for its entry back, and only for one that is handed out.
pub open spec fn undelegate_refusal_at(
    s: State,
    derived: Option<(Seq<u8>, u8)>,
    receiver: Caller,
    registry: Seq<u8>,
    target: Seq<u8>,
) -> Option<ErrorCode> {
    or_else(
        member_refusal(s, receiver, registry),
        or_else(
            node_refusal(s, derived, registry, target),
            if target != receiver.key@ {
                Some(ErrorCode::ConstraintViolation)
            } else {
                delegated_refusal(s, derived.unwrap().0)
            },
        ),
    )
}

/// Why `undelegate_node_account` is refused, if it is.
pub open spec fn undelegate_refusal(
    s: State,
    receiver: Caller,
    registry: Seq<u8>,
    target: Seq<u8>,
) -> Option<ErrorCode> {
    undelegate_refusal_at(
        s,
        entry_address(target, registry, s.program_id),
        receiver,
        registry,
        target,
    )
}

/// The state after `undelegate_node_account`.
pub open spec fn undelegate_next(s: State, registry: Seq<u8>, target: Seq<u8>) -> State {
    s.set_delegated(entry_address(target, registry, s.program_id).unwrap().0, false)
}

} // verus!
