use registry::address::{find_entry_address, find_registry_address};
use registry::instructions::account::NodeInfo;
use registry::ledger::{Ledger, Record};
use registry::pubkey::{Caller, Pubkey};
use registry::registry::{
    add_client_to_registry, add_node_to_registry, check_node, delegate_node_account,
    init_registry, remove_node_from_registry, undelegate_node_acount, update_node_active,
    update_node_online,
};
use registry::{id, ErrorCode};

fn key(byte: u8) -> Pubkey {
    Pubkey::new_from_array([byte; 32])
}

/// A store with the registry "acme" of the account 1 and the nodes 3 and 4,
/// of which 4 is active.
fn acme_with_nodes() -> (Ledger, Caller, Pubkey, Caller, Caller) {
    let authority = Caller::signer(key(1));
    let node = Caller::signer(key(3));
    let peer = Caller::signer(key(4));
    let mut ledger = Ledger::new(id());
    assert_eq!(init_registry(&mut ledger, &authority, String::from("acme")), Ok(()));
    let (registry, _) = find_registry_address(&authority.key, "acme", &id()).unwrap();
    assert_eq!(
        add_node_to_registry(&mut ledger, &authority, &registry, node.key, String::from("n.example")),
        Ok(())
    );
    assert_eq!(
        add_node_to_registry(&mut ledger, &authority, &registry, peer.key, String::from("p.example")),
        Ok(())
    );
    // the peer is active from the start: no node becomes the first active
    // one through its peers
    let (address, _) = find_entry_address(&peer.key, &registry, &id()).unwrap();
    let mut entry = ledger.node(&address).unwrap().data;
    entry.active = true;
    ledger.store(address, Record::Node(entry));
    (ledger, authority, registry, node, peer)
}

#[test]
fn delegated_node_is_not_written_by_the_registry() {
    let (mut ledger, authority, registry, node, peer) = acme_with_nodes();
    let (address, _) = find_entry_address(&node.key, &registry, &id()).unwrap();
    assert_eq!(update_node_online(&mut ledger, &node, &registry, node.key, 3), Ok(()));
    assert_eq!(update_node_active(&mut ledger, &peer, &registry, node.key, true), Ok(()));
    assert!(!ledger.is_delegated(&address));

    assert_eq!(delegate_node_account(&mut ledger, &authority, &registry, node.key), Ok(()));
    assert!(ledger.is_delegated(&address));

    assert_eq!(
        update_node_online(&mut ledger, &node, &registry, node.key, 4),
        Err(ErrorCode::ConstraintViolation)
    );
    assert_eq!(
        update_node_active(&mut ledger, &peer, &registry, node.key, false),
        Err(ErrorCode::ConstraintViolation)
    );
    assert_eq!(
        remove_node_from_registry(&mut ledger, &authority, &registry, node.key),
        Err(ErrorCode::ConstraintViolation)
    );
    assert_eq!(
        delegate_node_account(&mut ledger, &authority, &registry, node.key),
        Err(ErrorCode::ConstraintViolation)
    );
    // the entry is still there to be read, as it was handed out
    assert_eq!(
        check_node(&ledger, &registry, node.key),
        Ok(NodeInfo { domain: String::from("n.example"), active: true })
    );
    match ledger.get(&address) {
        Some(Record::Node(entry)) => assert_eq!(entry.online, 3),
        other => panic!("no node entry at the derived address: {:?}", other),
    }
    // and the node still speaks for its peers
    assert_eq!(update_node_active(&mut ledger, &node, &registry, peer.key, false), Ok(()));
    assert_eq!(
        check_node(&ledger, &registry, peer.key),
        Ok(NodeInfo { domain: String::from("p.example"), active: false })
    );
    assert_eq!(ledger.len(), 3);
}

#[test]
fn node_takes_its_entry_back() {
    let (mut ledger, authority, registry, node, peer) = acme_with_nodes();
    let (address, _) = find_entry_address(&node.key, &registry, &id()).unwrap();
    assert_eq!(delegate_node_account(&mut ledger, &authority, &registry, node.key), Ok(()));

    assert_eq!(
        undelegate_node_acount(&mut ledger, &authority, &registry, node.key),
        Err(ErrorCode::ConstraintViolation)
    );
    assert_eq!(
        undelegate_node_acount(&mut ledger, &peer, &registry, node.key),
        Err(ErrorCode::ConstraintViolation)
    );
    assert_eq!(
        undelegate_node_acount(&mut ledger, &Caller::unsigned(node.key), &registry, node.key),
        Err(ErrorCode::SignatureMissing)
    );
    assert!(ledger.is_delegated(&address));

    assert_eq!(undelegate_node_acount(&mut ledger, &node, &registry, node.key), Ok(()));
    assert!(!ledger.is_delegated(&address));
    assert_eq!(update_node_online(&mut ledger, &node, &registry, node.key, 4), Ok(()));
    assert_eq!(update_node_active(&mut ledger, &peer, &registry, node.key, true), Ok(()));
    assert_eq!(
        undelegate_node_acount(&mut ledger, &node, &registry, node.key),
        Err(ErrorCode::ConstraintViolation)
    );
    // the cycle may be gone through again
    assert_eq!(delegate_node_account(&mut ledger, &authority, &registry, node.key), Ok(()));
    assert_eq!(undelegate_node_acount(&mut ledger, &node, &registry, node.key), Ok(()));
    assert_eq!(remove_node_from_registry(&mut ledger, &authority, &registry, node.key), Ok(()));
    assert_eq!(ledger.len(), 2);
}

#[test]
fn only_the_authority_hands_a_node_out() {
    let (mut ledger, authority, registry, node, peer) = acme_with_nodes();
    let (address, _) = find_entry_address(&node.key, &registry, &id()).unwrap();
    assert_eq!(
        delegate_node_account(&mut ledger, &node, &registry, node.key),
        Err(ErrorCode::ConstraintViolation)
    );
    assert_eq!(
        delegate_node_account(&mut ledger, &peer, &registry, node.key),
        Err(ErrorCode::ConstraintViolation)
    );
    assert_eq!(
        delegate_node_account(&mut ledger, &Caller::unsigned(authority.key), &registry, node.key),
        Err(ErrorCode::SignatureMissing)
    );
    assert_eq!(
        delegate_node_account(&mut ledger, &authority, &key(8), node.key),
        Err(ErrorCode::AccountNotFound)
    );
    assert!(!ledger.is_delegated(&address));
}

#[test]
fn only_node_entries_are_handed_out() {
    let (mut ledger, authority, registry, _, _) = acme_with_nodes();
    assert_eq!(add_client_to_registry(&mut ledger, &authority, &registry, key(2), 1000, 5), Ok(()));
    assert_eq!(
        delegate_node_account(&mut ledger, &authority, &registry, key(2)),
        Err(ErrorCode::AccountNotFound)
    );
    assert_eq!(
        delegate_node_account(&mut ledger, &authority, &registry, key(5)),
        Err(ErrorCode::AccountNotFound)
    );
    assert_eq!(
        undelegate_node_acount(&mut ledger, &Caller::signer(key(2)), &registry, key(2)),
        Err(ErrorCode::AccountNotFound)
    );
    let (client, _) = find_entry_address(&key(2), &registry, &id()).unwrap();
    assert!(!ledger.is_delegated(&client));
}
