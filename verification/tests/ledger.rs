use registry::instructions::account::{
    ClientEntry, NodeEntry, Registry, DISCRIMINATOR_LEN, MAX_DOMAIN_LEN, MAX_NAME_LEN,
};
use registry::ledger::{Ledger, Record};
use registry::pubkey::{Pubkey, PUBKEY_BYTES};
use registry::ErrorCode;

fn key(byte: u8) -> Pubkey {
    Pubkey::new_from_array([byte; 32])
}

fn client(parent: u8, registred: u8) -> ClientEntry {
    ClientEntry { parent: key(parent), registred: key(registred), until: 10, limit: 20 }
}

fn node(parent: u8, registred: u8) -> NodeEntry {
    NodeEntry {
        parent: key(parent),
        registred: key(registred),
        domain: String::from("n.example"),
        online: 1,
        active: true,
    }
}

#[test]
fn new_store_is_empty() {
    let ledger = Ledger::new(key(9));
    assert_eq!(ledger.len(), 0);
    assert_eq!(ledger.program_id(), &key(9));
    assert!(!ledger.contains(&key(1)));
    assert!(ledger.get(&key(1)).is_none());
    assert!(!ledger.is_delegated(&key(1)));
    assert_eq!(ledger.registry(&key(1)).unwrap_err(), ErrorCode::AccountNotFound);
    assert_eq!(ledger.client(&key(1)).unwrap_err(), ErrorCode::AccountNotFound);
    assert_eq!(ledger.node(&key(1)).unwrap_err(), ErrorCode::AccountNotFound);
}

#[test]
fn stored_record_is_found_by_its_kind() {
    let mut ledger = Ledger::new(key(9));
    ledger.store(key(1), Record::Registry(Registry { authority: key(5), name: String::from("r") }));
    ledger.store(key(2), Record::Client(client(1, 6)));
    ledger.store(key(3), Record::Node(node(1, 7)));
    assert_eq!(ledger.len(), 3);

    let registry = ledger.registry(&key(1)).unwrap();
    assert_eq!(registry.key, key(1));
    assert_eq!(registry.data, Registry { authority: key(5), name: String::from("r") });
    assert!(ledger.client(&key(1)).is_err());
    assert!(ledger.node(&key(1)).is_err());

    let found = ledger.client(&key(2)).unwrap();
    assert_eq!(found.key, key(2));
    assert_eq!(found.data, client(1, 6));
    assert!(ledger.registry(&key(2)).is_err());
    assert!(ledger.node(&key(2)).is_err());

    let found = ledger.node(&key(3)).unwrap();
    assert_eq!(found.key, key(3));
    assert_eq!(found.data, node(1, 7));
    assert!(ledger.registry(&key(3)).is_err());
    assert!(ledger.client(&key(3)).is_err());
}

#[test]
fn store_replaces_what_was_at_the_address() {
    let mut ledger = Ledger::new(key(9));
    ledger.store(key(2), Record::Client(client(1, 6)));
    ledger.store(key(3), Record::Client(client(1, 7)));
    ledger.store(key(2), Record::Client(client(1, 8)));
    assert_eq!(ledger.len(), 2);
    assert_eq!(ledger.client(&key(2)).unwrap().data, client(1, 8));
    assert_eq!(ledger.client(&key(3)).unwrap().data, client(1, 7));
}

#[test]
fn close_removes_one_record() {
    let mut ledger = Ledger::new(key(9));
    ledger.store(key(2), Record::Client(client(1, 6)));
    ledger.store(key(3), Record::Client(client(1, 7)));
    ledger.store(key(4), Record::Client(client(1, 8)));
    ledger.close(&key(3));
    assert_eq!(ledger.len(), 2);
    assert!(!ledger.contains(&key(3)));
    assert_eq!(ledger.client(&key(2)).unwrap().data, client(1, 6));
    assert_eq!(ledger.client(&key(4)).unwrap().data, client(1, 8));
    ledger.close(&key(3));
    ledger.close(&key(5));
    assert_eq!(ledger.len(), 2);
    ledger.close(&key(2));
    ledger.close(&key(4));
    assert_eq!(ledger.len(), 0);
}

#[test]
fn handing_out_is_kept_with_the_record() {
    let mut ledger = Ledger::new(key(9));
    ledger.store(key(3), Record::Node(node(1, 7)));
    ledger.store(key(4), Record::Node(node(1, 8)));
    ledger.set_delegated(&key(5), true);
    assert!(!ledger.is_delegated(&key(5)));
    assert_eq!(ledger.len(), 2);

    ledger.set_delegated(&key(3), true);
    assert!(ledger.is_delegated(&key(3)));
    assert!(!ledger.is_delegated(&key(4)));
    assert_eq!(ledger.node(&key(3)).unwrap().data, node(1, 7));

    // a record that is written again stays handed out
    ledger.store(key(3), Record::Node(node(1, 9)));
    assert!(ledger.is_delegated(&key(3)));
    assert_eq!(ledger.node(&key(3)).unwrap().data, node(1, 9));

    ledger.set_delegated(&key(3), false);
    assert!(!ledger.is_delegated(&key(3)));

    // a record that is removed and stored anew is not handed out
    ledger.set_delegated(&key(4), true);
    ledger.close(&key(4));
    assert!(!ledger.is_delegated(&key(4)));
    ledger.store(key(4), Record::Node(node(1, 8)));
    assert!(!ledger.is_delegated(&key(4)));
}

#[test]
fn records_have_their_budgets() {
    assert_eq!(PUBKEY_BYTES, 32);
    assert_eq!(DISCRIMINATOR_LEN, 8);
    assert_eq!(MAX_NAME_LEN, 32);
    assert_eq!(MAX_DOMAIN_LEN, 253);
    assert_eq!(Registry::SIZE, 8 + 32 + 4 + 32);
    assert_eq!(Registry::SIZE, 76);
    assert_eq!(ClientEntry::SIZE, 84);
    assert_eq!(NodeEntry::SIZE, 334);
    assert_eq!(ClientEntry::SIZE, 8 + 32 + 32 + 8 + 4);
    assert_eq!(NodeEntry::SIZE, 8 + 32 + 32 + 4 + 253 + 4 + 1);
}

#[test]
fn fresh_records_hold_zeroes() {
    assert_eq!(Registry::default(), Registry { authority: key(0), name: String::new() });
    assert_eq!(
        ClientEntry::default(),
        ClientEntry { parent: key(0), registred: key(0), until: 0, limit: 0 }
    );
    assert_eq!(
        NodeEntry::default(),
        NodeEntry {
            parent: key(0),
            registred: key(0),
            domain: String::new(),
            online: 0,
            active: false
        }
    );
    let copy = node(1, 7).clone();
    assert_eq!(copy, node(1, 7));
    let copy = Registry { authority: key(5), name: String::from("r") }.clone();
    assert_eq!(copy, Registry { authority: key(5), name: String::from("r") });
}
