use registry::instructions::{
    add_client_to_registry, add_node_to_registry, check_client, check_node,
    delegate_node_account, init_registry, remove_client_from_registry,
    remove_node_from_registry, undelegate_node_account, update_node_active, update_node_online,
    AddClientToRegistry, AddNodeToRegistry, CheckClient, CheckNode, ClientEntry, ClientInfo,
    DelegateConfig, DelegateNodeAccount, InitRegistry, NodeEntry, NodeInfo, Registry,
    RegistryInfo, RemoveClientFromRegistry, RemoveNodeFromRegistry, Signer,
    UndelegateNodeAccount, UpdateNodeActive, UpdateNodeOnline,
};
use registry::ledger::{Ledger, Record};
use registry::pubkey::{Caller, Pubkey};
use registry::ErrorCode;

fn key(byte: u8) -> Pubkey {
    Pubkey::new_from_array([byte; 32])
}

/// A store with a registry of the account 1 at the address 10, a client 2
/// at 20, and the nodes 3 at 30 and 4 at 40.
fn store() -> Ledger {
    let mut ledger = Ledger::new(key(9));
    ledger.store(key(10), Record::Registry(Registry { authority: key(1), name: String::from("r") }));
    ledger.store(
        key(20),
        Record::Client(ClientEntry { parent: key(10), registred: key(2), until: 1000, limit: 5 }),
    );
    ledger.store(
        key(30),
        Record::Node(NodeEntry {
            parent: key(10),
            registred: key(3),
            domain: String::from("n.example"),
            online: 2,
            active: false,
        }),
    );
    ledger.store(
        key(40),
        Record::Node(NodeEntry {
            parent: key(10),
            registred: key(4),
            domain: String::from("p.example"),
            online: 0,
            active: true,
        }),
    );
    ledger
}

#[test]
fn signer_is_a_caller_that_signed() {
    assert_eq!(Signer::try_accounts(&Caller::signer(key(1))).unwrap().key, key(1));
    assert_eq!(
        Signer::try_accounts(&Caller::unsigned(key(1))).unwrap_err(),
        ErrorCode::SignatureMissing
    );
}

#[test]
fn init_registry_writes_authority_and_name() {
    let mut ledger = Ledger::new(key(9));
    let authority = Caller::signer(key(1));
    let mut ctx =
        InitRegistry::try_accounts(&ledger, Some((key(10), 255)), &authority, "r").unwrap();
    assert_eq!(ctx.registry.key, key(10));
    assert_eq!(ctx.registry.data, Registry::default());
    assert_eq!(ctx.authority.key, key(1));
    assert_eq!(init_registry(&mut ctx, String::from("r")), Ok(()));
    assert_eq!(ctx.registry.data, Registry { authority: key(1), name: String::from("r") });
    ctx.exit(&mut ledger);
    assert_eq!(ledger.registry(&key(10)).unwrap().data.name, "r");

    assert_eq!(
        InitRegistry::try_accounts(&ledger, Some((key(10), 255)), &authority, "r").unwrap_err(),
        ErrorCode::AccountAlreadyExists
    );
    assert_eq!(
        InitRegistry::try_accounts(&ledger, None, &authority, "r").unwrap_err(),
        ErrorCode::ConstraintViolation
    );
    assert_eq!(
        InitRegistry::try_accounts(&ledger, Some((key(11), 255)), &authority, &"r".repeat(33))
            .unwrap_err(),
        ErrorCode::ConstraintViolation
    );
    assert_eq!(
        InitRegistry::try_accounts(&ledger, Some((key(11), 255)), &Caller::unsigned(key(1)), "r")
            .unwrap_err(),
        ErrorCode::SignatureMissing
    );
}

#[test]
fn add_client_writes_the_entry() {
    let mut ledger = store();
    let authority = Caller::signer(key(1));
    let mut ctx =
        AddClientToRegistry::try_accounts(&ledger, Some((key(21), 254)), &authority, &key(10))
            .unwrap();
    assert_eq!(ctx.entry.key, key(21));
    assert_eq!(ctx.entry.data, ClientEntry::default());
    assert_eq!(ctx.registry.key, key(10));
    assert_eq!(ctx.registry.data.authority, key(1));
    assert_eq!(add_client_to_registry(&mut ctx, key(5), 77, 88), Ok(()));
    assert_eq!(
        ctx.entry.data,
        ClientEntry { parent: key(10), registred: key(5), until: 77, limit: 88 }
    );
    ctx.exit(&mut ledger);
    assert_eq!(
        ledger.client(&key(21)).unwrap().data,
        ClientEntry { parent: key(10), registred: key(5), until: 77, limit: 88 }
    );
    assert_eq!(ledger.len(), 5);
}

#[test]
fn add_accounts_are_checked_in_order() {
    let ledger = store();
    let authority = Caller::signer(key(1));
    let refused = |derived, caller: &Caller, registry: u8| {
        let client = AddClientToRegistry::try_accounts(&ledger, derived, caller, &key(registry))
            .unwrap_err();
        let node =
            AddNodeToRegistry::try_accounts(&ledger, derived, caller, &key(registry)).unwrap_err();
        assert_eq!(client, node);
        client
    };
    assert_eq!(refused(Some((key(20), 255)), &authority, 10), ErrorCode::AccountAlreadyExists);
    assert_eq!(refused(Some((key(10), 255)), &authority, 10), ErrorCode::AccountAlreadyExists);
    assert_eq!(refused(None, &authority, 10), ErrorCode::ConstraintViolation);
    assert_eq!(refused(Some((key(21), 255)), &Caller::signer(key(2)), 10), ErrorCode::ConstraintViolation);
    assert_eq!(refused(Some((key(21), 255)), &authority, 11), ErrorCode::AccountNotFound);
    assert_eq!(refused(Some((key(21), 255)), &authority, 20), ErrorCode::AccountNotFound);
    assert_eq!(refused(Some((key(20), 255)), &Caller::unsigned(key(2)), 11), ErrorCode::SignatureMissing);
    assert_eq!(refused(Some((key(20), 255)), &Caller::signer(key(2)), 11), ErrorCode::AccountNotFound);
    assert_eq!(refused(Some((key(20), 255)), &Caller::signer(key(2)), 10), ErrorCode::ConstraintViolation);
}

#[test]
fn add_node_writes_the_entry_or_refuses_the_domain() {
    let mut ledger = store();
    let authority = Caller::signer(key(1));
    let mut ctx =
        AddNodeToRegistry::try_accounts(&ledger, Some((key(31), 255)), &authority, &key(10))
            .unwrap();
    assert_eq!(ctx.entry.data, NodeEntry::default());
    assert_eq!(
        add_node_to_registry(&mut ctx, key(5), "d".repeat(254)),
        Err(ErrorCode::DomainTooLong)
    );
    assert_eq!(ctx.entry.data, NodeEntry::default());
    assert_eq!(add_node_to_registry(&mut ctx, key(5), "d".repeat(253)), Ok(()));
    assert_eq!(
        ctx.entry.data,
        NodeEntry {
            parent: key(10),
            registred: key(5),
            domain: "d".repeat(253),
            online: 0,
            active: false
        }
    );
    ctx.exit(&mut ledger);
    assert_eq!(ledger.node(&key(31)).unwrap().data.domain, "d".repeat(253));
}

#[test]
fn check_tells_what_the_entry_holds() {
    let ledger = store();
    let ctx = CheckClient::try_accounts(&ledger, Some((key(20), 255)), &key(10), &key(2)).unwrap();
    assert_eq!(check_client(&ctx, key(2)), Ok(ClientInfo { until: 1000, limit: 5 }));
    let ctx = CheckNode::try_accounts(&ledger, Some((key(40), 255)), &key(10), &key(4)).unwrap();
    assert_eq!(
        check_node(&ctx, key(4)),
        Ok(NodeInfo { domain: String::from("p.example"), active: true })
    );
    assert_ne!(
        RegistryInfo::Client(ClientInfo { until: 1000, limit: 5 }),
        RegistryInfo::Node(NodeInfo { domain: String::from("p.example"), active: true })
    );

    let client = |derived, registry: u8, account: u8| {
        CheckClient::try_accounts(&ledger, derived, &key(registry), &key(account)).unwrap_err()
    };
    assert_eq!(client(Some((key(20), 255)), 11, 2), ErrorCode::AccountNotFound);
    assert_eq!(client(None, 10, 2), ErrorCode::ConstraintViolation);
    assert_eq!(client(Some((key(21), 255)), 10, 2), ErrorCode::AccountNotFound);
    assert_eq!(client(Some((key(30), 255)), 10, 3), ErrorCode::AccountNotFound);
    assert_eq!(client(Some((key(20), 255)), 10, 3), ErrorCode::ConstraintViolation);
    let node = |derived, registry: u8, account: u8| {
        CheckNode::try_accounts(&ledger, derived, &key(registry), &key(account)).unwrap_err()
    };
    assert_eq!(node(Some((key(30), 255)), 11, 3), ErrorCode::AccountNotFound);
    assert_eq!(node(None, 10, 3), ErrorCode::ConstraintViolation);
    assert_eq!(node(Some((key(20), 255)), 10, 2), ErrorCode::AccountNotFound);
    assert_eq!(node(Some((key(30), 255)), 10, 4), ErrorCode::ConstraintViolation);
}

#[test]
fn remove_closes_the_entry() {
    let mut ledger = store();
    let authority = Caller::signer(key(1));
    let ctx = RemoveClientFromRegistry::try_accounts(
        &ledger,
        Some((key(20), 255)),
        &authority,
        &key(10),
        &key(2),
    )
    .unwrap();
    assert_eq!(ctx.entry.data.until, 1000);
    assert_eq!(remove_client_from_registry(&ctx, key(2)), Ok(()));
    ctx.exit(&mut ledger);
    assert!(!ledger.contains(&key(20)));

    let ctx = RemoveNodeFromRegistry::try_accounts(
        &ledger,
        Some((key(30), 255)),
        &authority,
        &key(10),
        &key(3),
    )
    .unwrap();
    assert_eq!(remove_node_from_registry(&ctx, key(3)), Ok(()));
    ctx.exit(&mut ledger);
    assert!(!ledger.contains(&key(30)));
    assert_eq!(ledger.len(), 2);

    ledger.set_delegated(&key(40), true);
    assert_eq!(
        RemoveNodeFromRegistry::try_accounts(
            &ledger,
            Some((key(40), 255)),
            &authority,
            &key(10),
            &key(4)
        )
        .unwrap_err(),
        ErrorCode::ConstraintViolation
    );
    assert_eq!(
        RemoveClientFromRegistry::try_accounts(
            &ledger,
            Some((key(40), 255)),
            &authority,
            &key(10),
            &key(4)
        )
        .unwrap_err(),
        ErrorCode::AccountNotFound
    );
}

#[test]
fn update_online_writes_the_counter() {
    let mut ledger = store();
    let node = Caller::signer(key(3));
    let mut ctx =
        UpdateNodeOnline::try_accounts(&ledger, Some((key(30), 255)), &node, &key(10), &key(3))
            .unwrap();
    assert_eq!(update_node_online(&mut ctx, key(3), -1), Err(ErrorCode::InvalidOnlineValue));
    assert_eq!(ctx.entry.data.online, 2);
    assert_eq!(update_node_online(&mut ctx, key(3), 0), Ok(()));
    assert_eq!(ctx.entry.data.online, 0);
    assert_eq!(update_node_online(&mut ctx, key(3), 9), Ok(()));
    assert_eq!(ctx.entry.data.domain, "n.example");
    ctx.exit(&mut ledger);
    assert_eq!(ledger.node(&key(30)).unwrap().data.online, 9);

    assert_eq!(
        UpdateNodeOnline::try_accounts(
            &ledger,
            Some((key(30), 255)),
            &Caller::signer(key(4)),
            &key(10),
            &key(3)
        )
        .unwrap_err(),
        ErrorCode::ConstraintViolation
    );
    assert_eq!(
        UpdateNodeOnline::try_accounts(&ledger, None, &node, &key(10), &key(3)).unwrap_err(),
        ErrorCode::ConstraintViolation
    );
}

#[test]
fn update_active_hears_active_peers_only() {
    let mut ledger = store();
    // the node 3 is not active, and so is not heard on the node 4
    assert_eq!(
        UpdateNodeActive::try_accounts(
            &ledger,
            Some((key(40), 255)),
            Some((key(30), 255)),
            &Caller::signer(key(3)),
            &key(10),
            &key(4),
        )
        .unwrap_err(),
        ErrorCode::ConstraintViolation
    );
    // once it is active, it is
    ledger.store(
        key(30),
        Record::Node(NodeEntry {
            parent: key(10),
            registred: key(3),
            domain: String::from("n.example"),
            online: 2,
            active: true,
        }),
    );
    let mut ctx = UpdateNodeActive::try_accounts(
        &ledger,
        Some((key(40), 255)),
        Some((key(30), 255)),
        &Caller::signer(key(3)),
        &key(10),
        &key(4),
    )
    .unwrap();
    assert_eq!(update_node_active(&mut ctx, key(4), false), Ok(()));
    ctx.exit(&mut ledger);
    assert!(!ledger.node(&key(40)).unwrap().data.active);
    assert!(ledger.node(&key(30)).unwrap().data.active);
}

#[test]
fn update_active_writes_the_flag() {
    let mut ledger = store();
    let peer = Caller::signer(key(4));
    let mut ctx = UpdateNodeActive::try_accounts(
        &ledger,
        Some((key(30), 255)),
        Some((key(40), 255)),
        &peer,
        &key(10),
        &key(3),
    )
    .unwrap();
    assert_eq!(ctx.authority_node.data.registred, key(4));
    assert!(ctx.authority_node.data.active);
    assert_eq!(update_node_active(&mut ctx, key(3), true), Ok(()));
    assert!(ctx.entry.data.active);
    assert_eq!(ctx.entry.data.online, 2);
    ctx.exit(&mut ledger);
    assert!(ledger.node(&key(30)).unwrap().data.active);

    let refused = |derived, derived_peer, caller: &Caller, account: u8| {
        UpdateNodeActive::try_accounts(&ledger, derived, derived_peer, caller, &key(10), &key(account))
            .unwrap_err()
    };
    let entry = Some((key(30), 255));
    let own = Some((key(40), 255));
    assert_eq!(refused(entry, own, &Caller::signer(key(3)), 3), ErrorCode::ConstraintViolation);
    assert_eq!(refused(entry, None, &peer, 3), ErrorCode::ConstraintViolation);
    assert_eq!(refused(None, own, &peer, 3), ErrorCode::ConstraintViolation);
    assert_eq!(refused(entry, Some((key(41), 255)), &peer, 3), ErrorCode::AccountNotFound);
    assert_eq!(refused(entry, Some((key(20), 255)), &peer, 3), ErrorCode::AccountNotFound);
    assert_eq!(refused(entry, entry, &peer, 3), ErrorCode::ConstraintViolation);
    assert_eq!(refused(Some((key(20), 255)), own, &peer, 2), ErrorCode::AccountNotFound);
}

#[test]
fn delegation_goes_out_with_seeds_and_default_configuration() {
    let mut ledger = store();
    let authority = Caller::signer(key(1));
    let ctx = DelegateNodeAccount::try_accounts(
        &ledger,
        Some((key(30), 255)),
        &authority,
        &key(10),
        &key(3),
    )
    .unwrap();
    let request = delegate_node_account(&ctx, key(3)).unwrap();
    assert_eq!(request.payer, key(1));
    assert_eq!(request.seeds, [key(3), key(10)]);
    assert_eq!(request.config.commit_frequency_ms, u32::MAX);
    assert_eq!(request.config.validator, None);
    let outside = ephemeral_rollups_sdk::cpi::DelegateConfig::default();
    assert_eq!(request.config.commit_frequency_ms, outside.commit_frequency_ms);
    assert!(outside.validator.is_none());
    let config = DelegateConfig::default();
    assert_eq!(config.commit_frequency_ms, 4294967295);
    assert!(config.validator.is_none());
    ctx.exit(&mut ledger);
    assert!(ledger.is_delegated(&key(30)));
    assert_eq!(
        DelegateNodeAccount::try_accounts(
            &ledger,
            Some((key(30), 255)),
            &authority,
            &key(10),
            &key(3)
        )
        .unwrap_err(),
        ErrorCode::ConstraintViolation
    );
}

#[test]
fn undelegation_names_the_entry_and_the_payer() {
    let mut ledger = store();
    let node = Caller::signer(key(3));
    assert_eq!(
        UndelegateNodeAccount::try_accounts(&ledger, Some((key(30), 255)), &node, &key(10), &key(3))
            .unwrap_err(),
        ErrorCode::ConstraintViolation
    );
    ledger.set_delegated(&key(30), true);
    let ctx =
        UndelegateNodeAccount::try_accounts(&ledger, Some((key(30), 255)), &node, &key(10), &key(3))
            .unwrap();
    let request = undelegate_node_account(&ctx, key(3)).unwrap();
    assert_eq!(request.payer, key(3));
    assert_eq!(request.accounts, vec![key(30)]);
    ctx.exit(&mut ledger);
    assert!(!ledger.is_delegated(&key(30)));
    assert_eq!(ledger.node(&key(30)).unwrap().data.online, 2);
}
