//! The instructions of the program, one module each: the accounts that an
//! instruction works on, how they are found and checked, what the
//! instruction does to them, and how the outcome is stored.

pub mod account;
pub mod add_node;
pub mod add_to_registry;
pub mod check_registred;
pub mod delegate_node;
pub mod init_registry;
pub mod remove_from_registry;
pub mod undelegate_node;
pub mod update_node_active;
pub mod update_node_online;

pub use account::{
    Account, ClientEntry, ClientEntryView, ClientInfo, NodeEntry, NodeEntryView, NodeInfo,
    Registry, RegistryView, Signer,
};
pub use add_node::{add_node_to_registry, AddNodeToRegistry};
pub use add_to_registry::{add_client_to_registry, AddClientToRegistry};
pub use check_registred::{check_client, check_node, CheckClient, CheckNode, RegistryInfo};
pub use delegate_node::{delegate_node_account, DelegateConfig, DelegateNodeAccount, Delegation};
pub use init_registry::{init_registry, InitRegistry};
pub use remove_from_registry::{
    remove_client_from_registry, remove_node_from_registry, RemoveClientFromRegistry,
    RemoveNodeFromRegistry,
};
pub use undelegate_node::{undelegate_node_account, UndelegateNodeAccount, Undelegation};
pub use update_node_active::{update_node_active, UpdateNodeActive};
pub use update_node_online::{update_node_online, UpdateNodeOnline};
