//! The records of the program and what they hold.

use vstd::prelude::*;
use crate::ErrorCode;
use crate::pubkey::{Caller, Pubkey};
use crate::state::signer_refusal;

verus! {

/// Bytes at the head of every stored record that tell its kind.
pub const DISCRIMINATOR_LEN: usize = 8;

/// Most bytes that the name of a registry may take.
pub const MAX_NAME_LEN: usize = 32;

/// Most bytes that the domain of a node may take.
pub const MAX_DOMAIN_LEN: usize = 253;

/// The base record of a registry: the addresses of all its entries are
/// derived from the address of this record.
#[derive(Debug, PartialEq, Eq)]
pub struct Registry {
    /// The account that created the registry and administers it.
    pub authority: Pubkey,
    /// The name of the registry.
    pub name: String,
}

/// What a `Registry` holds.
pub struct RegistryView {
    pub authority: Seq<u8>,
    pub name: Seq<char>,
}

impl View for Registry {
    type V = RegistryView;

    open spec fn view(&self) -> RegistryView {
        RegistryView { authority: self.authority@, name: self.name@ }
    }
}

impl Registry {
    /// Bytes set aside for a stored registry: what tells its kind, the key
    /// of the authority, and the name behind the four bytes of its length.
    pub const SIZE: usize = DISCRIMINATOR_LEN + 32 + 4 + MAX_NAME_LEN;
}

impl Default for Registry {
    /// A registry as its storage is before anything is written to it.
    fn default() -> (registry: Registry)
        ensures
            registry@ == (RegistryView { authority: Pubkey::zero(), name: Seq::empty() }),
    {
        Registry { authority: Pubkey::default(), name: String::new() }
    }
}

impl Clone for Registry {
    fn clone(&self) -> (copy: Registry)
        ensures
            copy@ == self@,
    {
        Registry { authority: self.authority, name: self.name.clone() }
    }
}

/// The record of a registered client. That an account is a client of a
/// registry means that this record exists at the address derived from the
/// account and the registry.
#[derive(Clone, Copy, Debug, PartialEq, Eq)]
pub struct ClientEntry {
    /// The registry that the entry belongs to.
    pub parent: Pubkey,
    /// The registered client account.
    pub registred: Pubkey,
    /// When the registration expires, in seconds since the epoch.
    pub until: i64,
    /// The request quota of the client.
    pub limit: u32,
}

/// What a `ClientEntry` holds.
pub struct ClientEntryView {
    pub parent: Seq<u8>,
    pub registred: Seq<u8>,
    pub until: i64,
    pub limit: u32,
}

impl View for ClientEntry {
    type V = ClientEntryView;

    open spec fn view(&self) -> ClientEntryView {
        ClientEntryView {
            parent: self.parent@,
            registred: self.registred@,
            until: self.until,
            limit: self.limit,
        }
    }
}

impl ClientEntry {
    /// Bytes set aside for a stored client entry: what tells its kind, two
    /// keys, the expiry and the quota.
    pub const SIZE: usize = DISCRIMINATOR_LEN + 32 + 32 + 8 + 4;
}

impl Default for ClientEntry {
    /// A client entry as its storage is before anything is written to it.
    fn default() -> (entry: ClientEntry)
        ensures
            entry@ == (ClientEntryView {
                parent: Pubkey::zero(),
                registred: Pubkey::zero(),
                until: 0,
                limit: 0,
            }),
    {
        ClientEntry { parent: Pubkey::default(), registred: Pubkey::default(), until: 0, limit: 0 }
    }
}

/// The record of a registered node.
#[derive(Debug, PartialEq, Eq)]
pub struct NodeEntry {
    /// The registry that the entry belongs to.
    pub parent: Pubkey,
    /// The registered node account.
    pub registred: Pubkey,
    /// The domain under which the node serves.
    pub domain: String,
    /// The liveness counter that the node reports of itself.
    pub online: i32,
    /// Whether the node's peers hold it fit to serve.
    pub active: bool,
}

/// What a `NodeEntry` holds.
pub struct NodeEntryView {
    pub parent: Seq<u8>,
    pub registred: Seq<u8>,
    pub domain: Seq<char>,
    pub online: i32,
    pub active: bool,
}

impl View for NodeEntry {
    type V = NodeEntryView;

    open spec fn view(&self) -> NodeEntryView {
        NodeEntryView {
            parent: self.parent@,
            registred: self.registred@,
            domain: self.domain@,
            online: self.online,
            active: self.active,
        }
    }
}

impl NodeEntry {
    /// Bytes set aside for a stored node entry: what tells its kind, two
    /// keys, the domain behind the four bytes of its length, the liveness
    /// counter and the active flag.
    pub const SIZE: usize = DISCRIMINATOR_LEN + 32 + 32 + 4 + MAX_DOMAIN_LEN + 4 + 1;
}

impl Default for NodeEntry {
    /// A node entry as its storage is before anything is written to it: it
    /// has never been online and is not active.
    fn default() -> (entry: NodeEntry)
        ensures
            entry@ == (NodeEntryView {
                parent: Pubkey::zero(),
                registred: Pubkey::zero(),
                domain: Seq::empty(),
                online: 0,
                active: false,
            }),
    {
        NodeEntry {
            parent: Pubkey::default(),
            registred: Pubkey::default(),
            domain: String::new(),
            online: 0,
            active: false,
        }
    }
}

impl Clone for NodeEntry {
    fn clone(&self) -> (copy: NodeEntry)
        ensures
            copy@ == self@,
    {
        NodeEntry {
            parent: self.parent,
            registred: self.registred,
            domain: self.domain.clone(),
            online: self.online,
            active: self.active,
        }
    }
}

/// What a check tells of a client.
#[derive(Clone, Copy, Debug, PartialEq, Eq)]
pub struct ClientInfo {
    pub until: i64,
    pub limit: u32,
}

/// What a check tells of a node.
#[derive(Debug, PartialEq, Eq)]
pub struct NodeInfo {
    pub domain: String,
    pub active: bool,
}

impl Clone for NodeInfo {
    fn clone(&self) -> (copy: NodeInfo)
        ensures
            copy.domain@ == self.domain@,
            copy.active == self.active,
    {
        NodeInfo { domain: self.domain.clone(), active: self.active }
    }
}

/// A record together with the address it is stored at.
#[derive(Debug)]
pub struct Account<T> {
    pub key: Pubkey,
    pub data: T,
}

/// An account of which it has been checked that it signed.
#[derive(Clone, Copy, Debug)]
pub struct Signer {
    pub key: Pubkey,
}

impl Signer {
    /// Takes a caller for a signer if it signed.
    pub fn try_accounts(caller: &Caller) -> (checked: Result<Signer, ErrorCode>)
        ensures
            match checked {
                Ok(signer) => signer.key == caller.key && signer_refusal(*caller) is None,
                Err(e) => signer_refusal(*caller) == Some(e),
            },
    {
        if caller.signed {
            Ok(Signer { key: caller.key })
        } else {
            Err(ErrorCode::SignatureMissing)
        }
    }
}

} // verus!
