//! The store of records: at most one record at an address.

use vstd::prelude::*;
use crate::ErrorCode;
use crate::instructions::account::{Account, ClientEntry, NodeEntry, Registry};
use crate::pubkey::Pubkey;
use crate::state::{RecordView, State};

verus! {

/// A stored record, by its kind.
#[derive(Debug)]
pub enum Record {
    Registry(Registry),
    Client(ClientEntry),
    Node(NodeEntry),
}

impl View for Record {
    type V = RecordView;

    open spec fn view(&self) -> RecordView {
        match self {
            Record::Registry(registry) => RecordView::Registry(registry@),
            Record::Client(entry) => RecordView::Client(entry@),
            Record::Node(entry) => RecordView::Node(entry@),
        }
    }
}

impl Clone for Record {
    fn clone(&self) -> (copy: Record)
        ensures
            copy@ == self@,
    {
        match self {
            Record::Registry(registry) => Record::Registry(registry.clone()),
            Record::Client(entry) => Record::Client(*entry),
            Record::Node(entry) => Record::Node(entry.clone()),
        }
    }
}

/// One record in the store.
struct Slot {
    address: Pubkey,
    record: Record,
    delegated: bool,
}

/// The records of one program.
pub struct Ledger {
    program_id: Pubkey,
    slots: Vec<Slot>,
}

/// Whether a slot of `slots` has the address `address`.
spec fn occupied(slots: Seq<Slot>, address: Seq<u8>) -> bool {
    exists|i: int| 0 <= i < slots.len() && (#[trigger] slots[i]).address@ == address
}

/// The place of the slot with the address `address`.
spec fn index_of(slots: Seq<Slot>, address: Seq<u8>) -> int {
    choose|i: int| 0 <= i < slots.len() && (#[trigger] slots[i]).address@ == address
}

/// No two slots have the same address.
spec fn distinct(slots: Seq<Slot>) -> bool {
    forall|i: int, j: int|
        0 <= i < j < slots.len() ==> (#[trigger] slots[i]).address@ != (#[trigger] slots[j]).address@
}

/// The records of `slots`, by their addresses.
spec fn accounts_of(slots: Seq<Slot>) -> Map<Seq<u8>, RecordView> {
    Map::new(
        |address: Seq<u8>| occupied(slots, address),
        |address: Seq<u8>| slots[index_of(slots, address)].record@,
    )
}

/// The addresses of the slots of `slots` that are handed out.
spec fn delegated_of(slots: Seq<Slot>) -> Set<Seq<u8>> {
    Set::new(|address: Seq<u8>| occupied(slots, address) && slots[index_of(slots, address)].delegated)
}

/// Among distinct slots, an address is found at the place where it stands.
proof fn lemma_index_of(slots: Seq<Slot>, i: int)
    requires
        distinct(slots),
        0 <= i < slots.len(),
    ensures
        occupied(slots, slots[i].address@),
        index_of(slots, slots[i].address@) == i,
{
    let address = slots[i].address@;
    let j = index_of(slots, address);
    assert(0 <= j < slots.len() && slots[j].address@ == address);
}

impl Ledger {
    /// No address occurs twice in the store.
    pub closed spec fn wf(&self) -> bool {
        distinct(self.slots@)
    }

    /// What is stored.
    pub closed spec fn view(&self) -> State {
        State {
            program_id: self.program_id@,
            accounts: accounts_of(self.slots@),
            delegated: delegated_of(self.slots@),
        }
    }

    /// The empty store of the program `program_id`.
    pub fn new(program_id: Pubkey) -> (ledger: Ledger)
        ensures
            ledger.wf(),
            ledger@ == State::empty(program_id@),
    {
        let ledger = Ledger { program_id, slots: Vec::new() };
        assert(ledger@.accounts =~= Map::empty());
        assert(ledger@.delegated =~= Set::empty());
        ledger
    }

    /// The key of the program that the records belong to.
    pub fn program_id(&self) -> (program_id: &Pubkey)
        ensures
            program_id@ == self@.program_id,
    {
        &self.program_id
    }

    /// Number of records in the store.
    pub fn len(&self) -> (n: usize)
        requires
            self.wf(),
        ensures
            n == self@.accounts.dom().len(),
            self@.accounts.dom().finite(),
    {
        proof {
            lemma_dom_len(self.slots@);
        }
        self.slots.len()
    }

    /// The place of the slot with the address `address`.
    fn find(&self, address: &Pubkey) -> (place: Option<usize>)
        ensures
            match place {
                Some(i) => i < self.slots@.len() && self.slots@[i as int].address@ == address@,
                None => !occupied(self.slots@, address@),
            },
    {
        let mut i: usize = 0;
        while i < self.slots.len()
            invariant
                i <= self.slots@.len(),
                forall|j: int| 0 <= j < i ==> (#[trigger] self.slots@[j]).address@ != address@,
            decreases self.slots@.len() - i,
        {
            if self.slots[i].address == *address {
                return Some(i);
            }
            i = i + 1;
        }
        None
    }

    /// The record stored at `address`, if there is one.
    pub fn get(&self, address: &Pubkey) -> (record: Option<&Record>)
        requires
            self.wf(),
        ensures
            match record {
                Some(found) => self@.accounts.contains_key(address@) && found@
                    == self@.accounts[address@],
                None => !self@.accounts.contains_key(address@),
            },
    {
        match self.find(address) {
            Some(i) => {
                proof {
                    lemma_index_of(self.slots@, i as int);
                }
                Some(&self.slots[i].record)
            },
            None => None,
        }
    }

    /// Whether a record is stored at `address`.
    pub fn contains(&self, address: &Pubkey) -> (found: bool)
        requires
            self.wf(),
        ensures
            found == self@.accounts.contains_key(address@),
    {
        self.find(address).is_some()
    }

    /// Whether the record at `address` is handed out to the outside
    /// execution context.
    pub fn is_delegated(&self, address: &Pubkey) -> (delegated: bool)
        requires
            self.wf(),
        ensures
            delegated == self@.delegated.contains(address@),
    {
        match self.find(address) {
            Some(i) => {
                proof {
                    lemma_index_of(self.slots@, i as int);
                }
                self.slots[i].delegated
            },
            None => false,
        }
    }

    /// The registry stored at `key`.
    pub fn registry(&self, key: &Pubkey) -> (loaded: Result<Account<Registry>, ErrorCode>)
        requires
            self.wf(),
        ensures
            match loaded {
                Ok(account) => account.key@ == key@ && self@.registry_at(key@) == Some(
                    account.data@,
                ),
                Err(e) => e == ErrorCode::AccountNotFound && self@.registry_at(key@) is None,
            },
    {
        match self.get(key) {
            Some(Record::Registry(registry)) => Ok(Account { key: *key, data: registry.clone() }),
            _ => Err(ErrorCode::AccountNotFound),
        }
    }

    /// The client entry stored at `key`.
    pub fn client(&self, key: &Pubkey) -> (loaded: Result<Account<ClientEntry>, ErrorCode>)
        requires
            self.wf(),
        ensures
            match loaded {
                Ok(account) => account.key@ == key@ && self@.client_at(key@) == Some(
                    account.data@,
                ),
                Err(e) => e == ErrorCode::AccountNotFound && self@.client_at(key@) is None,
            },
    {
        match self.get(key) {
            Some(Record::Client(entry)) => Ok(Account { key: *key, data: *entry }),
            _ => Err(ErrorCode::AccountNotFound),
        }
    }

    /// The node entry stored at `key`.
    pub fn node(&self, key: &Pubkey) -> (loaded: Result<Account<NodeEntry>, ErrorCode>)
        requires
            self.wf(),
        ensures
            match loaded {
                Ok(account) => account.key@ == key@ && self@.node_at(key@) == Some(account.data@),
                Err(e) => e == ErrorCode::AccountNotFound && self@.node_at(key@) is None,
            },
    {
        match self.get(key) {
            Some(Record::Node(entry)) => Ok(Account { key: *key, data: entry.clone() }),
            _ => Err(ErrorCode::AccountNotFound),
        }
    }

    /// Stores `record` at `address`, in place of what was stored there. A
    /// record that was handed out stays handed out.
    pub fn store(&mut self, address: Pubkey, record: Record)
        requires
            old(self).wf(),
        ensures
            final(self).wf(),
            final(self)@ == old(self)@.store(address@, record@),
    {
        match self.find(&address) {
            Some(i) => {
                let delegated = self.slots[i].delegated;
                self.slots.set(i, Slot { address, record, delegated });
                proof {
                    lemma_replace(old(self).slots@, i as int, self.slots@[i as int]);
                }
            },
            None => {
                self.slots.push(Slot { address, record, delegated: false });
                proof {
                    lemma_push(old(self).slots@, self.slots@[self.slots@.len() - 1]);
                }
            },
        }
        assert(self@.accounts =~= old(self)@.accounts.insert(address@, record@));
        assert(self@.delegated =~= old(self)@.delegated);
    }

    /// Removes the record at `address`, if there is one.
    pub fn close(&mut self, address: &Pubkey)
        requires
            old(self).wf(),
        ensures
            final(self).wf(),
            final(self)@ == old(self)@.close(address@),
    {
        match self.find(address) {
            Some(i) => {
                self.slots.remove(i);
                proof {
                    lemma_remove(old(self).slots@, i as int);
                }
            },
            None => {},
        }
        assert(self@.accounts =~= old(self)@.accounts.remove(address@));
        assert(self@.delegated =~= old(self)@.delegated.remove(address@));
    }

    /// Marks the record at `address` as handed out to the outside execution
    /// context, or as taken back. Without a record there, nothing changes.
    pub fn set_delegated(&mut self, address: &Pubkey, delegated: bool)
        requires
            old(self).wf(),
        ensures
            final(self).wf(),
            final(self)@ == old(self)@.set_delegated(address@, delegated),
    {
        match self.find(address) {
            Some(i) => {
                let record = self.slots[i].record.clone();
                self.slots.set(i, Slot { address: *address, record, delegated });
                proof {
                    lemma_replace(old(self).slots@, i as int, self.slots@[i as int]);
                }
                assert(self@.accounts =~= old(self)@.accounts);
                if delegated {
                    assert(self@.delegated =~= old(self)@.delegated.insert(address@));
                } else {
                    assert(self@.delegated =~= old(self)@.delegated.remove(address@));
                }
            },
            None => {},
        }
    }
}

/// Replacing a slot by one with the same address changes what is found at
/// that address, and nothing else.
proof fn lemma_replace(slots: Seq<Slot>, i: int, slot: Slot)
    requires
        distinct(slots),
        0 <= i < slots.len(),
        slot.address@ == slots[i].address@,
    ensures
        distinct(slots.update(i, slot)),
        forall|a: Seq<u8>| occupied(slots.update(i, slot), a) == occupied(slots, a),
        forall|a: Seq<u8>|
            occupied(slots, a) ==> #[trigger] index_of(slots.update(i, slot), a) == index_of(
                slots,
                a,
            ),
{
    let after = slots.update(i, slot);
    assert forall|a: Seq<u8>| occupied(after, a) == occupied(slots, a) by {
        if occupied(after, a) {
            let j = index_of(after, a);
            assert(slots[j].address@ == a);
        }
        if occupied(slots, a) {
            let j = index_of(slots, a);
            assert(after[j].address@ == a);
        }
    }
    assert forall|a: Seq<u8>| occupied(slots, a) implies #[trigger] index_of(after, a)
        == index_of(slots, a) by {
        let j = index_of(slots, a);
        assert(after[j].address@ == a);
        lemma_index_of(after, j);
    }
}

/// A slot with a new address, put at the end, is found there, and nothing
/// else changes.
proof fn lemma_push(slots: Seq<Slot>, slot: Slot)
    requires
        distinct(slots),
        !occupied(slots, slot.address@),
    ensures
        distinct(slots.push(slot)),
        forall|a: Seq<u8>|
            occupied(slots.push(slot), a) == (occupied(slots, a) || a == slot.address@),
        forall|a: Seq<u8>|
            occupied(slots, a) ==> #[trigger] index_of(slots.push(slot), a) == index_of(slots, a),
        index_of(slots.push(slot), slot.address@) == slots.len(),
{
    let after = slots.push(slot);
    assert(distinct(after)) by {
        assert forall|i: int, j: int| 0 <= i < j < after.len() implies (#[trigger] after[i]).address@
            != (#[trigger] after[j]).address@ by {
            assert(after[i] == slots[i]);
            if j < slots.len() {
                assert(after[j] == slots[j]);
            }
        }
    }
    assert forall|a: Seq<u8>| occupied(after, a) == (occupied(slots, a) || a
        == slot.address@) by {
        if occupied(after, a) {
            let j = index_of(after, a);
            if j < slots.len() {
                assert(slots[j].address@ == a);
            }
        }
        if occupied(slots, a) {
            let j = index_of(slots, a);
            assert(after[j].address@ == a);
        }
        if a == slot.address@ {
            assert(after[slots.len() as int].address@ == a);
        }
    }
    assert forall|a: Seq<u8>| occupied(slots, a) implies #[trigger] index_of(after, a)
        == index_of(slots, a) by {
        let j = index_of(slots, a);
        assert(after[j].address@ == a);
        lemma_index_of(after, j);
    }
    assert(after[slots.len() as int] == slot);
    lemma_index_of(after, slots.len() as int);
}

/// Taking a slot out leaves the others where they are found.
proof fn lemma_remove(slots: Seq<Slot>, i: int)
    requires
        distinct(slots),
        0 <= i < slots.len(),
    ensures
        distinct(slots.remove(i)),
        forall|a: Seq<u8>|
            occupied(slots.remove(i), a) == (occupied(slots, a) && a != slots[i].address@),
        forall|a: Seq<u8>|
            occupied(slots.remove(i), a) ==> (#[trigger] slots.remove(i)[index_of(
                slots.remove(i),
                a,
            )]) == slots[index_of(slots, a)],
{
    let after = slots.remove(i);
    assert forall|j: int| 0 <= j < after.len() implies #[trigger] after[j] == slots[if j < i {
        j
    } else {
        j + 1
    }] by {}
    assert(distinct(after)) by {
        assert forall|j: int, k: int| 0 <= j < k < after.len() implies (#[trigger] after[j]).address@
            != (#[trigger] after[k]).address@ by {
            let j0 = if j < i { j } else { j + 1 };
            let k0 = if k < i { k } else { k + 1 };
            assert(after[j] == slots[j0] && after[k] == slots[k0]);
        }
    }
    assert forall|a: Seq<u8>| occupied(after, a) == (occupied(slots, a) && a
        != slots[i].address@) by {
        if occupied(after, a) {
            let j = index_of(after, a);
            let j0 = if j < i { j } else { j + 1 };
            assert(after[j] == slots[j0]);
            assert(slots[j0].address@ == a);
        }
        if occupied(slots, a) && a != slots[i].address@ {
            let j0 = index_of(slots, a);
            let j = if j0 < i { j0 } else { j0 - 1 };
            assert(after[j] == slots[j0]);
        }
    }
    assert forall|a: Seq<u8>| occupied(after, a) implies (#[trigger] after[index_of(after, a)])
        == slots[index_of(slots, a)] by {
        let j = index_of(after, a);
        let j0 = if j < i { j } else { j + 1 };
        assert(after[j] == slots[j0]);
        lemma_index_of(slots, j0);
    }
}

/// Distinct slots hold as many records as there are slots.
proof fn lemma_dom_len(slots: Seq<Slot>)
    requires
        distinct(slots),
    ensures
        accounts_of(slots).dom().finite(),
        accounts_of(slots).dom().len() == slots.len(),
    decreases slots.len(),
{
    if slots.len() == 0 {
        assert(accounts_of(slots).dom() =~= Set::empty());
    } else {
        let front = slots.drop_last();
        let last = slots.last();
        assert(distinct(front)) by {
            assert forall|i: int, j: int| 0 <= i < j < front.len() implies (#[trigger] front[i]).address@
                != (#[trigger] front[j]).address@ by {
                assert(front[i] == slots[i] && front[j] == slots[j]);
            }
        }
        lemma_dom_len(front);
        assert(!occupied(front, last.address@)) by {
            if occupied(front, last.address@) {
                let i = index_of(front, last.address@);
                assert(front[i] == slots[i]);
                assert(slots[slots.len() - 1] == last);
            }
        }
        assert(accounts_of(slots).dom() =~= accounts_of(front).dom().insert(last.address@)) by {
            assert forall|a: Seq<u8>| occupied(slots, a) <==> (occupied(front, a) || a
                == last.address@) by {
                if occupied(slots, a) {
                    let i = index_of(slots, a);
                    if i < front.len() {
                        assert(front[i] == slots[i]);
                    }
                }
                if occupied(front, a) {
                    let i = index_of(front, a);
                    assert(front[i] == slots[i]);
                }
                if a == last.address@ {
                    assert(slots[slots.len() - 1].address@ == a);
                }
            }
        }
    }
}

} // verus!
