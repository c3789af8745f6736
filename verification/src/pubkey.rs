//! Account identities: 32-byte keys, and a key together with the fact of
//! whether its holder signed.

use vstd::prelude::*;
use vstd::std_specs::cmp::PartialEqSpecImpl;

verus! {

/// Number of bytes in a key.
pub const PUBKEY_BYTES: usize = 32;

/// The identity of an account, or the address of a record: 32 bytes.
#[derive(Clone, Copy, Debug, Eq, Hash)]
pub struct Pubkey {
    pub bytes: [u8; 32],
}

impl View for Pubkey {
    type V = Seq<u8>;

    open spec fn view(&self) -> Seq<u8> {
        self.bytes@
    }
}

impl Pubkey {
    /// The key with the given bytes.
    pub fn new_from_array(bytes: [u8; 32]) -> (key: Pubkey)
        ensures
            key.bytes == bytes,
            key@ == bytes@,
    {
        Pubkey { bytes }
    }

    /// The bytes of the key.
    pub fn to_bytes(&self) -> (bytes: [u8; 32])
        ensures
            bytes == self.bytes,
            bytes@ == self@,
    {
        self.bytes
    }

    /// The bytes of the key that a record holds before a key is written
    /// to it.
    pub open spec fn zero() -> Seq<u8> {
        Seq::new(32, |i: int| 0u8)
    }

    /// Two keys with the same bytes are the same key.
    pub proof fn lemma_view_injective(a: Pubkey, b: Pubkey)
        ensures
            a@ == b@ <==> a == b,
    {
        if a@ == b@ {
            assert(a.bytes =~= b.bytes);
        }
    }
}

impl Default for Pubkey {
    /// The key of 32 zero bytes.
    fn default() -> (key: Pubkey)
        ensures
            key@ == Pubkey::zero(),
    {
        let key = Pubkey { bytes: [0u8; 32] };
        assert(key@ =~= Pubkey::zero());
        key
    }
}

impl PartialEq for Pubkey {
    /// Compares byte by byte.
    fn eq(&self, other: &Pubkey) -> (same: bool)
    {
        let mut i: usize = 0;
        while i < 32
            invariant
                i <= 32,
                forall|j: int| 0 <= j < i ==> self.bytes@[j] == other.bytes@[j],
            decreases 32 - i,
        {
            if self.bytes[i] != other.bytes[i] {
                return false;
            }
            i = i + 1;
        }
        assert(self.bytes@ =~= other.bytes@);
        true
    }
}

impl PartialEqSpecImpl for Pubkey {
    open spec fn obeys_eq_spec() -> bool {
        true
    }

    open spec fn eq_spec(&self, other: &Pubkey) -> bool {
        self@ == other@
    }
}

/// An account as a transaction presents it: its key, and whether the
/// transaction carries its signature.
#[derive(Clone, Copy, Debug)]
pub struct Caller {
    pub key: Pubkey,
    pub signed: bool,
}

impl Caller {
    /// A caller that signed.
    pub fn signer(key: Pubkey) -> (caller: Caller)
        ensures
            caller.key == key,
            caller.signed,
    {
        Caller { key, signed: true }
    }

    /// A caller that is named without its signature.
    pub fn unsigned(key: Pubkey) -> (caller: Caller)
        ensures
            caller.key == key,
            !caller.signed,
    {
        Caller { key, signed: false }
    }
}

} // verus!
