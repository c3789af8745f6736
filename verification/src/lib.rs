//! An authority-owned registry of rate-limited clients and domain-named nodes.
//!
//! A registration is not a row in a table but a record that lives at an
//! address derived from the registered account and its registry, so anybody
//! can recompute where the record of an account must be and look for it.

use vstd::prelude::*;

pub mod address;
pub mod instructions;
pub mod laws;
pub mod ledger;
pub mod pubkey;
pub mod registry;
pub mod state;

use crate::pubkey::Pubkey;

verus! {

/// The bytes of the key of this program, which reads
/// `E2FcHsC9STeB6FEtxBKGAwMTX7cbfYMyjSHKs4QbBAmh` in base 58.
pub const ID: [u8; 32] = [
    193, 122, 7, 88, 92, 119, 164, 226, 194, 84, 140, 120, 100, 108, 41, 99, 251, 5, 115, 167, 69,
    33, 185, 4, 92, 126, 230, 24, 60, 222, 25, 52,
];

/// The key of this program: the addresses of its records are derived under
/// it.
pub fn id() -> (program_id: Pubkey)
    ensures
        program_id.bytes == ID,
{
    Pubkey::new_from_array(ID)
}

/// Whether `program_id` is the key of this program.
pub fn check_id(program_id: &Pubkey) -> (same: bool)
    ensures
        same == (program_id.bytes == ID),
{
    proof {
        Pubkey::lemma_view_injective(*program_id, Pubkey { bytes: ID });
    }
    *program_id == id()
}

/// Why an operation was refused.
///
/// The first two are rules of this program; the other four are the failures
/// of the storage layer that holds the records.
#[derive(Clone, Copy, Debug, PartialEq, Eq, Structural)]
pub enum ErrorCode {
    /// The liveness value of a node was negative.
    InvalidOnlineValue,
    /// The domain of a node takes more than 253 bytes.
    DomainTooLong,
    /// A record is already stored at the address where one was to be created.
    AccountAlreadyExists,
    /// No record of the kind asked for is stored at the address.
    AccountNotFound,
    /// The caller, the registry and the record do not belong together, or the
    /// record is not in the state that the operation needs.
    ConstraintViolation,
    /// The calling account did not sign.
    SignatureMissing,
}

impl ErrorCode {
    /// The message that goes with the error.
    pub fn message(&self) -> (text: &'static str)
        ensures
            text@ == self.spec_message()@,
    {
        match self {
            ErrorCode::InvalidOnlineValue => "Online value must be non-negative",
            ErrorCode::DomainTooLong => "Domain name must be 253 characters or less",
            ErrorCode::AccountAlreadyExists => "An account already exists at the derived address",
            ErrorCode::AccountNotFound => "No account of the expected kind at the derived address",
            ErrorCode::ConstraintViolation => "An account constraint was violated",
            ErrorCode::SignatureMissing => "The calling account did not sign",
        }
    }

    /// The message of each error.
    pub open spec fn spec_message(&self) -> &'static str {
        match self {
            ErrorCode::InvalidOnlineValue => "Online value must be non-negative",
            ErrorCode::DomainTooLong => "Domain name must be 253 characters or less",
            ErrorCode::AccountAlreadyExists => "An account already exists at the derived address",
            ErrorCode::AccountNotFound => "No account of the expected kind at the derived address",
            ErrorCode::ConstraintViolation => "An account constraint was violated",
            ErrorCode::SignatureMissing => "The calling account did not sign",
        }
    }
}

} // verus!
