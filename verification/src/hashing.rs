use vstd::prelude::*;
use crate::ids::{AccountId, Hash32};
use ink::env::hash::{HashOutput, Sha2x256};

verus! {

/// The SHA2-256 hash of the SCALE encoding of the tuple
/// `(from, to, message, timestamp)`, where both accounts are 32-byte ids.
pub uninterp spec fn account_message_hash(from: AccountId, to: AccountId, message: Seq<u8>, timestamp: u64) -> Hash32;

/// The SHA2-256 hash of the SCALE encoding of the tuple
/// `(from, target, message, timestamp)`, where `target` is a 32-byte hash.
pub uninterp spec fn target_message_hash(from: AccountId, target: Hash32, message: Seq<u8>, timestamp: u64) -> Hash32;

/// The SHA2-256 hash of the SCALE encoding of the tuple `(from, message, timestamp)`.
pub uninterp spec fn sender_message_hash(from: AccountId, message: Seq<u8>, timestamp: u64) -> Hash32;

/// The SHA2-256 hash of the SCALE encoding of a byte vector.
pub uninterp spec fn name_hash(name: Seq<u8>) -> Hash32;

/// Calls `ink::env::hash_encoded::<Sha2x256, _>` on
/// `(AccountId, AccountId, &Vec<u8>, u64)`. The contract claims only that the
/// result is a function of the arguments (named `account_message_hash`).
/// In a build without `std`, ink encodes the input into a 16 KiB buffer and
/// traps when it does not fit; the `requires` keeps the bytes well inside it.
#[verifier::external_body]
pub(crate) fn hash_account_message(from: &AccountId, to: &AccountId, message: &Vec<u8>, timestamp: u64) -> (id: Hash32)
    requires
        message@.len() <= 16000,
    ensures
        id == account_message_hash(*from, *to, message@, timestamp),
{
    let encodable = (
        ink::primitives::AccountId::from(from.bytes),
        ink::primitives::AccountId::from(to.bytes),
        message,
        timestamp,
    );
    let mut output = <Sha2x256 as HashOutput>::Type::default();
    ink::env::hash_encoded::<Sha2x256, _>(&encodable, &mut output);
    Hash32 { bytes: output }
}

/// Calls `ink::env::hash_encoded::<Sha2x256, _>` on
/// `(AccountId, Hash, &Vec<u8>, u64)`. The contract claims only that the
/// result is a function of the arguments (named `target_message_hash`).
/// In a build without `std`, ink encodes the input into a 16 KiB buffer and
/// traps when it does not fit; the `requires` keeps the bytes well inside it.
#[verifier::external_body]
pub(crate) fn hash_target_message(from: &AccountId, target: &Hash32, message: &Vec<u8>, timestamp: u64) -> (id: Hash32)
    requires
        message@.len() <= 16000,
    ensures
        id == target_message_hash(*from, *target, message@, timestamp),
{
    let encodable = (
        ink::primitives::AccountId::from(from.bytes),
        ink::primitives::Hash::from(target.bytes),
        message,
        timestamp,
    );
    let mut output = <Sha2x256 as HashOutput>::Type::default();
    ink::env::hash_encoded::<Sha2x256, _>(&encodable, &mut output);
    Hash32 { bytes: output }
}

/// Calls `ink::env::hash_encoded::<Sha2x256, _>` on `(AccountId, &Vec<u8>, u64)`.
/// The contract claims only that the result is a function of the arguments
/// (named `sender_message_hash`).
/// In a build without `std`, ink encodes the input into a 16 KiB buffer and
/// traps when it does not fit; the `requires` keeps the bytes well inside it.
#[verifier::external_body]
pub(crate) fn hash_sender_message(from: &AccountId, message: &Vec<u8>, timestamp: u64) -> (id: Hash32)
    requires
        message@.len() <= 16000,
    ensures
        id == sender_message_hash(*from, message@, timestamp),
{
    let encodable = (ink::primitives::AccountId::from(from.bytes), message, timestamp);
    let mut output = <Sha2x256 as HashOutput>::Type::default();
    ink::env::hash_encoded::<Sha2x256, _>(&encodable, &mut output);
    Hash32 { bytes: output }
}

/// Calls `ink::env::hash_encoded::<Sha2x256, _>` on a `&Vec<u8>`. The contract
/// claims only that the result is a function of the bytes (named `name_hash`).
/// In a build without `std`, ink encodes the input into a 16 KiB buffer and
/// traps when it does not fit; the `requires` keeps the bytes well inside it.
#[verifier::external_body]
pub(crate) fn hash_name(name: &Vec<u8>) -> (id: Hash32)
    requires
        name@.len() <= 16000,
    ensures
        id == name_hash(name@),
{
    let mut output = <Sha2x256 as HashOutput>::Type::default();
    ink::env::hash_encoded::<Sha2x256, _>(name, &mut output);
    Hash32 { bytes: output }
}

} // verus!
