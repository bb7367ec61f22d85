//! Participant identities.
//!
//! A participant is known by an `anchor_lang` public key. The rules never look
//! inside a key: they store it, hand it back, and compare two of them.

use vstd::prelude::*;
use anchor_lang::prelude::Pubkey;

verus! {

/// `anchor_lang::prelude::Pubkey`, which is `solana_address::Address` under
/// another name: a struct of 32 bytes. It is taken as an opaque value, so
/// contracts speak of whole keys and of whether two are equal, never of bytes.
#[verifier::external_type_specification]
#[verifier::external_body]
pub struct ExPubkey(Pubkey);

/// Calls `Pubkey::default`, which the key type derives: the key of 32 zero
/// bytes. It fills the participant slots of a game that nobody has started.
/// Nothing is claimed of the key it returns.
#[verifier::external_body]
pub(crate) fn unassigned_identity() -> (key: Pubkey) {
    Pubkey::default()
}

/// Calls `Pubkey`'s `==`, which the key type derives over its 32 bytes. The
/// contract claims, without proof, that it answers `true` exactly when the
/// two keys are the same value.
#[verifier::external_body]
pub(crate) fn same_identity(a: &Pubkey, b: &Pubkey) -> (same: bool)
    ensures
        same == (*a == *b),
{
    a == b
}

} // verus!
