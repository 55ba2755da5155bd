//! Calls into the host's hashing and account-derivation primitives.
use vstd::prelude::*;
use sp_runtime::traits::AccountIdConversion;
use crate::kitty::AccountId;

verus! {

/// The 128-bit BLAKE2b digest of a byte string.
pub uninterp spec fn blake2_128_of(data: Seq<u8>) -> Seq<u8>;

/// The number whose little-endian bytes are `bytes`.
pub open spec fn le_value(bytes: Seq<u8>) -> nat
    decreases bytes.len(),
{
    if bytes.len() == 0 {
        0
    } else {
        bytes[0] as nat + 256 * le_value(bytes.drop_first())
    }
}

/// The account derived from a pallet identifier: the type tag "modl" followed by the
/// identifier, cut to the eight bytes of an account and read little-endian. Only the
/// first four bytes of the identifier count.
pub open spec fn pallet_account_of(id: Seq<u8>) -> AccountId {
    le_value(seq![109u8, 111u8, 100u8, 108u8] + id.subrange(0, 4)) as AccountId
}

/// Relies on `sp_io::hashing::blake2_128`: the 16-byte BLAKE2b digest of `data`, which
/// depends on the bytes alone.
#[verifier::external_body]
pub(crate) fn blake2_128(data: &Vec<u8>) -> (r: [u8; 16])
    ensures
        r@ == blake2_128_of(data@),
{
    sp_io::hashing::blake2_128(data.as_slice())
}

/// Relies on `frame_support::PalletId` with sp_runtime's
/// `AccountIdConversion::into_account_truncating`: it encodes the tag "modl", the
/// identifier and nothing more, and decodes an account from the first eight bytes.
#[verifier::external_body]
pub(crate) fn pallet_account(id: [u8; 8]) -> (r: AccountId)
    ensures
        r == pallet_account_of(id@),
{
    frame_support::PalletId(id).into_account_truncating()
}

} // verus!
