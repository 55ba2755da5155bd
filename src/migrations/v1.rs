//! Step to schema version 1: records that held a genetic code only get a name.
use vstd::prelude::*;
use crate::migrations::LayoutStep;
use crate::pallet::{Pallet, Weight};
use crate::kitty::{read_array, Kitty};

verus! {

/// Schema version the step expects.
pub const FROM_VERSION: u16 = 0;

/// Schema version the step leaves.
pub const TO_VERSION: u16 = 1;

/// Number of bytes of an encoded [`OldKitty`].
pub const OLD_KITTY_SIZE: usize = 16;

/// A record in the layout of schema version 0: a genetic code alone.
#[derive(Clone, Copy, Debug, PartialEq, Eq)]
pub struct OldKitty(pub [u8; 16]);

impl OldKitty {
    /// Decodes a record of the old layout; `None` when `bytes` is too short.
    pub fn decode(bytes: &[u8]) -> (r: Option<OldKitty>)
        ensures
            r is Some <==> bytes@.len() >= OLD_KITTY_SIZE,
            r matches Some(k) ==> k.0@ == bytes@.subrange(0, 16),
    {
        if bytes.len() < OLD_KITTY_SIZE {
            None
        } else {
            Some(OldKitty(read_array(bytes, 0)))
        }
    }
}

/// The name given to records that had none: the bytes of "abcd".
pub open spec fn default_name() -> Seq<u8> {
    seq![97u8, 98u8, 99u8, 100u8]
}

/// The value stored after this step.
pub open spec fn upgraded_record(bytes: Seq<u8>) -> Seq<u8> {
    if bytes.len() >= OLD_KITTY_SIZE {
        bytes.subrange(0, 16) + default_name()
    } else {
        bytes
    }
}

/// Decodes one value under the old layout and encodes it under the new one.
pub fn upgrade_record(bytes: &[u8]) -> (r: Option<Vec<u8>>)
    ensures
        r is Some <==> bytes@.len() >= OLD_KITTY_SIZE,
        r matches Some(v) ==> v@ == upgraded_record(bytes@),
{
    match OldKitty::decode(bytes) {
        None => None,
        Some(old_kitty) => {
            let new_kitty = Kitty { dna: old_kitty.0, name: [97u8, 98u8, 99u8, 100u8] };
            let out = new_kitty.encode();
            assert(new_kitty.name@ =~= default_name());
            Some(out)
        },
    }
}


/// Runs this step if the stored data is at [`FROM_VERSION`] and the code works with
/// [`TO_VERSION`] or later: every record is decoded under the old layout and written
/// back under the new one, and the stored version becomes [`TO_VERSION`]. Otherwise
/// nothing changes and the cost is zero.
pub fn migrate(pallet: &mut Pallet) -> (w: Weight)
    requires
        old(pallet).wf(),
    ensures
        final(pallet).wf(),
        final(pallet)@ == old(pallet)@.after_step(LayoutStep::V1),
        final(pallet).event_log() == old(pallet).event_log(),
        w == (if old(pallet)@.step_due(LayoutStep::V1) {
            old(pallet)@.kitties.dom().len()
        } else {
            0
        }),
{
    let on_chain_version = pallet.on_chain_storage_version();
    let current_version = pallet.current_storage_version();
    if on_chain_version != FROM_VERSION {
        return 0;
    }
    if current_version < TO_VERSION {
        return 0;
    }
    pallet.upgrade_records(LayoutStep::V1)
}

} // verus!
