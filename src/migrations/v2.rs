//! Step to schema version 2: four-byte names become eight-byte names.
use vstd::prelude::*;
use crate::migrations::LayoutStep;
use crate::pallet::{Pallet, Weight};
use crate::kitty::{push_all, Kitty};

verus! {

/// Schema version the step expects.
pub const FROM_VERSION: u16 = 1;

/// Schema version the step leaves.
pub const TO_VERSION: u16 = 2;

/// A record in the layout of schema version 2: a genetic code and an eight-byte name.
#[derive(Clone, Copy, Debug, PartialEq, Eq)]
pub struct KittyV1 {
    pub dna: [u8; 16],
    pub name: [u8; 8],
}

/// `b + 1`, wrapping to 0 past 255.
pub open spec fn next_byte(b: u8) -> u8 {
    if b == 255 {
        0
    } else {
        (b + 1) as u8
    }
}

/// The eight-byte name made from a four-byte one: each byte repeated twice over,
/// incremented.
pub open spec fn widened_name(name: Seq<u8>) -> Seq<u8> {
    Seq::new(8, |i: int| next_byte(name[i % 4]))
}

/// The value stored after this step.
pub open spec fn upgraded_record(bytes: Seq<u8>) -> Seq<u8> {
    if bytes.len() >= crate::kitty::KITTY_SIZE {
        bytes.subrange(0, 16) + widened_name(bytes.subrange(16, 20))
    } else {
        bytes
    }
}

impl KittyV1 {
    /// The stored bytes of this record: genetic code, then name.
    pub open spec fn encoded(self) -> Seq<u8> {
        self.dna@ + self.name@
    }

    /// Encodes this record.
    pub fn encode(&self) -> (r: Vec<u8>)
        ensures
            r@ == self.encoded(),
    {
        let mut out: Vec<u8> = Vec::new();
        push_all(&mut out, self.dna.as_slice());
        push_all(&mut out, self.name.as_slice());
        out
    }

    /// The record of this layout that a record of the four-byte layout becomes.
    pub fn from_kitty(k: &Kitty) -> (r: KittyV1)
        ensures
            r.dna == k.dna,
            r.name@ == widened_name(k.name@),
    {
        let mut name: [u8; 8] = [0u8; 8];
        let mut i: usize = 0;
        while i < 8
            invariant
                i <= 8,
                name@.len() == 8,
                forall|j: int| 0 <= j < i ==> name@[j] == next_byte(k.name@[j % 4]),
            decreases 8 - i,
        {
            name[i] = k.name[i % 4].wrapping_add(1);
            i = i + 1;
        }
        assert(name@ =~= widened_name(k.name@));
        KittyV1 { dna: k.dna, name }
    }
}

/// Decodes one value under the four-byte layout and encodes it under the eight-byte one.
pub fn upgrade_record(bytes: &[u8]) -> (r: Option<Vec<u8>>)
    ensures
        r is Some <==> bytes@.len() >= crate::kitty::KITTY_SIZE,
        r matches Some(v) ==> v@ == upgraded_record(bytes@),
{
    match Kitty::decode(bytes) {
        None => None,
        Some(kitty) => {
            let widened = KittyV1::from_kitty(&kitty);
            Some(widened.encode())
        },
    }
}


/// Runs this step if the stored data is at [`FROM_VERSION`] and the code works with
/// [`TO_VERSION`] or later: every record is decoded under the old layout and written
/// back under the new one, and the stored version becomes [`TO_VERSION`]. Otherwise
/// nothing changes and the cost is zero.
pub fn migrate(pallet: &mut Pallet) -> (w: Weight)
    requires
        old(pallet).wf(),
    ensures
        final(pallet).wf(),
        final(pallet)@ == old(pallet)@.after_step(LayoutStep::V2),
        final(pallet).event_log() == old(pallet).event_log(),
        w == (if old(pallet)@.step_due(LayoutStep::V2) {
            old(pallet)@.kitties.dom().len()
        } else {
            0
        }),
{
    let on_chain_version = pallet.on_chain_storage_version();
    let current_version = pallet.current_storage_version();
    if on_chain_version != FROM_VERSION {
        return 0;
    }
    if current_version < TO_VERSION {
        return 0;
    }
    pallet.upgrade_records(LayoutStep::V2)
}

} // verus!
