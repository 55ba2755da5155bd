//! The schema-migration engine: one step per change of the Entity Store's record layout.
use vstd::prelude::*;

pub mod v1;
pub mod v2;

verus! {

/// A change of the record layout, named after the schema version it leads to.
#[derive(Clone, Copy, Debug, PartialEq, Eq, Structural)]
pub enum LayoutStep {
    /// Genetic code only, to genetic code and four-byte name.
    V1,
    /// Four-byte name, to eight-byte name.
    V2,
}

impl LayoutStep {
    /// The schema version that the step expects to find.
    pub open spec fn from_version(self) -> u16 {
        match self {
            LayoutStep::V1 => v1::FROM_VERSION,
            LayoutStep::V2 => v2::FROM_VERSION,
        }
    }

    /// The schema version that the step leaves behind.
    pub open spec fn to_version(self) -> u16 {
        match self {
            LayoutStep::V1 => v1::TO_VERSION,
            LayoutStep::V2 => v2::TO_VERSION,
        }
    }

    /// Whether a stored value decodes under the layout the step reads.
    pub open spec fn decodes(self, bytes: Seq<u8>) -> bool {
        match self {
            LayoutStep::V1 => bytes.len() >= v1::OLD_KITTY_SIZE,
            LayoutStep::V2 => bytes.len() >= crate::kitty::KITTY_SIZE,
        }
    }

    /// The value stored after the step: the re-encoded record, or the value unchanged
    /// when it does not decode under the old layout.
    pub open spec fn upgraded(self, bytes: Seq<u8>) -> Seq<u8> {
        match self {
            LayoutStep::V1 => v1::upgraded_record(bytes),
            LayoutStep::V2 => v2::upgraded_record(bytes),
        }
    }

    /// The schema version that the step leaves behind.
    pub fn version_after(self) -> (r: u16)
        ensures
            r == self.to_version(),
    {
        match self {
            LayoutStep::V1 => v1::TO_VERSION,
            LayoutStep::V2 => v2::TO_VERSION,
        }
    }

    /// Re-encodes one stored value; `None` when it does not decode under the old layout.
    pub fn upgrade(self, bytes: &[u8]) -> (r: Option<Vec<u8>>)
        ensures
            r is Some <==> self.decodes(bytes@),
            r matches Some(v) ==> v@ == self.upgraded(bytes@),
            r is None ==> self.upgraded(bytes@) == bytes@,
    {
        match self {
            LayoutStep::V1 => v1::upgrade_record(bytes),
            LayoutStep::V2 => v2::upgrade_record(bytes),
        }
    }
}

} // verus!
