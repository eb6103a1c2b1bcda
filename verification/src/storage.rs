//! The handle through which a vector reaches its tail.

use vstd::prelude::*;

verus! {

/// Where the tail of a vector lives.
///
/// Addresses are byte offsets inside the block that holds the vector's header, so
/// an embedded handle stays valid when the whole block is moved.
#[derive(Clone, Copy, Debug, PartialEq, Eq, Structural)]
pub enum Storage {
    /// The tail lies in the same block as the header, `offset` bytes from the
    /// block's start. The vector does not own it.
    Embedded { offset: usize },
    /// The tail is an allocation of its own, which the vector owns.
    Free,
}

impl Storage {
    /// The handle of a vector that has no tail yet.
    pub open spec fn spec_null() -> Storage {
        Storage::Embedded { offset: 0 }
    }

    #[verifier::when_used_as_spec(spec_null)]
    pub fn null() -> (handle: Storage)
        ensures
            handle == Storage::spec_null(),
    {
        Storage::Embedded { offset: 0 }
    }

    pub open spec fn spec_is_embedded(&self) -> bool {
        *self is Embedded
    }

    /// Whether the tail lies in the header's block.
    #[verifier::when_used_as_spec(spec_is_embedded)]
    pub fn is_embedded(&self) -> (embedded: bool)
        ensures
            embedded == self.spec_is_embedded(),
    {
        match self {
            Storage::Embedded { .. } => true,
            Storage::Free => false,
        }
    }
}

} // verus!
