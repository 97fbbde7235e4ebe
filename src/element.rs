//! Handle to one node of the external accessibility tree.
use vstd::prelude::*;

verus! {

/// A reference to one element of an application's accessibility tree.
///
/// The element itself lives in another process; the library sees it only
/// through its identity, the address of the foreign reference. Two handles
/// are equal exactly when they refer to the same foreign object.
#[derive(Debug, Clone, Copy, PartialEq, Eq, Structural, Hash)]
pub struct AXUIElement {
    pub id: u64,
}

impl AXUIElement {
    /// The handle of the foreign object whose identity is `id`.
    pub fn from_id(id: u64) -> (r: AXUIElement)
        ensures
            r.id == id,
    {
        AXUIElement { id }
    }

    /// The identity of the foreign object.
    pub fn id(&self) -> (r: u64)
        ensures
            r == self.id,
    {
        self.id
    }
}

} // verus!
