//! Security descriptors, kept as opaque bytes.

use vstd::prelude::*;

verus! {

/// A security descriptor in its self-relative binary form. The store keeps and
/// hands out the bytes and never looks inside them.
#[derive(Debug, PartialEq, Eq, Hash)]
pub struct SecurityDescriptor(Vec<u8>);

impl View for SecurityDescriptor {
    type V = Seq<u8>;

    closed spec fn view(&self) -> Seq<u8> {
        self.0@
    }
}

impl Clone for SecurityDescriptor {
    fn clone(&self) -> (r: Self)
        ensures
            r@ == self@,
    {
        SecurityDescriptor(vstd::slice::slice_to_vec(self.0.as_slice()))
    }
}

impl SecurityDescriptor {
    /// The descriptor that consists of `bytes`.
    pub fn from_bytes(bytes: Vec<u8>) -> (sd: SecurityDescriptor)
        ensures
            sd@ == bytes@,
    {
        SecurityDescriptor(bytes)
    }

    /// The bytes of the descriptor.
    pub fn as_bytes(&self) -> (bytes: &[u8])
        ensures
            bytes@ == self@,
    {
        self.0.as_slice()
    }

    /// The number of bytes of the descriptor.
    pub fn len(&self) -> (n: usize)
        ensures
            n == self@.len(),
    {
        self.0.len()
    }

    /// Whether the descriptor has no bytes.
    pub fn is_empty(&self) -> (r: bool)
        ensures
            r == (self@.len() == 0),
    {
        self.len() == 0
    }
}

} // verus!
