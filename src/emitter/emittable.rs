//! What can be written in the binary format, and what writes it.

use vstd::prelude::*;

verus! {

/// A value with a fixed binary encoding.
pub trait Emittable {
    /// The bytes that encode `self`.
    spec fn encoding(&self) -> Seq<u8>;

    /// Whether `self` has an encoding at all (an operation whose type and
    /// kind have no instruction has none).
    spec fn encodable(&self) -> bool;

    /// Appends the encoding of `self` to `writer` and returns its length.
    fn emit_to(&self, writer: &mut Vec<u8>) -> (n: usize)
        requires
            self.encodable(),
        ensures
            final(writer)@ == old(writer)@ + self.encoding(),
            n == self.encoding().len(),
    ;
}

/// A byte sink that can take an element of type `T`.
pub trait Emittable2<T: Emittable> {
    /// The bytes written so far.
    spec fn written(&self) -> Seq<u8>;

    /// Writes the encoding of `element` and returns its length.
    fn emit_element(&mut self, element: T) -> (n: usize)
        requires
            element.encodable(),
        ensures
            final(self).written() == old(self).written() + element.encoding(),
            n == element.encoding().len(),
    ;
}

} // verus!
