use vstd::prelude::*;

verus! {

/// An opaque account identifier, used both as an authorization subject and
/// as a fund source or destination.
///
/// The execution environment's native addresses are interned to plain
/// numbers by the host shim before they reach the engine; the engine only
/// ever compares addresses for equality, so a number captures them exactly.
#[derive(Clone, Copy, Debug, PartialEq, Eq, Hash, Structural)]
pub struct Address {
    pub id: u64,
}

} // verus!
