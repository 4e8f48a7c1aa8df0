use vstd::prelude::*;

verus! {

/// The error taxonomy shared by the codec, the store and the service.
///
/// Every failure of the core is one of these structured values; nothing is
/// panicked or silently swallowed, and no variant carries key material or
/// partial-match information.
#[derive(Clone, Copy, Debug, PartialEq, Eq, Structural)]
pub enum Error {
    /// Key and data lengths differ. `expected` is the data length,
    /// `actual` the key length, both in bytes, for diagnostics.
    LengthMismatch { expected: usize, actual: usize },
    /// An entry with the same id is already stored.
    Duplicate,
    /// No entry exists under the given id.
    NotFound,
    /// A reveal was attempted on an entry that is not protected.
    NotEncrypted,
    /// The presented key does not match the stored key. Carries no timing
    /// or partial-match metadata.
    InvalidKey,
    /// The codec produced an invalid unit. An internal defect: the
    /// byte-level codec used here never produces it, since XOR is closed
    /// over bytes.
    InvalidOutput,
}

} // verus!
