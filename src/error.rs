use vstd::prelude::*;

verus! {

/// Why an identification block or a file header was rejected.
#[derive(Clone, Copy, Debug, PartialEq, Eq, Structural)]
pub enum Error {
    /// The first four bytes are not the format's signature.
    MagicMismatch,
    /// The class byte is neither 32-bit nor 64-bit.
    UnsupportedClass(u8),
    /// The data-encoding byte is neither little- nor big-endian.
    UnsupportedEncoding(u8),
    /// The version byte is not the current format version.
    UnsupportedVersion(u8),
    /// The OS/ABI byte lies beyond the assigned range.
    UnsupportedAbi(u8),
    /// Fewer bytes were supplied than the structure occupies.
    TruncatedInput { needed: usize, got: usize },
}

} // verus!
