use vstd::prelude::*;

verus! {

/// The ways a decode can fail. Unrecognised enum codes are not among them:
/// they resolve to a catch-all variant instead.
#[derive(Debug, Clone, Copy, PartialEq, Eq, Structural)]
pub enum DecodeError {
    /// The input ended before a mandatory field could be read.
    TruncatedInput,
    /// The magic or the format version leaves the address table's layout
    /// open, or the address table itself is inconsistent with the input.
    MalformedHeader,
    /// No level of detail of the requested resolution is declared.
    ResolutionNotFound,
    /// A body did not end exactly at the end address recorded for it.
    BodyLengthMismatch,
    /// A texture holds no mipmap at the requested index.
    MipmapNotFound,
}

} // verus!
