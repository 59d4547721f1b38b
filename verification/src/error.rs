use vstd::prelude::*;

verus! {

/// How a parse can fail. Every failure is local and recoverable: it is
/// reported to the immediate caller, which may skip the malformed atom by
/// trusting its declared length.
#[derive(Debug, Clone, Copy, PartialEq, Eq)]
pub enum ParseError {
    /// Fewer bytes remain than a read requires.
    Truncated,
    /// An atom declares length 0 ("extends to end of file") or 1 (64-bit
    /// extended length follows); neither form is supported and each must be
    /// reported, never silently misread.
    UnsupportedExtendedSize,
    /// A leaf atom's actual type tag does not match the tag expected for its
    /// role.
    HeaderMismatch,
    /// A container's required child role was not found among its children.
    MissingRequiredChild,
    /// After a body parse the cursor did not stand at
    /// `start_offset + declared_length`: the field list disagrees with the
    /// wire format.
    FramingViolation,
    /// A typed-element sequence reached its declared end in the middle of an
    /// element: a partial element would have to be read.
    TruncatedSequence,
    /// A string field is not valid UTF-8.
    InvalidEncoding,
    /// A tagged union met a type tag it does not recognize; carries the
    /// offending FourCC so it can be diagnosed.
    UnknownVariant(u32),
}

} // verus!
