use vstd::prelude::*;

verus! {

/// Everything that can abort a render. The pipeline performs no recovery:
/// any failure aborts the whole render and nothing is written.
#[derive(Clone, Copy, PartialEq, Eq, Structural, Debug)]
pub enum RenderError {
    /// The configuration record is malformed or incomplete.
    ConfigParse,
    /// The payload exceeds the symbol capacity for the requested
    /// error-correction level and version.
    Encode,
    /// The subject photo is missing or unreadable.
    AssetNotFound,
    /// The output path is not writable.
    WriteFailed,
    /// A module index outside the grid was requested. A correct caller never
    /// triggers this; it marks an internal invariant violation.
    OutOfRange,
}

} // verus!
