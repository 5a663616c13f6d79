use vstd::prelude::*;

verus! {

/// Failure taxonomy of the decoder and the renderer.
///
/// `Truncated` is a truncation error: the byte stream ends in the middle of a
/// record. `Length` is a value error on a declared record length: the payload
/// does not fill the declared length exactly, so the decoder refuses to
/// desynchronise. `Alignment` and `Combination` are value errors on the
/// segment-attribute bit fields. `Text` means a length-prefixed string held
/// bytes that are not valid text. `NameIndex`, `SegmentIndex` and `GroupIndex`
/// are index errors: a 1-based table reference was zero or past the end of the
/// table.
#[derive(Clone, Copy, Debug, PartialEq, Eq, Structural)]
pub enum OmfError {
    Truncated,
    Length,
    Alignment,
    Combination,
    Text,
    NameIndex,
    SegmentIndex,
    GroupIndex,
}

} // verus!
