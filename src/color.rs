use vstd::prelude::*;

verus! {

/// The engine's matrix-coefficient names; carried through unread.
#[verifier::external_type_specification]
#[verifier::external_body]
pub struct ExVideoMatrixCoefficients(web_sys::VideoMatrixCoefficients);

/// The engine's color-primaries names; carried through unread.
#[verifier::external_type_specification]
#[verifier::external_body]
pub struct ExVideoColorPrimaries(web_sys::VideoColorPrimaries);

/// The engine's transfer-characteristics names; carried through unread.
#[verifier::external_type_specification]
#[verifier::external_body]
pub struct ExVideoTransferCharacteristics(web_sys::VideoTransferCharacteristics);

/// A color-space description. Each part is set on its own; a part left
/// `None` is left to the engine's default.
#[derive(Clone, Copy, Debug, PartialEq, Eq)]
pub struct VideoColorSpaceConfig {
    pub full_range: Option<bool>,
    pub matrix: Option<web_sys::VideoMatrixCoefficients>,
    pub primaries: Option<web_sys::VideoColorPrimaries>,
    pub transfer: Option<web_sys::VideoTransferCharacteristics>,
}

impl VideoColorSpaceConfig {
    pub open spec fn unset() -> VideoColorSpaceConfig {
        VideoColorSpaceConfig { full_range: None, matrix: None, primaries: None, transfer: None }
    }

    /// A description with no part set.
    pub fn new() -> (r: Self)
        ensures
            r == Self::unset(),
    {
        VideoColorSpaceConfig { full_range: None, matrix: None, primaries: None, transfer: None }
    }

    /// Sets the range flag and keeps the other parts.
    pub fn full_range(self, enabled: bool) -> (r: Self)
        ensures
            r == (VideoColorSpaceConfig { full_range: Some(enabled), ..self }),
    {
        VideoColorSpaceConfig { full_range: Some(enabled), ..self }
    }

    /// Sets the matrix coefficients and keeps the other parts.
    pub fn matrix(self, matrix: web_sys::VideoMatrixCoefficients) -> (r: Self)
        ensures
            r == (VideoColorSpaceConfig { matrix: Some(matrix), ..self }),
    {
        VideoColorSpaceConfig { matrix: Some(matrix), ..self }
    }

    /// Sets the color primaries and keeps the other parts.
    pub fn primaries(self, primaries: web_sys::VideoColorPrimaries) -> (r: Self)
        ensures
            r == (VideoColorSpaceConfig { primaries: Some(primaries), ..self }),
    {
        VideoColorSpaceConfig { primaries: Some(primaries), ..self }
    }

    /// Sets the transfer characteristics and keeps the other parts.
    pub fn transfer(self, transfer: web_sys::VideoTransferCharacteristics) -> (r: Self)
        ensures
            r == (VideoColorSpaceConfig { transfer: Some(transfer), ..self }),
    {
        VideoColorSpaceConfig { transfer: Some(transfer), ..self }
    }
}

impl Default for VideoColorSpaceConfig {
    fn default() -> (r: Self)
        ensures
            r == Self::unset(),
    {
        Self::new()
    }
}

} // verus!
