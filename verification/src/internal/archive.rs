//! Return codes and error kinds shared by the engine's archive entry
//! points.

use vstd::prelude::*;

verus! {

/// Error kinds reported by the engine's read paths.
#[derive(Copy, Clone, Debug, Eq, PartialEq, Structural, Hash)]
pub enum RpmErrorKind {
    /// Generic not-found code.
    NotFound,
    /// Generic failure code.
    Fail,
    /// Signature is OK but the key is not trusted.
    NotTrusted,
    /// No public key available to verify the signature.
    NoKey,
}

/// Return codes of the engine's entry points (`rpmRC_e` in the native
/// engine).
#[derive(Copy, Clone, Debug, Eq, PartialEq, Structural, Hash)]
pub enum RpmReturnCode {
    /// Success.
    Okay,
    /// Not found.
    NotFound,
    /// Generic failure.
    Fail,
    /// Signature is OK but the key is not trusted.
    NotTrusted,
    /// No public key available.
    NoKey,
}

impl RpmReturnCode {
    /// The numeric code, as the native engine defines it.
    pub open spec fn spec_code(self) -> u32 {
        match self {
            RpmReturnCode::Okay => 0u32,
            RpmReturnCode::NotFound => 1u32,
            RpmReturnCode::Fail => 2u32,
            RpmReturnCode::NotTrusted => 3u32,
            RpmReturnCode::NoKey => 4u32,
        }
    }

    /// The numeric code, as the native engine defines it.
    pub fn code(self) -> (c: u32)
        ensures
            c == self.spec_code(),
    {
        match self {
            RpmReturnCode::Okay => 0u32,
            RpmReturnCode::NotFound => 1u32,
            RpmReturnCode::Fail => 2u32,
            RpmReturnCode::NotTrusted => 3u32,
            RpmReturnCode::NoKey => 4u32,
        }
    }

    /// The return code a numeric value denotes, or `None` for an
    /// unrecognized value.
    pub fn from_code(c: u32) -> (r: Option<RpmReturnCode>)
        ensures
            match r {
                Some(t) => t.spec_code() == c,
                None => forall|t: RpmReturnCode| t.spec_code() != c,
            },
    {
        match c {
            0u32 => Some(RpmReturnCode::Okay),
            1u32 => Some(RpmReturnCode::NotFound),
            2u32 => Some(RpmReturnCode::Fail),
            3u32 => Some(RpmReturnCode::NotTrusted),
            4u32 => Some(RpmReturnCode::NoKey),
            _ => None,
        }
    }
}

} // verus!
