//! The EPSG code pair value type and the numeric plausibility range.

use crate::error::{crs_result_view, Error, ErrorView};
use vstd::prelude::*;

verus! {

/// Smallest code inside the plausible EPSG range.
pub const EPSG_MIN: u16 = 1024;

/// Largest code inside the plausible EPSG range (`i16::MAX`).
pub const EPSG_MAX: u16 = 32767;

/// Whether a single code lies in the plausible EPSG range `1024..=32767`.
pub open spec fn code_in_epsg_range(code: u16) -> bool {
    EPSG_MIN <= code && code <= EPSG_MAX
}

/// Horizontal and optional vertical CRS given by EPSG code(s).
#[derive(Debug, Clone, Copy, PartialEq)]
pub struct EpsgCRS {
    /// EPSG code for the horizontal CRS.
    pub horizontal: u16,
    /// Optional EPSG code for the vertical CRS.
    pub vertical: Option<u16>,
}

impl EpsgCRS {
    /// Both components lie in the EPSG range (an absent vertical code is fine).
    pub open spec fn spec_in_epsg_range(&self) -> bool {
        code_in_epsg_range(self.horizontal) && (self.vertical matches Some(v)
            ==> code_in_epsg_range(v))
    }

    /// Construct a new `EpsgCRS`; both components are checked against the EPSG range.
    pub fn new(horizontal_code: u16, vertical_code: Option<u16>) -> (r: Result<EpsgCRS, Error>)
        ensures
            ({
                let code = EpsgCRS { horizontal: horizontal_code, vertical: vertical_code };
                if code.spec_in_epsg_range() {
                    r == Ok::<EpsgCRS, Error>(code)
                } else {
                    r == Err::<EpsgCRS, Error>(Error::BadEPSGCrs)
                }
            }),
    {
        let code = EpsgCRS { horizontal: horizontal_code, vertical: vertical_code };
        if code.in_epsg_range() {
            Ok(code)
        } else {
            Err(Error::BadEPSGCrs)
        }
    }

    /// Construct a new `EpsgCRS`; neither component is checked against the EPSG range.
    pub fn new_unchecked(horizontal_code: u16, vertical_code: Option<u16>) -> (r: EpsgCRS)
        ensures
            r == (EpsgCRS { horizontal: horizontal_code, vertical: vertical_code }),
    {
        EpsgCRS { horizontal: horizontal_code, vertical: vertical_code }
    }

    /// Check both components against the EPSG range.
    pub fn in_epsg_range(&self) -> (r: bool)
        ensures
            r == self.spec_in_epsg_range(),
    {
        if let Some(vc) = self.vertical {
            if !(EPSG_MIN <= vc && vc <= EPSG_MAX) {
                return false;
            }
        }
        EPSG_MIN <= self.horizontal && self.horizontal <= EPSG_MAX
    }

    /// Get the horizontal code.
    pub fn get_horizontal(&self) -> (r: u16)
        ensures
            r == self.horizontal,
    {
        self.horizontal
    }

    /// Get the optional vertical code.
    pub fn get_vertical(&self) -> (r: Option<u16>)
        ensures
            r == self.vertical,
    {
        self.vertical
    }

    /// Set the horizontal code; the new code is checked against the EPSG range
    /// before setting, and an out-of-range code leaves the value unchanged.
    pub fn set_horizontal(&mut self, horizontal_code: u16) -> (r: Result<(), Error>)
        ensures
            code_in_epsg_range(horizontal_code) ==> r == Ok::<(), Error>(()) && *final(self)
                == (EpsgCRS { horizontal: horizontal_code, vertical: old(self).vertical }),
            !code_in_epsg_range(horizontal_code) ==> r == Err::<(), Error>(
                Error::SetBadCode(horizontal_code),
            ) && *final(self) == *old(self),
    {
        if EPSG_MIN <= horizontal_code && horizontal_code <= EPSG_MAX {
            self.horizontal = horizontal_code;
            Ok(())
        } else {
            Err(Error::SetBadCode(horizontal_code))
        }
    }

    /// Set the vertical code; the new code is checked against the EPSG range
    /// before setting, and an out-of-range code leaves the value unchanged.
    pub fn set_vertical(&mut self, vertical_code: u16) -> (r: Result<(), Error>)
        ensures
            code_in_epsg_range(vertical_code) ==> r == Ok::<(), Error>(()) && *final(self)
                == (EpsgCRS { horizontal: old(self).horizontal, vertical: Some(vertical_code) }),
            !code_in_epsg_range(vertical_code) ==> r == Err::<(), Error>(
                Error::SetBadCode(vertical_code),
            ) && *final(self) == *old(self),
    {
        if EPSG_MIN <= vertical_code && vertical_code <= EPSG_MAX {
            self.vertical = Some(vertical_code);
            Ok(())
        } else {
            Err(Error::SetBadCode(vertical_code))
        }
    }

    /// Set the horizontal code without checking it against the EPSG range.
    pub fn set_horizontal_unchecked(&mut self, horizontal_code: u16)
        ensures
            *final(self) == (EpsgCRS {
                horizontal: horizontal_code,
                vertical: old(self).vertical,
            }),
    {
        self.horizontal = horizontal_code;
    }

    /// Set the vertical code without checking it against the EPSG range; the
    /// vertical component is always present afterwards.
    pub fn set_vertical_unchecked(&mut self, vertical_code: u16)
        ensures
            *final(self) == (EpsgCRS {
                horizontal: old(self).horizontal,
                vertical: Some(vertical_code),
            }),
    {
        self.vertical = Some(vertical_code)
    }
}

/// The validation shared by the WKT scanner and the GeoTIFF reducer once raw
/// codes are in hand: a horizontal code outside the EPSG range is an error
/// that carries the offending pair, a vertical code outside the range (or a
/// raw 0 standing for "none found") is silently dropped.
pub open spec fn spec_normalize_codes(horizontal: u16, vertical: Option<u16>) -> Result<
    EpsgCRS,
    ErrorView,
> {
    if !code_in_epsg_range(horizontal) {
        Err(
            ErrorView::BadHorizontalCodeParsed(
                EpsgCRS { horizontal: horizontal, vertical: vertical },
            ),
        )
    } else {
        Ok(
            EpsgCRS {
                horizontal: horizontal,
                vertical: match vertical {
                    Some(vc) => if code_in_epsg_range(vc) {
                        Some(vc)
                    } else {
                        None
                    },
                    None => None,
                },
            },
        )
    }
}

/// Apply the shared range policy to a raw horizontal/vertical pair.
pub(crate) fn normalize_codes(horizontal: u16, vertical: Option<u16>) -> (r: Result<
    EpsgCRS,
    Error,
>)
    ensures
        crs_result_view(r) == spec_normalize_codes(horizontal, vertical),
{
    let mut code = EpsgCRS { horizontal: horizontal, vertical: vertical };
    if !(EPSG_MIN <= code.horizontal && code.horizontal <= EPSG_MAX) {
        return Err(Error::BadHorizontalCodeParsed(code));
    }
    if let Some(vc) = code.vertical {
        if !(EPSG_MIN <= vc && vc <= EPSG_MAX) {
            code.vertical = None;
        }
    }
    Ok(code)
}

} // verus!
