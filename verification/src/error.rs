//! The error type: every way extraction can fail, as a distinct, inspectable kind.

use crate::epsg::EpsgCRS;
use crate::geotiff::{GeoTiffData, GeoTiffDataView};
use vstd::prelude::*;

verus! {

/// Everything that can go wrong while extracting EPSG code(s).
#[derive(Debug, PartialEq)]
pub enum Error {
    /// A failure of the file-reading collaborator (record access or byte
    /// stream), passed through as its message.
    CollaboratorError(String),
    /// User-defined CRS cannot be parsed.
    UserDefinedCrs,
    /// Could not parse the CRS from the WKT data.
    UnreadableWktCrs,
    /// The GeoTIFF CRS data is malformed beyond the point of extracting a code.
    UnreadableGeoTiffCrs,
    /// The parsed code for the horizontal component is outside of the EPSG
    /// range; the offending pair is attached for diagnostics.
    BadHorizontalCodeParsed(EpsgCRS),
    /// The CRS is defined by GeoTIFF text or double data, which is not
    /// resolved to an EPSG code; the untouched payload is attached.
    UnimplementedForGeoTiffStringAndDoubleData(GeoTiffData),
    /// A directory entry uses a payload location tag this crate does not
    /// understand; carries the key id of the entry.
    UndefinedDataForGeoTiffKey(u16),
    /// The provided code for setting is outside of the EPSG range.
    SetBadCode(u16),
    /// A component of the EPSG code pair is outside of the EPSG range.
    BadEPSGCrs,
}

/// The mathematical shape of an [`Error`], with sequence views in place of
/// the owned buffers.
pub enum ErrorView {
    CollaboratorError(Seq<char>),
    UserDefinedCrs,
    UnreadableWktCrs,
    UnreadableGeoTiffCrs,
    BadHorizontalCodeParsed(EpsgCRS),
    UnimplementedForGeoTiffStringAndDoubleData(GeoTiffDataView),
    UndefinedDataForGeoTiffKey(u16),
    SetBadCode(u16),
    BadEPSGCrs,
}

impl View for Error {
    type V = ErrorView;

    open spec fn view(&self) -> ErrorView {
        match self {
            Error::CollaboratorError(m) => ErrorView::CollaboratorError(m@),
            Error::UserDefinedCrs => ErrorView::UserDefinedCrs,
            Error::UnreadableWktCrs => ErrorView::UnreadableWktCrs,
            Error::UnreadableGeoTiffCrs => ErrorView::UnreadableGeoTiffCrs,
            Error::BadHorizontalCodeParsed(c) => ErrorView::BadHorizontalCodeParsed(*c),
            Error::UnimplementedForGeoTiffStringAndDoubleData(
                d,
            ) => ErrorView::UnimplementedForGeoTiffStringAndDoubleData(d@),
            Error::UndefinedDataForGeoTiffKey(id) => ErrorView::UndefinedDataForGeoTiffKey(*id),
            Error::SetBadCode(code) => ErrorView::SetBadCode(*code),
            Error::BadEPSGCrs => ErrorView::BadEPSGCrs,
        }
    }
}

impl Clone for Error {
    fn clone(&self) -> (r: Self)
        ensures
            r@ == self@,
    {
        match self {
            Error::CollaboratorError(m) => Error::CollaboratorError(m.clone()),
            Error::UserDefinedCrs => Error::UserDefinedCrs,
            Error::UnreadableWktCrs => Error::UnreadableWktCrs,
            Error::UnreadableGeoTiffCrs => Error::UnreadableGeoTiffCrs,
            Error::BadHorizontalCodeParsed(c) => Error::BadHorizontalCodeParsed(*c),
            Error::UnimplementedForGeoTiffStringAndDoubleData(
                d,
            ) => Error::UnimplementedForGeoTiffStringAndDoubleData(d.clone()),
            Error::UndefinedDataForGeoTiffKey(id) => Error::UndefinedDataForGeoTiffKey(*id),
            Error::SetBadCode(code) => Error::SetBadCode(*code),
            Error::BadEPSGCrs => Error::BadEPSGCrs,
        }
    }
}

/// The view of a code-pair result: errors replaced by their views, so that
/// contracts can pin results down to a single mathematical value.
pub open spec fn crs_result_view(r: Result<EpsgCRS, Error>) -> Result<EpsgCRS, ErrorView> {
    match r {
        Ok(c) => Ok(c),
        Err(e) => Err(e@),
    }
}

/// The view of an optional code-pair result, as [`crs_result_view`].
pub open spec fn opt_crs_result_view(r: Result<Option<EpsgCRS>, Error>) -> Result<
    Option<EpsgCRS>,
    ErrorView,
> {
    match r {
        Ok(c) => Ok(c),
        Err(e) => Err(e@),
    }
}

} // verus!
