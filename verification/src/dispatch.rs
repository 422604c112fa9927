//! The dispatcher: decide which CRS encoding of a header to trust, WKT
//! strictly before GeoTIFF, and report absence or a propagated failure.

use crate::epsg::EpsgCRS;
use crate::error::{opt_crs_result_view, Error, ErrorView};
use crate::geotiff::{get_epsg_from_geotiff_crs, spec_geotiff_epsg, GeoTiffCrs};
use crate::wkt::{get_epsg_from_wkt_crs_bytes, spec_wkt_epsg};
use vstd::prelude::*;

verus! {

/// The three CRS signals a header-like source exposes: whether the header
/// declares that a WKT CRS record exists, the raw WKT bytes if a WKT record
/// was found, and the decoded GeoTIFF directory if GeoTIFF records were
/// found (or the failure met while producing it).
///
/// The file-reading collaborator locates the records and fills this in; the
/// declared flag is only ever material for diagnostics about inconsistent
/// metadata, never for the extracted value.
pub struct CrsSource {
    /// The header declares that a WKT CRS record exists.
    pub has_declared_wkt_crs: bool,
    /// The raw bytes of the WKT CRS record, if one was found.
    pub wkt_crs_bytes: Option<Vec<u8>>,
    /// The decoded GeoTIFF directory, if its records were found; `Err` is a
    /// failure of the collaborator's record access or of directory decoding.
    pub geotiff_crs: Result<Option<GeoTiffCrs>, Error>,
}

/// What extraction from a source yields: when WKT bytes are present their
/// scan decides alone (any GeoTIFF data is ignored); otherwise a recorded
/// GeoTIFF failure is propagated, a present directory is reduced, and with
/// neither encoding present the result is absence, not an error.
pub open spec fn spec_extract_epsg(source: CrsSource) -> Result<Option<EpsgCRS>, ErrorView> {
    match source.wkt_crs_bytes {
        Some(w) => match spec_wkt_epsg(w@) {
            Ok(c) => Ok(Some(c)),
            Err(e) => Err(e),
        },
        None => match source.geotiff_crs {
            Err(e) => Err(e@),
            Ok(Some(g)) => match spec_geotiff_epsg(g@) {
                Ok(c) => Ok(Some(c)),
                Err(e) => Err(e),
            },
            Ok(None) => Ok(None),
        },
    }
}

/// Extract the EPSG code(s) from a header-like source, WKT before GeoTIFF;
/// an absent result means no CRS metadata of any kind was found.
pub fn extract_epsg(source: &CrsSource) -> (r: Result<Option<EpsgCRS>, Error>)
    ensures
        opt_crs_result_view(r) == spec_extract_epsg(*source),
{
    match &source.wkt_crs_bytes {
        Some(w) => match get_epsg_from_wkt_crs_bytes(w.as_slice()) {
            Ok(c) => Ok(Some(c)),
            Err(e) => Err(e),
        },
        None => match &source.geotiff_crs {
            Err(e) => Err(e.clone()),
            Ok(Some(g)) => match get_epsg_from_geotiff_crs(g) {
                Ok(c) => Ok(Some(c)),
                Err(e) => Err(e),
            },
            Ok(None) => Ok(None),
        },
    }
}

/// Sources that can hand out their EPSG code(s).
pub trait ParseEpsgCRS {
    /// The outcome that parsing this source must yield.
    spec fn spec_epsg_outcome(&self) -> Result<Option<EpsgCRS>, ErrorView>;

    /// Parse the EPSG CRS code(s); an absent result means the source holds
    /// no CRS metadata of any kind.
    fn get_epsg_crs(&self) -> (r: Result<Option<EpsgCRS>, Error>)
        ensures
            opt_crs_result_view(r) == self.spec_epsg_outcome(),
    ;
}

impl ParseEpsgCRS for CrsSource {
    open spec fn spec_epsg_outcome(&self) -> Result<Option<EpsgCRS>, ErrorView> {
        spec_extract_epsg(*self)
    }

    fn get_epsg_crs(&self) -> (r: Result<Option<EpsgCRS>, Error>) {
        extract_epsg(self)
    }
}

// ------------------------------------------------------------------
// Laws.
// ------------------------------------------------------------------

/// Law: when WKT bytes are present, only their scan decides the result.
/// Two sources with the same WKT bytes extract to the same outcome, however
/// their GeoTIFF data and declared flags differ: GeoTIFF is ignored.
pub proof fn lemma_wkt_precedence(a: CrsSource, b: CrsSource)
    requires
        a.wkt_crs_bytes matches Some(wa) && (b.wkt_crs_bytes matches Some(wb) && wa@ == wb@),
    ensures
        spec_extract_epsg(a) == spec_extract_epsg(b),
{
}

/// Law: when neither encoding is present and the collaborator reported no
/// failure, the result is an absent value, not an error, whatever the
/// declared flag says.
pub proof fn lemma_absent_is_not_an_error(source: CrsSource)
    requires
        source.wkt_crs_bytes is None,
        source.geotiff_crs matches Ok(None),
    ensures
        spec_extract_epsg(source) == Ok::<Option<EpsgCRS>, ErrorView>(None),
{
}

/// Law: extraction is a pure function of the source's data, so re-running
/// it always yields the identical outcome: any two results that meet its
/// contract for the same source are the same value.
pub proof fn lemma_extract_repeatable(
    source: CrsSource,
    r1: Result<Option<EpsgCRS>, Error>,
    r2: Result<Option<EpsgCRS>, Error>,
)
    requires
        opt_crs_result_view(r1) == spec_extract_epsg(source),
        opt_crs_result_view(r2) == spec_extract_epsg(source),
    ensures
        opt_crs_result_view(r1) == opt_crs_result_view(r2),
{
}

} // verus!
