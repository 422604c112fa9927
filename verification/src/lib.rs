//! Extraction of EPSG coordinate-reference-system codes from the CRS metadata
//! records of lidar file headers.
//!
//! A header may describe its CRS either as Well-Known Text (WKT, versions 1
//! and 2) or as a binary GeoTIFF key directory.  This crate scans WKT bytes
//! for the trailing EPSG codes of the horizontal and vertical components,
//! decodes GeoTIFF key directories (with their auxiliary double and text
//! payload buffers) into typed entries and reduces them to EPSG codes, and
//! dispatches between the two encodings, WKT first.
//!
//! Codes are only checked for plausibility against the EPSG numeric range
//! `1024..=32767`: a horizontal code outside it is an error, a vertical code
//! outside it is silently dropped.

pub mod dispatch;
pub mod epsg;
pub mod error;
pub mod geotiff;
pub mod wkt;

pub use dispatch::{extract_epsg, CrsSource, ParseEpsgCRS};
pub use epsg::{EpsgCRS, EPSG_MAX, EPSG_MIN};
pub use error::Error;
pub use geotiff::{
    decode_geotiff_key_directory, get_epsg_from_geotiff_crs, GeoTiffCrs, GeoTiffData,
    GeoTiffKeyEntry,
};
pub use wkt::{get_epsg_from_wkt_crs_bytes, get_epsg_from_wkt_text};
