//! The GeoTIFF key directory: typed entries, the binary decoder, and the
//! reduction of a directory to EPSG code(s).

use crate::epsg::{normalize_codes, spec_normalize_codes, EpsgCRS};
use crate::error::{crs_result_view, Error, ErrorView};
use vstd::prelude::*;

verus! {

/// The payload of one GeoTIFF key entry: an inline 16-bit integer, text
/// bytes, or 64-bit doubles carried as their raw little-endian IEEE-754 bit
/// patterns (this crate never interprets them as floating point).
#[derive(Debug, PartialEq)]
pub enum GeoTiffData {
    /// A single inline 16-bit value.
    U16(u16),
    /// Text read from the auxiliary text buffer, one byte per character.
    Ascii(Vec<u8>),
    /// Doubles read from the auxiliary double buffer, as raw bit patterns.
    Doubles(Vec<u64>),
}

/// The mathematical shape of a [`GeoTiffData`] payload.
pub enum GeoTiffDataView {
    U16(u16),
    Ascii(Seq<u8>),
    Doubles(Seq<u64>),
}

impl View for GeoTiffData {
    type V = GeoTiffDataView;

    open spec fn view(&self) -> GeoTiffDataView {
        match self {
            GeoTiffData::U16(v) => GeoTiffDataView::U16(*v),
            GeoTiffData::Ascii(b) => GeoTiffDataView::Ascii(b@),
            GeoTiffData::Doubles(d) => GeoTiffDataView::Doubles(d@),
        }
    }
}

impl Clone for GeoTiffData {
    fn clone(&self) -> (r: Self)
        ensures
            r@ == self@,
    {
        match self {
            GeoTiffData::U16(v) => GeoTiffData::U16(*v),
            GeoTiffData::Ascii(b) => {
                let copy = b.clone();
                proof {
                    assert(copy@ =~= b@);
                }
                GeoTiffData::Ascii(copy)
            },
            GeoTiffData::Doubles(d) => {
                let copy = d.clone();
                proof {
                    assert(copy@ =~= d@);
                }
                GeoTiffData::Doubles(copy)
            },
        }
    }
}

/// A single GeoTIFF key entry, after its payload location is resolved.
#[derive(Debug, PartialEq)]
pub struct GeoTiffKeyEntry {
    /// The key id of the entry.
    pub id: u16,
    /// The data in this entry.
    pub data: GeoTiffData,
}

/// The mathematical shape of a [`GeoTiffKeyEntry`].
pub struct GeoTiffKeyEntryView {
    pub id: u16,
    pub data: GeoTiffDataView,
}

impl View for GeoTiffKeyEntry {
    type V = GeoTiffKeyEntryView;

    open spec fn view(&self) -> GeoTiffKeyEntryView {
        GeoTiffKeyEntryView { id: self.id, data: self.data@ }
    }
}

/// A decoded GeoTIFF key directory: the entries in directory order.
#[derive(Debug, PartialEq)]
pub struct GeoTiffCrs {
    /// The GeoTIFF key entries.
    pub entries: Vec<GeoTiffKeyEntry>,
}

/// The entry views of a sequence of entries, in order.
pub open spec fn entries_view(entries: Seq<GeoTiffKeyEntry>) -> Seq<GeoTiffKeyEntryView> {
    Seq::new(entries.len(), |i: int| entries[i]@)
}

impl View for GeoTiffCrs {
    type V = Seq<GeoTiffKeyEntryView>;

    open spec fn view(&self) -> Seq<GeoTiffKeyEntryView> {
        entries_view(self.entries@)
    }
}

// ------------------------------------------------------------------
// The binary key-directory decoder.
// ------------------------------------------------------------------

/// The unsigned 16-bit value of the two little-endian bytes at `pos`.
pub open spec fn le_u16_at(s: Seq<u8>, pos: int) -> u16 {
    (s[pos] + 256 * s[pos + 1]) as u16
}

/// The unsigned 64-bit value of the eight little-endian bytes at `pos`.
pub open spec fn le_u64_at(s: Seq<u8>, pos: int) -> u64 {
    (s[pos] + 256 * (s[pos + 1] + 256 * (s[pos + 2] + 256 * (s[pos + 3] + 256 * (s[pos + 4] + 256
        * (s[pos + 5] + 256 * (s[pos + 6] + 256 * s[pos + 7]))))))) as u64
}

/// The view of an optional auxiliary byte buffer.
pub open spec fn opt_bytes_view(o: Option<&[u8]>) -> Option<Seq<u8>> {
    match o {
        Some(s) => Some(s@),
        None => None,
    }
}

/// The view of a payload result.
pub open spec fn data_result_view(r: Result<GeoTiffData, Error>) -> Result<
    GeoTiffDataView,
    ErrorView,
> {
    match r {
        Ok(d) => Ok(d@),
        Err(e) => Err(e@),
    }
}

/// The view of a decoded-directory result.
pub open spec fn geotiff_result_view(r: Result<GeoTiffCrs, Error>) -> Result<
    Seq<GeoTiffKeyEntryView>,
    ErrorView,
> {
    match r {
        Ok(g) => Ok(g@),
        Err(e) => Err(e@),
    }
}

/// How one entry's payload is resolved from its location tag: tag 0 takes
/// the offset field itself as an inline value; tag 34736 reads `count`
/// doubles from the double buffer starting at element index `offset`; tag
/// 34737 reads `count` text bytes from the text buffer starting at byte
/// offset `offset`; any other tag is undefined data for that key.  A read
/// that needs a missing buffer, or runs off the end of one, is unreadable.
pub open spec fn spec_decode_payload(
    id: u16,
    location: u16,
    count: u16,
    offset: u16,
    dbl: Option<Seq<u8>>,
    txt: Option<Seq<u8>>,
) -> Result<GeoTiffDataView, ErrorView> {
    if location == 0 {
        Ok(GeoTiffDataView::U16(offset))
    } else if location == 34736 {
        match dbl {
            None => Err(ErrorView::UnreadableGeoTiffCrs),
            Some(d) => if count == 0 {
                Ok(GeoTiffDataView::Doubles(Seq::empty()))
            } else if offset * 8 + count * 8 <= d.len() {
                Ok(
                    GeoTiffDataView::Doubles(
                        Seq::new(count as nat, |k: int| le_u64_at(d, offset * 8 + 8 * k)),
                    ),
                )
            } else {
                Err(ErrorView::UnreadableGeoTiffCrs)
            },
        }
    } else if location == 34737 {
        match txt {
            None => Err(ErrorView::UnreadableGeoTiffCrs),
            Some(a) => if count == 0 {
                Ok(GeoTiffDataView::Ascii(Seq::empty()))
            } else if offset + count <= a.len() {
                Ok(GeoTiffDataView::Ascii(a.subrange(offset as int, offset + count)))
            } else {
                Err(ErrorView::UnreadableGeoTiffCrs)
            },
        }
    } else {
        Err(ErrorView::UndefinedDataForGeoTiffKey(id))
    }
}

/// The entries decoded from the directory bytes starting at `pos`, with
/// `remaining` entries left to read; a directory too short for the next
/// entry is unreadable, and the first failing entry decides the error.
pub open spec fn spec_decode_entries(
    dir: Seq<u8>,
    dbl: Option<Seq<u8>>,
    txt: Option<Seq<u8>>,
    pos: int,
    remaining: nat,
) -> Result<Seq<GeoTiffKeyEntryView>, ErrorView>
    decreases remaining,
{
    if remaining == 0 {
        Ok(Seq::empty())
    } else if pos < 0 || pos + 8 > dir.len() {
        Err(ErrorView::UnreadableGeoTiffCrs)
    } else {
        let id = le_u16_at(dir, pos);
        let location = le_u16_at(dir, pos + 2);
        let count = le_u16_at(dir, pos + 4);
        let offset = le_u16_at(dir, pos + 6);
        match spec_decode_payload(id, location, count, offset, dbl, txt) {
            Err(e) => Err(e),
            Ok(data) => match spec_decode_entries(dir, dbl, txt, pos + 8, (remaining - 1) as nat) {
                Err(e) => Err(e),
                Ok(rest) => Ok(seq![GeoTiffKeyEntryView { id: id, data: data }] + rest),
            },
        }
    }
}

/// The whole directory: four little-endian 16-bit header fields (version,
/// revision major, revision minor — read but not validated — and the entry
/// count), then that many eight-byte entries.
pub open spec fn spec_decode_directory(
    dir: Seq<u8>,
    dbl: Option<Seq<u8>>,
    txt: Option<Seq<u8>>,
) -> Result<Seq<GeoTiffKeyEntryView>, ErrorView> {
    if dir.len() < 8 {
        Err(ErrorView::UnreadableGeoTiffCrs)
    } else {
        spec_decode_entries(dir, dbl, txt, 8, le_u16_at(dir, 6) as nat)
    }
}

/// Prepending already-decoded entries to the outcome of decoding the rest.
pub open spec fn spec_prepend_entries(
    prefix: Seq<GeoTiffKeyEntryView>,
    rest: Result<Seq<GeoTiffKeyEntryView>, ErrorView>,
) -> Result<Seq<GeoTiffKeyEntryView>, ErrorView> {
    match rest {
        Ok(r) => Ok(prefix + r),
        Err(e) => Err(e),
    }
}

fn read_u16_le(s: &[u8], pos: usize) -> (r: u16)
    requires
        pos + 2 <= s@.len(),
    ensures
        r == le_u16_at(s@, pos as int),
{
    let n = s.len();
    let b0 = s[pos];
    let b1 = s[pos + 1];
    b0 as u16 + 256 * (b1 as u16)
}

fn read_u64_le(s: &[u8], pos: usize) -> (r: u64)
    requires
        pos + 8 <= s@.len(),
    ensures
        r == le_u64_at(s@, pos as int),
{
    let n = s.len();
    let b0 = s[pos] as u64;
    let b1 = s[pos + 1] as u64;
    let b2 = s[pos + 2] as u64;
    let b3 = s[pos + 3] as u64;
    let b4 = s[pos + 4] as u64;
    let b5 = s[pos + 5] as u64;
    let b6 = s[pos + 6] as u64;
    let b7 = s[pos + 7] as u64;
    b0 + 256 * (b1 + 256 * (b2 + 256 * (b3 + 256 * (b4 + 256 * (b5 + 256 * (b6 + 256 * b7))))))
}

fn decode_payload(
    id: u16,
    location: u16,
    count: u16,
    offset: u16,
    double_params: Option<&[u8]>,
    ascii_params: Option<&[u8]>,
) -> (r: Result<GeoTiffData, Error>)
    ensures
        data_result_view(r) == spec_decode_payload(
            id,
            location,
            count,
            offset,
            opt_bytes_view(double_params),
            opt_bytes_view(ascii_params),
        ),
{
    if location == 0 {
        Ok(GeoTiffData::U16(offset))
    } else if location == 34736 {
        match double_params {
            None => Err(Error::UnreadableGeoTiffCrs),
            Some(d) => {
                if count == 0 {
                    let v: Vec<u64> = Vec::new();
                    proof {
                        assert(v@ =~= Seq::<u64>::empty());
                    }
                    Ok(GeoTiffData::Doubles(v))
                } else {
                    let dn = d.len();
                    let base: usize = (offset as usize) * 8;
                    if base + (count as usize) * 8 <= dn {
                        let mut v: Vec<u64> = Vec::new();
                        let mut k: u16 = 0;
                        while k < count
                            invariant
                                dn == d@.len(),
                                base == offset as int * 8,
                                base + count as int * 8 <= dn,
                                k <= count,
                                v@.len() == k as int,
                                forall|j: int|
                                    0 <= j < k ==> v@[j] == le_u64_at(d@, base + 8 * j),
                            decreases count - k,
                        {
                            let val = read_u64_le(d, base + 8 * (k as usize));
                            v.push(val);
                            k = k + 1;
                        }
                        proof {
                            assert(v@ =~= Seq::new(
                                count as nat,
                                |j: int| le_u64_at(d@, offset * 8 + 8 * j),
                            ));
                        }
                        Ok(GeoTiffData::Doubles(v))
                    } else {
                        Err(Error::UnreadableGeoTiffCrs)
                    }
                }
            },
        }
    } else if location == 34737 {
        match ascii_params {
            None => Err(Error::UnreadableGeoTiffCrs),
            Some(a) => {
                if count == 0 {
                    let v: Vec<u8> = Vec::new();
                    proof {
                        assert(v@ =~= Seq::<u8>::empty());
                    }
                    Ok(GeoTiffData::Ascii(v))
                } else {
                    let an = a.len();
                    if (offset as usize) + (count as usize) <= an {
                        let piece = vstd::slice::slice_subrange(
                            a,
                            offset as usize,
                            (offset as usize) + (count as usize),
                        );
                        let v = vstd::slice::slice_to_vec(piece);
                        Ok(GeoTiffData::Ascii(v))
                    } else {
                        Err(Error::UnreadableGeoTiffCrs)
                    }
                }
            },
        }
    } else {
        Err(Error::UndefinedDataForGeoTiffKey(id))
    }
}

/// Decode a GeoTIFF key directory buffer, with its optional auxiliary
/// double-array and text buffers, into typed entries in directory order.
pub fn decode_geotiff_key_directory(
    directory: &[u8],
    double_params: Option<&[u8]>,
    ascii_params: Option<&[u8]>,
) -> (r: Result<GeoTiffCrs, Error>)
    ensures
        geotiff_result_view(r) == spec_decode_directory(
            directory@,
            opt_bytes_view(double_params),
            opt_bytes_view(ascii_params),
        ),
{
    let ghost dv = opt_bytes_view(double_params);
    let ghost tv = opt_bytes_view(ascii_params);
    let n = directory.len();
    if n < 8 {
        return Err(Error::UnreadableGeoTiffCrs);
    }
    // The three version fields of the header are read over but, by design,
    // not validated; only the entry count in the fourth field is used.
    let num_keys = read_u16_le(directory, 6);
    let mut entries: Vec<GeoTiffKeyEntry> = Vec::new();
    let mut idx: u16 = 0;
    proof {
        assert(entries_view(entries@) =~= Seq::<GeoTiffKeyEntryView>::empty());
    }
    while idx < num_keys
        invariant
            n == directory@.len(),
            n >= 8,
            dv == opt_bytes_view(double_params),
            tv == opt_bytes_view(ascii_params),
            idx <= num_keys,
            num_keys == le_u16_at(directory@, 6),
            entries@.len() == idx as int,
            spec_decode_entries(directory@, dv, tv, 8, num_keys as nat) == spec_prepend_entries(
                entries_view(entries@),
                spec_decode_entries(directory@, dv, tv, 8 + 8 * idx, (num_keys - idx) as nat),
            ),
        decreases num_keys - idx,
    {
        let pos: usize = 8 + 8 * (idx as usize);
        proof {
            assert(pos as int == 8 + 8 * (idx as int));
            assert((num_keys - idx) as nat != 0);
        }
        if pos + 8 > n {
            proof {
                assert(spec_decode_entries(directory@, dv, tv, 8 + 8 * idx, (num_keys - idx) as nat)
                    == Err::<Seq<GeoTiffKeyEntryView>, ErrorView>(ErrorView::UnreadableGeoTiffCrs));
            }
            return Err(Error::UnreadableGeoTiffCrs);
        }
        let id = read_u16_le(directory, pos);
        let location = read_u16_le(directory, pos + 2);
        let count = read_u16_le(directory, pos + 4);
        let offset = read_u16_le(directory, pos + 6);
        match decode_payload(id, location, count, offset, double_params, ascii_params) {
            Err(e) => {
                proof {
                    assert(spec_decode_entries(
                        directory@,
                        dv,
                        tv,
                        8 + 8 * idx,
                        (num_keys - idx) as nat,
                    ) == Err::<Seq<GeoTiffKeyEntryView>, ErrorView>(e@));
                }
                return Err(e);
            },
            Ok(data) => {
                let ghost old_entries = entries@;
                let entry = GeoTiffKeyEntry { id: id, data: data };
                entries.push(entry);
                proof {
                    assert(entries_view(entries@) =~= entries_view(old_entries) + seq![entry@]);
                    let rest = spec_decode_entries(
                        directory@,
                        dv,
                        tv,
                        8 + 8 * (idx as int + 1),
                        (num_keys - idx - 1) as nat,
                    );
                    if rest is Ok {
                        assert(entries_view(old_entries) + (seq![entry@] + rest->Ok_0)
                            =~= entries_view(entries@) + rest->Ok_0);
                    }
                }
                idx = idx + 1;
            },
        }
    }
    proof {
        assert(entries_view(entries@) + Seq::<GeoTiffKeyEntryView>::empty() =~= entries_view(
            entries@,
        ));
    }
    Ok(GeoTiffCrs { entries })
}

// ------------------------------------------------------------------
// Reduction of the entries to EPSG code(s).
// ------------------------------------------------------------------

/// One left-to-right pass over the entries from position `i`, carrying the
/// horizontal and vertical candidates found so far: the model-type key 1024
/// accepts inline 1, 2 or 3, fails on inline 0 (unreadable), inline 32767
/// (user defined) and anything else (unimplemented payload, attached); keys
/// 2048 and 3072 record an inline value as the horizontal candidate, the
/// later entry winning; key 4096 records an inline value as the vertical
/// candidate; every other key is ignored.
pub open spec fn spec_reduce_entries(
    entries: Seq<GeoTiffKeyEntryView>,
    i: int,
    horizontal: u16,
    vertical: Option<u16>,
) -> Result<(u16, Option<u16>), ErrorView>
    decreases entries.len() - i,
{
    if i < 0 || i >= entries.len() {
        Ok((horizontal, vertical))
    } else {
        let e = entries[i];
        if e.id == 1024 {
            match e.data {
                GeoTiffDataView::U16(m) => if m == 0 {
                    Err(ErrorView::UnreadableGeoTiffCrs)
                } else if m == 1 || m == 2 || m == 3 {
                    spec_reduce_entries(entries, i + 1, horizontal, vertical)
                } else if m == 32767 {
                    Err(ErrorView::UserDefinedCrs)
                } else {
                    Err(ErrorView::UnimplementedForGeoTiffStringAndDoubleData(e.data))
                },
                _ => Err(ErrorView::UnimplementedForGeoTiffStringAndDoubleData(e.data)),
            }
        } else if e.id == 2048 || e.id == 3072 {
            match e.data {
                GeoTiffDataView::U16(c) => spec_reduce_entries(entries, i + 1, c, vertical),
                _ => spec_reduce_entries(entries, i + 1, horizontal, vertical),
            }
        } else if e.id == 4096 {
            match e.data {
                GeoTiffDataView::U16(c) => spec_reduce_entries(entries, i + 1, horizontal, Some(c)),
                _ => spec_reduce_entries(entries, i + 1, horizontal, vertical),
            }
        } else {
            spec_reduce_entries(entries, i + 1, horizontal, vertical)
        }
    }
}

/// What reducing a decoded directory yields: the pass over all entries, then
/// failure if no horizontal candidate (or the raw candidate 0) was recorded,
/// then the shared range policy.
pub open spec fn spec_geotiff_epsg(entries: Seq<GeoTiffKeyEntryView>) -> Result<
    EpsgCRS,
    ErrorView,
> {
    match spec_reduce_entries(entries, 0, 0, None) {
        Err(e) => Err(e),
        Ok((h, v)) => if h == 0 {
            Err(ErrorView::UnreadableGeoTiffCrs)
        } else {
            spec_normalize_codes(h, v)
        },
    }
}

/// Get the EPSG code(s) from decoded GeoTIFF CRS data.
///
/// Only inline 16-bit data is resolved to codes; a CRS whose model-type key
/// carries text or double data is returned untouched inside
/// [`Error::UnimplementedForGeoTiffStringAndDoubleData`].
pub fn get_epsg_from_geotiff_crs(geotiff_crs_data: &GeoTiffCrs) -> (r: Result<EpsgCRS, Error>)
    ensures
        crs_result_view(r) == spec_geotiff_epsg(geotiff_crs_data@),
{
    let ghost ev = geotiff_crs_data@;
    let mut horizontal: u16 = 0;
    let mut vertical: Option<u16> = None;
    let n = geotiff_crs_data.entries.len();
    let mut i: usize = 0;
    while i < n
        invariant
            n == geotiff_crs_data.entries@.len(),
            ev == geotiff_crs_data@,
            i <= n,
            spec_reduce_entries(ev, 0, 0, None) == spec_reduce_entries(
                ev,
                i as int,
                horizontal,
                vertical,
            ),
        decreases n - i,
    {
        let entry = &geotiff_crs_data.entries[i];
        proof {
            assert(ev[i as int] == geotiff_crs_data.entries@[i as int]@);
        }
        if entry.id == 1024 {
            match &entry.data {
                GeoTiffData::U16(m) => {
                    if *m == 0 {
                        return Err(Error::UnreadableGeoTiffCrs);
                    } else if *m == 1 || *m == 2 || *m == 3 {
                        // accepted model type; nothing to record
                    } else if *m == 32767 {
                        return Err(Error::UserDefinedCrs);
                    } else {
                        return Err(
                            Error::UnimplementedForGeoTiffStringAndDoubleData(entry.data.clone()),
                        );
                    }
                },
                _ => {
                    return Err(
                        Error::UnimplementedForGeoTiffStringAndDoubleData(entry.data.clone()),
                    );
                },
            }
        } else if entry.id == 2048 || entry.id == 3072 {
            if let GeoTiffData::U16(c) = &entry.data {
                horizontal = *c;
            }
        } else if entry.id == 4096 {
            if let GeoTiffData::U16(c) = &entry.data {
                vertical = Some(*c);
            }
        }
        i = i + 1;
    }
    if horizontal == 0 {
        return Err(Error::UnreadableGeoTiffCrs);
    }
    normalize_codes(horizontal, vertical)
}

// ------------------------------------------------------------------
// Laws.
// ------------------------------------------------------------------

/// Law: the decoder and reducer are pure functions of their byte inputs, so
/// re-running them on the same inputs always yields the identical outcome:
/// any two results that meet the reducer's contract for the same entries are
/// the same value.
pub proof fn lemma_geotiff_reduce_repeatable(
    entries: Seq<GeoTiffKeyEntryView>,
    r1: Result<EpsgCRS, Error>,
    r2: Result<EpsgCRS, Error>,
)
    requires
        crs_result_view(r1) == spec_geotiff_epsg(entries),
        crs_result_view(r2) == spec_geotiff_epsg(entries),
    ensures
        crs_result_view(r1) == crs_result_view(r2),
{
}

} // verus!
