//! The WKT text scanner: split the text at the first vertical-CRS marker and
//! read the EPSG code as the trailing numeral of each piece.

use crate::epsg::{normalize_codes, spec_normalize_codes, EpsgCRS};
use crate::error::{crs_result_view, Error, ErrorView};
use vstd::prelude::*;
use vstd::slice::slice_subrange;

verus! {

// ------------------------------------------------------------------
// Lossy text decoding (trusted).
// ------------------------------------------------------------------

/// The bytes of the text that lossy UTF-8 decoding yields for the given
/// input bytes: invalid sequences come back as the replacement character.
pub uninterp spec fn utf8_lossy_of(bytes: Seq<u8>) -> Seq<u8>;

/// Relies on `String::from_utf8_lossy`: its result is a pure function of the
/// input bytes, and all-ASCII input is valid UTF-8, which the documentation
/// promises comes back unchanged.
#[verifier::external_body]
fn utf8_lossy_decode(bytes: &[u8]) -> (r: Vec<u8>)
    ensures
        r@ == utf8_lossy_of(bytes@),
        (forall|i: int| 0 <= i < bytes@.len() ==> bytes@[i] < 128) ==> r@ == bytes@,
{
    String::from_utf8_lossy(bytes).into_owned().into_bytes()
}

// ------------------------------------------------------------------
// Trailing-numeral extraction.
// ------------------------------------------------------------------

/// ASCII decimal digit.
pub open spec fn is_ascii_digit_byte(b: u8) -> bool {
    48 <= b && b <= 57
}

/// ASCII whitespace, as `u8::is_ascii_whitespace` defines it.
pub open spec fn is_ascii_whitespace_byte(b: u8) -> bool {
    b == 32 || b == 9 || b == 10 || b == 12 || b == 13
}

/// The sequence with its trailing ASCII whitespace removed.
pub open spec fn trim_end_ws(s: Seq<u8>) -> Seq<u8>
    decreases s.len(),
{
    if s.len() > 0 && is_ascii_whitespace_byte(s.last()) {
        trim_end_ws(s.drop_last())
    } else {
        s
    }
}

/// The value of the digit run at the end of `t`, scanned backwards: at most
/// `10 - examined` further bytes are looked at, non-digits before the run are
/// skipped, and the first non-digit after at least one digit ends the scan.
/// The digit closest to the end contributes at the ones place, scaled by
/// `power`.
pub open spec fn trailing_sum(t: Seq<u8>, examined: int, started: bool, power: int) -> int
    decreases t.len(),
{
    if t.len() == 0 || examined >= 10 {
        0
    } else if is_ascii_digit_byte(t.last()) {
        (t.last() - 48) * power + trailing_sum(t.drop_last(), examined + 1, true, power * 10)
    } else if started {
        0
    } else {
        trailing_sum(t.drop_last(), examined + 1, false, power)
    }
}

/// The trailing EPSG code of a piece of text: trim trailing whitespace, scan
/// the last ten bytes backwards for the final digit run, and combine the
/// digits least-significant-first into a 16-bit value (modulo 2^16, as
/// accumulating in a 16-bit register does); no digit at all yields 0.
pub open spec fn trailing_code(s: Seq<u8>) -> u16 {
    (trailing_sum(trim_end_ws(s), 0, false, 1) % 0x10000) as u16
}

/// Powers of ten, for bounding the scanner's accumulator.
pub open spec fn pow10(k: int) -> int
    decreases k,
{
    if k <= 0 {
        1
    } else {
        10 * pow10(k - 1)
    }
}

proof fn lemma_pow10_pos(k: int)
    ensures
        pow10(k) >= 1,
    decreases
            (if k < 0 {
                0
            } else {
                k
            }),
{
    if k > 0 {
        lemma_pow10_pos(k - 1);
    }
}

proof fn lemma_pow10_le(a: int, b: int)
    requires
        a <= b,
    ensures
        pow10(a) <= pow10(b),
    decreases
            (if b < 0 {
                0
            } else {
                b
            }),
{
    if a < b && b > 0 {
        lemma_pow10_le(a, b - 1);
        lemma_pow10_pos(b - 1);
    }
}

fn byte_is_ws(b: u8) -> (r: bool)
    ensures
        r == is_ascii_whitespace_byte(b),
{
    b == 32 || b == 9 || b == 10 || b == 12 || b == 13
}

/// Extract the trailing EPSG code of one piece of text.
fn trailing_code_exec(piece: &[u8]) -> (code: u16)
    ensures
        code == trailing_code(piece@),
{
    proof {
        assert(piece@.take(piece@.len() as int) =~= piece@);
    }
    let mut end: usize = piece.len();
    while end > 0 && byte_is_ws(piece[end - 1])
        invariant
            end <= piece@.len(),
            trim_end_ws(piece@) == trim_end_ws(piece@.take(end as int)),
        decreases end,
    {
        proof {
            assert(piece@.take(end as int).last() == piece@[end - 1]);
            assert(piece@.take(end as int).drop_last() =~= piece@.take(end - 1));
        }
        end = end - 1;
    }
    let ghost t = piece@.take(end as int);
    proof {
        if end > 0 {
            assert(t.last() == piece@[end - 1]);
            assert(trim_end_ws(t) == t);
        } else {
            assert(t =~= Seq::<u8>::empty());
            assert(trim_end_ws(t) == t);
        }
    }

    proof {
        assert(t.take(end as int) =~= t);
    }
    let mut pos: usize = end;
    let mut examined: usize = 0;
    let mut started: bool = false;
    let mut acc: u64 = 0;
    let mut power: u64 = 1;
    while pos > 0 && examined < 10
        invariant_except_break
            t == piece@.take(end as int),
            end <= piece@.len(),
            pos <= end,
            examined as int == end - pos,
            examined <= 10,
            power as int <= pow10(examined as int),
            acc < power,
            trailing_sum(t, 0, false, 1) == acc + trailing_sum(
                t.take(pos as int),
                examined as int,
                started,
                power as int,
            ),
        ensures
            trailing_sum(t, 0, false, 1) == acc,
        decreases pos,
    {
        let b = piece[pos - 1];
        proof {
            assert(t.take(pos as int).last() == piece@[pos - 1]);
            assert(t.take(pos as int).drop_last() =~= t.take(pos - 1));
            lemma_pow10_le(examined as int, 9);
            assert(pow10(9) == 1_000_000_000) by {
                reveal_with_fuel(pow10, 10);
            }
        }
        if 48 <= b && b <= 57 {
            let dd: u64 = (b - 48) as u64;
            proof {
                assert(power * dd <= 9_000_000_000) by (nonlinear_arith)
                    requires
                        power <= 1_000_000_000,
                        dd <= 9,
                ;
                assert(acc + power * dd < power * 10) by (nonlinear_arith)
                    requires
                        acc < power,
                        dd <= 9,
                        power >= 1,
                ;
                assert(pow10(examined as int + 1) == 10 * pow10(examined as int));
            }
            acc = acc + power * dd;
            power = power * 10;
            started = true;
        } else if started {
            break;
        }
        pos = pos - 1;
        examined = examined + 1;
    }
    proof {
        if pos == 0 {
            assert(t.take(0) =~= Seq::<u8>::empty());
        }
    }
    (acc % 65536) as u16
}

// ------------------------------------------------------------------
// Marker search.
// ------------------------------------------------------------------

/// The WKT v2 marker `VERTCRS`.
pub open spec fn marker_vertcrs() -> Seq<u8> {
    seq![86u8, 69u8, 82u8, 84u8, 67u8, 82u8, 83u8]
}

/// The WKT v2 marker `VERTICALCRS`.
pub open spec fn marker_verticalcrs() -> Seq<u8> {
    seq![86u8, 69u8, 82u8, 84u8, 73u8, 67u8, 65u8, 76u8, 67u8, 82u8, 83u8]
}

/// The WKT v1 marker `VERT_CS`.
pub open spec fn marker_vert_cs() -> Seq<u8> {
    seq![86u8, 69u8, 82u8, 84u8, 95u8, 67u8, 83u8]
}

/// The marker bytes occur in `t` starting at position `i`.
pub open spec fn matches_at(t: Seq<u8>, pat: Seq<u8>, i: int) -> bool {
    0 <= i && i + pat.len() <= t.len() && t.subrange(i, i + pat.len() as int) == pat
}

/// The marker bytes occur somewhere in `t`.
pub open spec fn contains_marker(t: Seq<u8>, pat: Seq<u8>) -> bool {
    exists|i: int| matches_at(t, pat, i)
}

/// `i` is the first position at which the marker occurs in `t`.
pub open spec fn is_first_match(t: Seq<u8>, pat: Seq<u8>, i: int) -> bool {
    matches_at(t, pat, i) && forall|j: int| 0 <= j < i ==> !matches_at(t, pat, j)
}

/// The first position at which the marker occurs in `t` (meaningful only
/// when `contains_marker` holds).
pub open spec fn first_match(t: Seq<u8>, pat: Seq<u8>) -> int {
    choose|i: int| is_first_match(t, pat, i)
}

proof fn lemma_first_match_unique(t: Seq<u8>, pat: Seq<u8>, i: int)
    requires
        is_first_match(t, pat, i),
    ensures
        first_match(t, pat) == i,
{
    let j = first_match(t, pat);
    assert(is_first_match(t, pat, j));
    if j < i {
        assert(matches_at(t, pat, j));
        assert(false);
    }
    if i < j {
        assert(matches_at(t, pat, i));
        assert(false);
    }
}

fn match_at_index(t: &[u8], pat: &Vec<u8>, i: usize) -> (r: bool)
    requires
        i + pat@.len() <= t@.len(),
    ensures
        r == matches_at(t@, pat@, i as int),
{
    let n = t.len();
    let m = pat.len();
    let mut k: usize = 0;
    while k < m
        invariant
            n == t@.len(),
            i + m <= t@.len(),
            m == pat@.len(),
            k <= m,
            forall|j: int| 0 <= j < k ==> t@[i + j] == pat@[j],
        decreases m - k,
    {
        proof {
            assert(i + k < t@.len());
        }
        if t[i + k] != pat[k] {
            proof {
                assert(t@.subrange(i as int, i as int + pat@.len() as int)[k as int] == t@[i
                    + k]);
            }
            return false;
        }
        k = k + 1;
    }
    proof {
        assert(t@.subrange(i as int, i as int + pat@.len() as int) =~= pat@);
    }
    true
}

/// Find the first occurrence of the marker bytes in `t`.
fn find_first_marker(t: &[u8], pat: &Vec<u8>) -> (r: Option<usize>)
    requires
        pat@.len() >= 1,
    ensures
        match r {
            Some(i) => is_first_match(t@, pat@, i as int),
            None => !contains_marker(t@, pat@),
        },
{
    let n = t.len();
    let m = pat.len();
    if m > n {
        proof {
            if contains_marker(t@, pat@) {
                let j = choose|j: int| matches_at(t@, pat@, j);
                assert(false);
            }
        }
        return None;
    }
    let mut i: usize = 0;
    while i <= n - m
        invariant
            1 <= m <= n,
            n == t@.len(),
            m == pat@.len(),
            i <= n - m + 1,
            forall|j: int| 0 <= j < i ==> !matches_at(t@, pat@, j),
        decreases n - m + 1 - i,
    {
        if match_at_index(t, pat, i) {
            return Some(i);
        }
        i = i + 1;
    }
    proof {
        if contains_marker(t@, pat@) {
            let j = choose|j: int| matches_at(t@, pat@, j);
            assert(j + pat@.len() <= t@.len());
            assert(false);
        }
    }
    None
}

fn marker_vertcrs_vec() -> (r: Vec<u8>)
    ensures
        r@ == marker_vertcrs(),
{
    let mut v: Vec<u8> = Vec::new();
    v.push(86);
    v.push(69);
    v.push(82);
    v.push(84);
    v.push(67);
    v.push(82);
    v.push(83);
    proof {
        assert(v@ =~= marker_vertcrs());
    }
    v
}

fn marker_verticalcrs_vec() -> (r: Vec<u8>)
    ensures
        r@ == marker_verticalcrs(),
{
    let mut v: Vec<u8> = Vec::new();
    v.push(86);
    v.push(69);
    v.push(82);
    v.push(84);
    v.push(73);
    v.push(67);
    v.push(65);
    v.push(76);
    v.push(67);
    v.push(82);
    v.push(83);
    proof {
        assert(v@ =~= marker_verticalcrs());
    }
    v
}

fn marker_vert_cs_vec() -> (r: Vec<u8>)
    ensures
        r@ == marker_vert_cs(),
{
    let mut v: Vec<u8> = Vec::new();
    v.push(86);
    v.push(69);
    v.push(82);
    v.push(84);
    v.push(95);
    v.push(67);
    v.push(83);
    proof {
        assert(v@ =~= marker_vert_cs());
    }
    v
}

// ------------------------------------------------------------------
// The scanner.
// ------------------------------------------------------------------

/// The horizontal piece of the text and, if a vertical-CRS marker occurs,
/// the vertical piece: the first marker by the fixed priority `VERTCRS`,
/// `VERTICALCRS`, `VERT_CS` splits the text at its first occurrence into
/// everything before it and everything from it onward.
pub open spec fn spec_wkt_pieces(t: Seq<u8>) -> (Seq<u8>, Option<Seq<u8>>) {
    if contains_marker(t, marker_vertcrs()) {
        let i = first_match(t, marker_vertcrs());
        (t.take(i), Some(t.skip(i)))
    } else if contains_marker(t, marker_verticalcrs()) {
        let i = first_match(t, marker_verticalcrs());
        (t.take(i), Some(t.skip(i)))
    } else if contains_marker(t, marker_vert_cs()) {
        let i = first_match(t, marker_vert_cs());
        (t.take(i), Some(t.skip(i)))
    } else {
        (t, None)
    }
}

/// The raw horizontal and vertical codes of a piece of WKT text: the
/// trailing numerals of the two pieces, with 0 for a missing vertical piece.
pub open spec fn spec_wkt_codes(t: Seq<u8>) -> (u16, u16) {
    let pieces = spec_wkt_pieces(t);
    (
        trailing_code(pieces.0),
        match pieces.1 {
            Some(v) => trailing_code(v),
            None => 0,
        },
    )
}

/// What scanning decoded WKT text yields: the raw codes of the two pieces,
/// put through the shared range policy with the vertical always initially
/// present.
pub open spec fn spec_scan_wkt_text(t: Seq<u8>) -> Result<EpsgCRS, ErrorView> {
    let codes = spec_wkt_codes(t);
    spec_normalize_codes(codes.0, Some(codes.1))
}

/// What scanning raw WKT bytes yields: the text is the lossy UTF-8 decoding
/// of the bytes.
pub open spec fn spec_wkt_epsg(bytes: Seq<u8>) -> Result<EpsgCRS, ErrorView> {
    spec_scan_wkt_text(utf8_lossy_of(bytes))
}

/// Scan already-decoded WKT text for EPSG code(s).
///
/// This is the whole scanner except the lossy UTF-8 decoding step: it splits
/// the text at the first vertical-CRS marker and extracts the trailing
/// numeral of each piece.
pub fn get_epsg_from_wkt_text(text: &[u8]) -> (r: Result<EpsgCRS, Error>)
    ensures
        crs_result_view(r) == spec_scan_wkt_text(text@),
{
    let horizontal_end: usize;
    let vertical_start: Option<usize>;

    let m1 = marker_vertcrs_vec();
    match find_first_marker(text, &m1) {
        Some(i) => {
            proof {
                assert(contains_marker(text@, marker_vertcrs())) by {
                    assert(matches_at(text@, marker_vertcrs(), i as int));
                }
                lemma_first_match_unique(text@, marker_vertcrs(), i as int);
            }
            horizontal_end = i;
            vertical_start = Some(i);
        },
        None => {
            let m2 = marker_verticalcrs_vec();
            match find_first_marker(text, &m2) {
                Some(i) => {
                    proof {
                        assert(contains_marker(text@, marker_verticalcrs())) by {
                            assert(matches_at(text@, marker_verticalcrs(), i as int));
                        }
                        lemma_first_match_unique(text@, marker_verticalcrs(), i as int);
                    }
                    horizontal_end = i;
                    vertical_start = Some(i);
                },
                None => {
                    let m3 = marker_vert_cs_vec();
                    match find_first_marker(text, &m3) {
                        Some(i) => {
                            proof {
                                assert(contains_marker(text@, marker_vert_cs())) by {
                                    assert(matches_at(text@, marker_vert_cs(), i as int));
                                }
                                lemma_first_match_unique(text@, marker_vert_cs(), i as int);
                            }
                            horizontal_end = i;
                            vertical_start = Some(i);
                        },
                        None => {
                            horizontal_end = text.len();
                            vertical_start = None;
                        },
                    }
                },
            }
        },
    }

    proof {
        assert(text@.subrange(0, horizontal_end as int) =~= text@.take(horizontal_end as int));
        if vertical_start is None {
            assert(text@.take(text@.len() as int) =~= text@);
        }
    }

    let h_piece = slice_subrange(text, 0, horizontal_end);
    let horizontal_code = trailing_code_exec(h_piece);
    let vertical_code: u16 = match vertical_start {
        Some(i) => {
            proof {
                assert(text@.subrange(i as int, text@.len() as int) =~= text@.skip(i as int));
            }
            let v_piece = slice_subrange(text, i, text.len());
            trailing_code_exec(v_piece)
        },
        None => 0,
    };

    normalize_codes(horizontal_code, Some(vertical_code))
}

/// Try to parse EPSG code(s) from WKT CRS bytes.
///
/// The bytes are decoded as text (lossily, so this never fails outright) and
/// scanned for the EPSG codes at the end of the horizontal and vertical CRS
/// substrings.  This is not a true WKT parser and might return a bad code if
/// the WKT bytes do not look as expected.
pub fn get_epsg_from_wkt_crs_bytes(bytes: &[u8]) -> (r: Result<EpsgCRS, Error>)
    ensures
        crs_result_view(r) == spec_wkt_epsg(bytes@),
{
    let text = utf8_lossy_decode(bytes);
    get_epsg_from_wkt_text(text.as_slice())
}

// ------------------------------------------------------------------
// Laws.
// ------------------------------------------------------------------

/// Law: whenever the trailing numeral of the horizontal piece resolves to 0,
/// the scanner fails with `BadHorizontalCodeParsed` carrying horizontal 0
/// (and whatever raw vertical code was read).
pub proof fn lemma_zero_horizontal_rejected(text: Seq<u8>)
    requires
        spec_wkt_codes(text).0 == 0,
    ensures
        spec_scan_wkt_text(text) == Err::<EpsgCRS, ErrorView>(
            ErrorView::BadHorizontalCodeParsed(
                EpsgCRS { horizontal: 0, vertical: Some(spec_wkt_codes(text).1) },
            ),
        ),
{
}

/// Law: the scanner is a pure function of its input bytes, so re-running it
/// on the same bytes always yields the identical outcome: any two results
/// that meet its contract for equal byte sequences are the same value.
pub proof fn lemma_wkt_scan_repeatable(
    bytes: Seq<u8>,
    r1: Result<EpsgCRS, Error>,
    r2: Result<EpsgCRS, Error>,
)
    requires
        crs_result_view(r1) == spec_wkt_epsg(bytes),
        crs_result_view(r2) == spec_wkt_epsg(bytes),
    ensures
        crs_result_view(r1) == crs_result_view(r2),
{
}

} // verus!
