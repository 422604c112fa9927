use las_crs::{
    decode_geotiff_key_directory, get_epsg_from_geotiff_crs, Error, GeoTiffCrs, GeoTiffData,
    GeoTiffKeyEntry,
};

/// Build a key-directory buffer: the four header fields, then one
/// (id, location, count, offset) quadruple per entry, all little-endian.
fn directory(entries: &[(u16, u16, u16, u16)]) -> Vec<u8> {
    let mut bytes = Vec::new();
    for field in [1u16, 1, 0, entries.len() as u16] {
        bytes.extend_from_slice(&field.to_le_bytes());
    }
    for (id, location, count, offset) in entries {
        for field in [*id, *location, *count, *offset] {
            bytes.extend_from_slice(&field.to_le_bytes());
        }
    }
    bytes
}

fn inline(id: u16, value: u16) -> GeoTiffKeyEntry {
    GeoTiffKeyEntry {
        id,
        data: GeoTiffData::U16(value),
    }
}

#[test]
fn decode_and_reduce_inline_directory() {
    let dir = directory(&[(1024, 0, 1, 1), (2048, 0, 1, 25832), (4096, 0, 1, 5941)]);
    let decoded = decode_geotiff_key_directory(&dir, None, None).expect("inline entries decode");
    assert_eq!(decoded.entries.len(), 3);
    assert_eq!(decoded.entries[1].id, 2048);
    assert_eq!(decoded.entries[1].data, GeoTiffData::U16(25832));

    let crs = get_epsg_from_geotiff_crs(&decoded).expect("codes are in range");
    assert_eq!(crs.get_horizontal(), 25832);
    assert_eq!(crs.get_vertical(), Some(5941));
}

#[test]
fn user_defined_model_type_fails() {
    let crs = GeoTiffCrs {
        entries: vec![inline(1024, 32767), inline(2048, 25832)],
    };
    assert_eq!(get_epsg_from_geotiff_crs(&crs), Err(Error::UserDefinedCrs));
}

#[test]
fn zero_model_type_fails_as_unreadable() {
    let crs = GeoTiffCrs {
        entries: vec![inline(1024, 0), inline(2048, 25832)],
    };
    assert_eq!(get_epsg_from_geotiff_crs(&crs), Err(Error::UnreadableGeoTiffCrs));
}

#[test]
fn unknown_model_type_value_carries_payload() {
    let crs = GeoTiffCrs {
        entries: vec![inline(1024, 5)],
    };
    assert_eq!(
        get_epsg_from_geotiff_crs(&crs),
        Err(Error::UnimplementedForGeoTiffStringAndDoubleData(
            GeoTiffData::U16(5)
        ))
    );
}

#[test]
fn non_inline_model_type_carries_payload() {
    let crs = GeoTiffCrs {
        entries: vec![GeoTiffKeyEntry {
            id: 1024,
            data: GeoTiffData::Ascii(b"projected".to_vec()),
        }],
    };
    assert_eq!(
        get_epsg_from_geotiff_crs(&crs),
        Err(Error::UnimplementedForGeoTiffStringAndDoubleData(
            GeoTiffData::Ascii(b"projected".to_vec())
        ))
    );
}

#[test]
fn missing_double_buffer_fails() {
    let dir = directory(&[(2062, 34736, 2, 0)]);
    assert_eq!(
        decode_geotiff_key_directory(&dir, None, None),
        Err(Error::UnreadableGeoTiffCrs)
    );
}

#[test]
fn doubles_are_read_by_element_index() {
    let mut doubles = Vec::new();
    for value in [1.5f64, 2.5, -3.25] {
        doubles.extend_from_slice(&value.to_le_bytes());
    }
    let dir = directory(&[(2062, 34736, 2, 1)]);
    let decoded = decode_geotiff_key_directory(&dir, Some(&doubles), None).unwrap();
    assert_eq!(
        decoded.entries[0].data,
        GeoTiffData::Doubles(vec![2.5f64.to_bits(), (-3.25f64).to_bits()])
    );
}

#[test]
fn double_read_past_buffer_end_fails() {
    let doubles = [0u8; 16];
    let dir = directory(&[(2062, 34736, 2, 1)]);
    assert_eq!(
        decode_geotiff_key_directory(&dir, Some(&doubles), None),
        Err(Error::UnreadableGeoTiffCrs)
    );
}

#[test]
fn missing_text_buffer_fails() {
    let dir = directory(&[(1026, 34737, 4, 0)]);
    assert_eq!(
        decode_geotiff_key_directory(&dir, None, None),
        Err(Error::UnreadableGeoTiffCrs)
    );
}

#[test]
fn text_is_read_by_byte_offset() {
    let citation = b"EPSG Citation|";
    let dir = directory(&[(1026, 34737, 4, 5)]);
    let decoded = decode_geotiff_key_directory(&dir, None, Some(citation)).unwrap();
    assert_eq!(
        decoded.entries[0].data,
        GeoTiffData::Ascii(b"Cita".to_vec())
    );
}

#[test]
fn undefined_location_tag_names_the_key() {
    let dir = directory(&[(3001, 7, 1, 0)]);
    assert_eq!(
        decode_geotiff_key_directory(&dir, None, None),
        Err(Error::UndefinedDataForGeoTiffKey(3001))
    );
}

#[test]
fn header_version_fields_are_not_validated() {
    let mut dir = directory(&[(1024, 0, 1, 1), (3072, 0, 1, 3857)]);
    // Overwrite version, revision and minor with unconventional values.
    dir[0] = 42;
    dir[2] = 9;
    dir[4] = 7;
    let decoded = decode_geotiff_key_directory(&dir, None, None).unwrap();
    let crs = get_epsg_from_geotiff_crs(&decoded).unwrap();
    assert_eq!(crs.get_horizontal(), 3857);
}

#[test]
fn truncated_directory_fails() {
    let mut dir = directory(&[(1024, 0, 1, 1), (3072, 0, 1, 3857)]);
    dir.truncate(dir.len() - 3);
    assert_eq!(
        decode_geotiff_key_directory(&dir, None, None),
        Err(Error::UnreadableGeoTiffCrs)
    );
    assert_eq!(
        decode_geotiff_key_directory(&[0u8; 5], None, None),
        Err(Error::UnreadableGeoTiffCrs)
    );
}

#[test]
fn later_horizontal_key_wins() {
    let crs = GeoTiffCrs {
        entries: vec![inline(1024, 2), inline(2048, 4258), inline(3072, 3857)],
    };
    let code = get_epsg_from_geotiff_crs(&crs).unwrap();
    assert_eq!(code.get_horizontal(), 3857);
}

#[test]
fn missing_horizontal_key_is_unreadable() {
    let crs = GeoTiffCrs {
        entries: vec![inline(1024, 2), inline(4096, 5941)],
    };
    assert_eq!(get_epsg_from_geotiff_crs(&crs), Err(Error::UnreadableGeoTiffCrs));
}

#[test]
fn out_of_range_horizontal_is_reported_with_the_pair() {
    let crs = GeoTiffCrs {
        entries: vec![inline(1024, 1), inline(3072, 40000), inline(4096, 5941)],
    };
    match get_epsg_from_geotiff_crs(&crs) {
        Err(Error::BadHorizontalCodeParsed(pair)) => {
            assert_eq!(pair.get_horizontal(), 40000);
            assert_eq!(pair.get_vertical(), Some(5941));
        }
        other => panic!("expected BadHorizontalCodeParsed, got {:?}", other),
    }
}

#[test]
fn out_of_range_vertical_is_dropped() {
    let crs = GeoTiffCrs {
        entries: vec![inline(1024, 1), inline(3072, 25832), inline(4096, 100)],
    };
    let code = get_epsg_from_geotiff_crs(&crs).unwrap();
    assert_eq!(code.get_horizontal(), 25832);
    assert_eq!(code.get_vertical(), None);
}

#[test]
fn ignored_keys_do_not_disturb_extraction() {
    let crs = GeoTiffCrs {
        entries: vec![
            inline(1024, 1),
            inline(1025, 1),
            inline(3076, 9001),
            inline(3072, 25832),
        ],
    };
    let code = get_epsg_from_geotiff_crs(&crs).unwrap();
    assert_eq!(code.get_horizontal(), 25832);
    assert_eq!(code.get_vertical(), None);
}

#[test]
fn decoding_twice_gives_identical_results() {
    let mut doubles = Vec::new();
    for value in [0.5f64, 99.75] {
        doubles.extend_from_slice(&value.to_le_bytes());
    }
    let text = b"some citation";
    let dir = directory(&[
        (1024, 0, 1, 1),
        (1026, 34737, 4, 0),
        (2062, 34736, 1, 1),
        (3072, 0, 1, 25832),
    ]);
    let first = decode_geotiff_key_directory(&dir, Some(&doubles), Some(text));
    let second = decode_geotiff_key_directory(&dir, Some(&doubles), Some(text));
    assert_eq!(first, second);

    let decoded = first.unwrap();
    assert_eq!(
        get_epsg_from_geotiff_crs(&decoded),
        get_epsg_from_geotiff_crs(&decoded)
    );
}
