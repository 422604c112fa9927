use las_crs::{
    decode_geotiff_key_directory, extract_epsg, CrsSource, Error, GeoTiffCrs, GeoTiffData,
    GeoTiffKeyEntry, ParseEpsgCRS,
};

fn geotiff_25832() -> GeoTiffCrs {
    GeoTiffCrs {
        entries: vec![
            GeoTiffKeyEntry {
                id: 1024,
                data: GeoTiffData::U16(1),
            },
            GeoTiffKeyEntry {
                id: 3072,
                data: GeoTiffData::U16(25832),
            },
            GeoTiffKeyEntry {
                id: 4096,
                data: GeoTiffData::U16(5941),
            },
        ],
    }
}

#[test]
fn wkt_takes_precedence_over_geotiff() {
    let source = CrsSource {
        has_declared_wkt_crs: true,
        wkt_crs_bytes: Some(br#"PROJCS["x",AUTHORITY["EPSG","2992"]]"#.to_vec()),
        geotiff_crs: Ok(Some(geotiff_25832())),
    };
    let crs = extract_epsg(&source).unwrap().expect("WKT bytes are present");
    assert_eq!(crs.get_horizontal(), 2992);
    assert_eq!(crs.get_vertical(), None);
}

#[test]
fn wkt_failure_wins_even_with_good_geotiff_data() {
    // With WKT bytes present the GeoTIFF directory is ignored entirely,
    // even when scanning the WKT fails and the directory would have worked.
    let source = CrsSource {
        has_declared_wkt_crs: true,
        wkt_crs_bytes: Some(b"no code in here".to_vec()),
        geotiff_crs: Ok(Some(geotiff_25832())),
    };
    match extract_epsg(&source) {
        Err(Error::BadHorizontalCodeParsed(pair)) => assert_eq!(pair.get_horizontal(), 0),
        other => panic!("expected BadHorizontalCodeParsed, got {:?}", other),
    }
}

#[test]
fn geotiff_is_used_when_no_wkt_is_present() {
    let source = CrsSource {
        has_declared_wkt_crs: true,
        wkt_crs_bytes: None,
        geotiff_crs: Ok(Some(geotiff_25832())),
    };
    let crs = extract_epsg(&source).unwrap().unwrap();
    assert_eq!(crs.get_horizontal(), 25832);
    assert_eq!(crs.get_vertical(), Some(5941));
}

#[test]
fn neither_encoding_is_absence_not_an_error() {
    let source = CrsSource {
        has_declared_wkt_crs: true,
        wkt_crs_bytes: None,
        geotiff_crs: Ok(None),
    };
    assert_eq!(extract_epsg(&source), Ok(None));
}

#[test]
fn collaborator_failure_is_passed_through() {
    let source = CrsSource {
        has_declared_wkt_crs: false,
        wkt_crs_bytes: None,
        geotiff_crs: Err(Error::CollaboratorError("record data ended early".to_string())),
    };
    assert_eq!(
        extract_epsg(&source),
        Err(Error::CollaboratorError("record data ended early".to_string()))
    );
}

#[test]
fn trait_method_agrees_with_the_free_function() {
    let dir_bytes = {
        let mut bytes = Vec::new();
        for field in [1u16, 1, 0, 2, 1024, 0, 1, 1, 3072, 0, 1, 3857] {
            bytes.extend_from_slice(&field.to_le_bytes());
        }
        bytes
    };
    let source = CrsSource {
        has_declared_wkt_crs: false,
        wkt_crs_bytes: None,
        geotiff_crs: decode_geotiff_key_directory(&dir_bytes, None, None).map(Some),
    };
    assert_eq!(source.get_epsg_crs(), extract_epsg(&source));
    let crs = source.get_epsg_crs().unwrap().unwrap();
    assert_eq!(crs.get_horizontal(), 3857);
}
