use las_crs::{Error, EpsgCRS};

#[test]
fn new_accepts_in_range_pairs() {
    let crs = EpsgCRS::new(2992, Some(6360)).expect("both codes are in range");
    assert_eq!(crs.get_horizontal(), 2992);
    assert_eq!(crs.get_vertical(), Some(6360));

    let crs = EpsgCRS::new(1024, None).expect("lower bound is in range");
    assert_eq!(crs.get_horizontal(), 1024);
    assert_eq!(crs.get_vertical(), None);

    let crs = EpsgCRS::new(32767, Some(32767)).expect("upper bound is in range");
    assert_eq!(crs.get_horizontal(), 32767);
    assert_eq!(crs.get_vertical(), Some(32767));
}

#[test]
fn new_rejects_out_of_range_horizontal() {
    for h in [0u16, 1023, 32768, 65535] {
        assert_eq!(EpsgCRS::new(h, None), Err(Error::BadEPSGCrs));
        assert_eq!(EpsgCRS::new(h, Some(2000)), Err(Error::BadEPSGCrs));
        assert_eq!(EpsgCRS::new(h, Some(40000)), Err(Error::BadEPSGCrs));
    }
}

#[test]
fn new_rejects_out_of_range_vertical() {
    assert_eq!(EpsgCRS::new(2992, Some(0)), Err(Error::BadEPSGCrs));
    assert_eq!(EpsgCRS::new(2992, Some(1023)), Err(Error::BadEPSGCrs));
    assert_eq!(EpsgCRS::new(2992, Some(32768)), Err(Error::BadEPSGCrs));
}

#[test]
fn new_unchecked_takes_anything() {
    let crs = EpsgCRS::new_unchecked(0, Some(65535));
    assert_eq!(crs.get_horizontal(), 0);
    assert_eq!(crs.get_vertical(), Some(65535));
    assert!(!crs.in_epsg_range());

    let crs = EpsgCRS::new_unchecked(25832, Some(5941));
    assert!(crs.in_epsg_range());
}

#[test]
fn checked_setters_validate_in_isolation() {
    let mut crs = EpsgCRS::new(2992, Some(6360)).unwrap();

    assert_eq!(crs.set_horizontal(25832), Ok(()));
    assert_eq!(crs.get_horizontal(), 25832);
    assert_eq!(crs.get_vertical(), Some(6360));

    assert_eq!(crs.set_horizontal(500), Err(Error::SetBadCode(500)));
    assert_eq!(crs.get_horizontal(), 25832);

    assert_eq!(crs.set_vertical(5941), Ok(()));
    assert_eq!(crs.get_vertical(), Some(5941));

    assert_eq!(crs.set_vertical(65000), Err(Error::SetBadCode(65000)));
    assert_eq!(crs.get_vertical(), Some(5941));
}

#[test]
fn unchecked_setters_always_write() {
    let mut crs = EpsgCRS::new(2992, None).unwrap();

    crs.set_horizontal_unchecked(3);
    assert_eq!(crs.get_horizontal(), 3);

    // The unchecked vertical setter always wraps the code into "present".
    crs.set_vertical_unchecked(60000);
    assert_eq!(crs.get_vertical(), Some(60000));
    assert!(!crs.in_epsg_range());
}
