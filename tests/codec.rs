use lasercube::{LaserdockSample, XY, XY_MAX};

#[test]
fn flip_mirrors_the_axis() {
    assert_eq!(XY(0).flip(), XY(4095));
    assert_eq!(XY(4095).flip(), XY(0));
    assert_eq!(XY(100).flip(), XY(3995));
    assert_eq!(XY(2047).flip(), XY(2048));
}

#[test]
fn flip_twice_is_identity() {
    for v in [0u16, 1, 1000, 2047, 4094, XY_MAX] {
        assert_eq!(XY(v).flip().flip(), XY(v));
    }
}

#[test]
fn new_xy_packs_color_channels() {
    let s = LaserdockSample::new_xy(0x12, 0x34, 0x56, XY(7), XY(4095));
    assert_eq!(s.rg(), 0x3412);
    assert_eq!(s.b(), 0x0056);
    assert_eq!(s.x(), XY(7));
    assert_eq!(s.y(), XY(4095));
}

#[test]
fn new_xy_full_channels() {
    let s = LaserdockSample::new_xy(255, 255, 255, XY(0), XY(0));
    assert_eq!(s.rg(), 0xffff);
    assert_eq!(s.b(), 0x00ff);
}

#[test]
fn blank_iff_both_color_fields_zero() {
    assert!(LaserdockSample::new_xy(0, 0, 0, XY(10), XY(20)).is_blank());
    assert!(!LaserdockSample::new_xy(1, 0, 0, XY(10), XY(20)).is_blank());
    assert!(!LaserdockSample::new_xy(0, 1, 0, XY(10), XY(20)).is_blank());
    assert!(!LaserdockSample::new_xy(0, 0, 1, XY(10), XY(20)).is_blank());
}

#[test]
fn blanked_keeps_position_and_clears_color() {
    let s = LaserdockSample::new_xy(10, 20, 30, XY(1234), XY(4000));
    let b = s.blanked();
    assert!(b.is_blank());
    assert_eq!(b.rg(), 0);
    assert_eq!(b.b(), 0);
    assert_eq!(b.x(), XY(1234));
    assert_eq!(b.y(), XY(4000));
    assert!(!s.is_blank());
}

#[test]
fn to_bytes_is_little_endian_record() {
    let s = LaserdockSample::new_xy(0x01, 0x02, 0x03, XY(0x0456), XY(0x0789));
    assert_eq!(s.to_bytes(), [0x01, 0x02, 0x03, 0x00, 0x56, 0x04, 0x89, 0x07]);
}

#[test]
fn to_bytes_extremes() {
    let s = LaserdockSample::new_xy(255, 255, 255, XY(4095), XY(0));
    assert_eq!(s.to_bytes(), [0xff, 0xff, 0xff, 0x00, 0xff, 0x0f, 0x00, 0x00]);
}

#[test]
fn from_bytes_round_trips() {
    let s = LaserdockSample::new_xy(9, 8, 7, XY(2047), XY(2048));
    assert_eq!(LaserdockSample::from_bytes(&s.to_bytes()), Some(s));
    let bytes = [0x10, 0x20, 0x30, 0x00, 0x00, 0x08, 0xff, 0x0f];
    let d = LaserdockSample::from_bytes(&bytes).unwrap();
    assert_eq!(d.rg(), 0x2010);
    assert_eq!(d.b(), 0x30);
    assert_eq!(d.x(), XY(0x800));
    assert_eq!(d.y(), XY(0xfff));
    assert_eq!(d.to_bytes(), bytes);
}

#[test]
fn from_bytes_rejects_out_of_range_fields() {
    // blue field with a nonzero high byte
    assert_eq!(LaserdockSample::from_bytes(&[0, 0, 0, 1, 0, 0, 0, 0]), None);
    // x above 4095
    assert_eq!(LaserdockSample::from_bytes(&[0, 0, 0, 0, 0x00, 0x10, 0, 0]), None);
    // y above 4095
    assert_eq!(LaserdockSample::from_bytes(&[0, 0, 0, 0, 0, 0, 0xff, 0xff]), None);
}
