use thepalace::asset_types::RT_PROP;
use thepalace::{AssetSpec, Point};

#[test]
fn test_point_creation() {
    let p = Point::new(100, 200);
    assert_eq!(p.h, 100);
    assert_eq!(p.v, 200);
}
#[test]
fn test_point_origin() {
    let origin = Point::origin();
    assert_eq!(origin.h, 0);
    assert_eq!(origin.v, 0);
}
#[test]
fn test_point_add() {
    let p1 = Point::new(10, 20);
    let p2 = Point::new(5, 15);
    let result = p1.add(&p2);
    assert_eq!(result.h, 15);
    assert_eq!(result.v, 35);
}
#[test]
fn test_asset_spec() {
    let spec = AssetSpec::new(123, 0xA95ADE76);
    assert_eq!(spec.id, 123);
    assert_eq!(spec.crc, 0xA95ADE76);
    assert!(!spec.crc_is_dont_care());
}
#[test]
fn test_asset_spec_dont_care() {
    let spec = AssetSpec::new(123, 0);
    assert!(spec.crc_is_dont_care());
}
#[test]
fn test_asset_types() {
    
    // Verify 4-char ASCII codes
    assert_eq!(RT_PROP, 0x50726f70);
    
    // Can convert back to string for debugging
    let bytes = RT_PROP.to_be_bytes();
    assert_eq!(&bytes, b"Prop");
}