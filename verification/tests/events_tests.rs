use thepalace::iptscrae::{EventMask, EventType};

#[test]
fn test_event_mask_values() {
    assert_eq!(EventMask::SELECT().bits(), 0x00000001);
    assert_eq!(EventMask::ENTER().bits(), 0x00000400);
    assert_eq!(EventMask::LEAVE().bits(), 0x00000800);
}
#[test]
fn test_event_mask_operations() {
    let mask = EventMask::SELECT() | EventMask::ENTER() | EventMask::LEAVE();
    assert!(mask.contains(EventMask::SELECT()));
    assert!(mask.contains(EventMask::ENTER()));
    assert!(mask.contains(EventMask::LEAVE()));
    assert!(!mask.contains(EventMask::LOCK()));
}
#[test]
fn test_event_mask_empty() {
    let mask = EventMask::empty();
    assert!(!mask.contains(EventMask::SELECT()));
    assert_eq!(mask.bits(), 0);
}
#[test]
fn test_event_mask_all() {
    let mask = EventMask::all();
    assert!(mask.contains(EventMask::SELECT()));
    assert!(mask.contains(EventMask::ENTER()));
    assert!(mask.contains(EventMask::MACRO9()));
}
#[test]
fn test_event_to_mask() {
    assert_eq!(EventType::Select.to_mask(), EventMask::SELECT());
    assert_eq!(EventType::Enter.to_mask(), EventMask::ENTER());
    assert_eq!(EventType::Leave.to_mask(), EventMask::LEAVE());
}
#[test]
fn test_event_from_name() {
    assert_eq!(EventType::from_name("SELECT"), Some(EventType::Select));
    assert_eq!(EventType::from_name("select"), Some(EventType::Select));
    assert_eq!(EventType::from_name("ENTER"), Some(EventType::Enter));
    assert_eq!(EventType::from_name("invalid"), None);
}
#[test]
fn test_event_name() {
    assert_eq!(EventType::Select.name(), "SELECT");
    assert_eq!(EventType::Enter.name(), "ENTER");
    assert_eq!(EventType::Macro5.name(), "MACRO5");
}
#[test]
fn test_event_mask_default() {
    let mask = EventMask::default();
    assert!(mask.is_empty());
}
#[test]
fn test_event_mask_from_bits() {
    let mask = EventMask::from_bits(0x0007).unwrap();
    assert!(mask.contains(EventMask::SELECT()));
    assert!(mask.contains(EventMask::LOCK()));
    assert!(mask.contains(EventMask::UNLOCK()));
    assert!(!mask.contains(EventMask::HIDE()));
}
#[test]
fn test_event_mask_intersection() {
    let mask1 = EventMask::SELECT() | EventMask::ENTER() | EventMask::LEAVE();
    let mask2 = EventMask::ENTER() | EventMask::LEAVE() | EventMask::LOCK();
    let intersection = mask1 & mask2;
    assert!(!intersection.contains(EventMask::SELECT()));
    assert!(intersection.contains(EventMask::ENTER()));
    assert!(intersection.contains(EventMask::LEAVE()));
    assert!(!intersection.contains(EventMask::LOCK()));
}
#[test]
fn test_event_mask_i32_conversion() {
    // Test Into<i32> and From<i32>
    let mask = EventMask::SELECT() | EventMask::ENTER() | EventMask::LEAVE();
    let i32_value: i32 = mask.into();
    assert_eq!(i32_value, 0x0C01); // 0x0001 | 0x0400 | 0x0800

    let mask2: EventMask = i32_value.into();
    assert_eq!(mask, mask2);
}
#[test]
fn test_event_mask_from_trait() {
    // Test From<i32> trait
    let mask: EventMask = 0x0007i32.into(); // SELECT | LOCK | UNLOCK
    assert!(mask.contains(EventMask::SELECT()));
    assert!(mask.contains(EventMask::LOCK()));
    assert!(mask.contains(EventMask::UNLOCK()));

    // Test Into<i32> trait
    let value: i32 = mask.into();
    assert_eq!(value, 0x0007);
}
#[test]
fn test_event_mask_protocol_example() {
    // Test the example from room/records.rs: 0x0007 = SELECT | LOCK | UNLOCK
    let mask: EventMask = 0x0007i32.into();
    assert!(mask.contains(EventMask::SELECT()));
    assert!(mask.contains(EventMask::LOCK()));
    assert!(mask.contains(EventMask::UNLOCK()));
    assert!(!mask.contains(EventMask::HIDE()));
}