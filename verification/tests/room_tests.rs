use thepalace::room::{HotspotState, HotspotType};

#[test]
fn test_hotspot_type() {
    assert_eq!(HotspotType::Normal.as_i16(), 0);
    assert_eq!(HotspotType::Door.as_i16(), 1);
    assert_eq!(HotspotType::NavArea.as_i16(), 5);

    assert_eq!(HotspotType::from_i16(0), Some(HotspotType::Normal));
    assert_eq!(HotspotType::from_i16(3), Some(HotspotType::LockableDoor));
    assert_eq!(HotspotType::from_i16(99), None);
}
#[test]
fn test_hotspot_is_door() {
    assert!(!HotspotType::Normal.is_door());
    assert!(HotspotType::Door.is_door());
    assert!(HotspotType::ShutableDoor.is_door());
    assert!(HotspotType::LockableDoor.is_door());
    assert!(!HotspotType::Bolt.is_door());
    assert!(!HotspotType::NavArea.is_door());
}
#[test]
fn test_hotspot_state() {
    assert_eq!(HotspotState::Unlocked.as_i16(), 0);
    assert_eq!(HotspotState::Locked.as_i16(), 1);

    assert_eq!(HotspotState::from_i16(0), Some(HotspotState::Unlocked));
    assert_eq!(HotspotState::from_i16(1), Some(HotspotState::Locked));
    assert_eq!(HotspotState::from_i16(2), None);
}