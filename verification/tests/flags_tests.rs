use thepalace::messages::flags::{AuxFlags, DownloadCaps, Graphics2DCaps, PropFlags, PropFormat, RoomFlags, ScriptEventFlags, ServerFlags, UploadCaps, UserFlags};

#[test]
fn test_user_flags() {
    let mut flags = UserFlags::GUEST();
    assert!(flags.contains(UserFlags::GUEST()));
    assert!(!flags.contains(UserFlags::SUPERUSER()));

    flags |= UserFlags::GAG();
    assert!(flags.contains(UserFlags::GUEST()));
    assert!(flags.contains(UserFlags::GAG()));
}
#[test]
fn flags_test_room_flags() {
    let flags = RoomFlags::WIZARDS_ONLY() | RoomFlags::NO_GUESTS();
    assert!(flags.contains(RoomFlags::WIZARDS_ONLY()));
    assert!(flags.contains(RoomFlags::NO_GUESTS()));
    assert!(!flags.contains(RoomFlags::PRIVATE()));
}
#[test]
fn test_prop_format() {
    let flags_8bit = PropFlags::FORMAT_8BIT() | PropFlags::HEAD();
    assert_eq!(flags_8bit.format(), PropFormat::Indexed8);

    let flags_32bit = PropFlags::FORMAT_32BIT() | PropFlags::ANIMATE();
    assert_eq!(flags_32bit.format(), PropFormat::Rgb32);
}
#[test]
fn test_server_flags() {
    let flags = ServerFlags::CLOSED_SERVER() | ServerFlags::ALLOW_CYBORGS();
    assert!(flags.contains(ServerFlags::CLOSED_SERVER()));
    assert!(flags.contains(ServerFlags::ALLOW_CYBORGS()));
    assert!(!flags.contains(ServerFlags::INSTANT_PALACE()));
}
#[test]
fn test_script_event_flags() {
    let events = ScriptEventFlags::SELECT() | ScriptEventFlags::ENTER() | ScriptEventFlags::LEAVE();
    assert!(events.contains(ScriptEventFlags::SELECT()));
    assert!(events.contains(ScriptEventFlags::ENTER()));
    assert!(!events.contains(ScriptEventFlags::ALARM()));
}
#[test]
fn test_aux_flags() {
    let flags = AuxFlags::WIN32() | AuxFlags::AUTHENTICATE();
    assert!(flags.contains(AuxFlags::AUTHENTICATE()));
    assert!(flags.intersects(AuxFlags::OS_MASK()));
}
#[test]
fn test_upload_caps() {
    let caps = UploadCaps::ASSETS_PALACE() | UploadCaps::FILES_HTTP();
    assert!(caps.contains(UploadCaps::ASSETS_PALACE()));
    assert!(caps.contains(UploadCaps::FILES_HTTP()));
    assert!(!caps.contains(UploadCaps::EXTEND_PKT()));
}
#[test]
fn test_download_caps() {
    let caps = DownloadCaps::FILES_HTTP_SERVER() | DownloadCaps::ASSETS_PALACE();
    assert!(caps.contains(DownloadCaps::FILES_HTTP_SERVER()));
    assert!(caps.contains(DownloadCaps::ASSETS_PALACE()));
}
#[test]
fn test_graphics_2d_caps() {
    let caps = Graphics2DCaps::GIF89A() | Graphics2DCaps::JPG() | Graphics2DCaps::BMP();
    assert!(caps.contains(Graphics2DCaps::GIF89A()));
    assert!(caps.contains(Graphics2DCaps::JPG()));
    assert!(!caps.contains(Graphics2DCaps::TIFF()));
}