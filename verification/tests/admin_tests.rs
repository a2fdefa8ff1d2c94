use thepalace::messages::{KillUserMsg, ServerDownMsg, ServerDownReason, SuperUserMsg};

#[test]
fn test_super_user_msg() {
    let msg = SuperUserMsg::new("secret123");

    let mut buf = vec![];
    msg.to_bytes(&mut buf);
    assert!(buf.len() > 0);

    let parsed = SuperUserMsg::from_bytes(&buf[..]).unwrap();
    assert_eq!(parsed.password, "secret123");
}
#[test]
fn test_kill_user_msg() {
    let msg = KillUserMsg::new(12345);

    let mut buf = vec![];
    msg.to_bytes(&mut buf);
    assert_eq!(buf.len(), 4);

    let parsed = KillUserMsg::from_bytes(&buf[..]).unwrap();
    assert_eq!(parsed.target_id, 12345);
}
#[test]
fn test_server_down_reason_conversions() {
    assert_eq!(ServerDownReason::LoggedOff.as_i32(), 1);
    assert_eq!(ServerDownReason::ServerDown.as_i32(), 5);
    assert_eq!(ServerDownReason::Verbose.as_i32(), 16);

    assert_eq!(
        ServerDownReason::from_i32(1),
        Some(ServerDownReason::LoggedOff)
    );
    assert_eq!(
        ServerDownReason::from_i32(5),
        Some(ServerDownReason::ServerDown)
    );
    assert_eq!(ServerDownReason::from_i32(999), None);
}
#[test]
fn test_server_down_msg_simple() {
    let msg = ServerDownMsg::new();
    assert!(!msg.is_verbose());

    let mut buf = vec![];
    msg.to_bytes(&mut buf);
    assert_eq!(buf.len(), 0);

    let parsed = ServerDownMsg::from_bytes(&buf[..]).unwrap();
    assert_eq!(parsed.reason_text, None);
}
#[test]
fn test_server_down_msg_verbose() {
    let msg = ServerDownMsg::with_reason("Server maintenance in progress");
    assert!(msg.is_verbose());

    let mut buf = vec![];
    msg.to_bytes(&mut buf);
    assert!(buf.len() > 0);

    let parsed = ServerDownMsg::from_bytes(&buf[..]).unwrap();
    assert_eq!(
        parsed.reason_text.as_deref(),
        Some("Server maintenance in progress")
    );
}