use thepalace::messages::{AuxRegistrationRec, LogonMsg, TiyidMsg};

#[test]
fn test_tiyid_msg() {
    let msg = TiyidMsg::new();
    assert_eq!(msg, TiyidMsg::default());
}
#[test]
fn test_aux_registration_rec_guest() {
    let rec = AuxRegistrationRec::new_guest("TestUser", 100);
    assert_eq!(rec.user_name, "TestUser");
    assert_eq!(rec.desired_room, 100);
    assert_eq!(rec.crc, 0);
    assert_eq!(rec.counter, 0);
}
#[test]
fn test_aux_registration_rec_registered() {
    let rec = AuxRegistrationRec::new_registered("TestUser", 0x12345678, 42, 100);
    assert_eq!(rec.user_name, "TestUser");
    assert_eq!(rec.desired_room, 100);
    assert_eq!(rec.crc, 0x12345678);
    assert_eq!(rec.counter, 42);
}
#[test]
fn test_aux_registration_rec_roundtrip() {
    let rec = AuxRegistrationRec::new_registered("Alice", 0xABCDEF12, 999, 5);

    let mut buf = Vec::<u8>::new();
    rec.to_bytes(&mut buf);

    assert_eq!(buf.len(), AuxRegistrationRec::SIZE);

    let read_buf = buf;
    let rec2 = AuxRegistrationRec::from_bytes(&read_buf).unwrap();

    assert_eq!(rec, rec2);
}
#[test]
fn test_logon_msg_guest() {
    let msg = LogonMsg::guest("Bob", 42);
    assert_eq!(msg.rec.user_name, "Bob");
    assert_eq!(msg.rec.desired_room, 42);
    assert_eq!(msg.rec.crc, 0);
}
#[test]
fn test_logon_msg_registered() {
    let msg = LogonMsg::registered("Charlie", 0x11223344, 555, 10);
    assert_eq!(msg.rec.user_name, "Charlie");
    assert_eq!(msg.rec.desired_room, 10);
    assert_eq!(msg.rec.crc, 0x11223344);
    assert_eq!(msg.rec.counter, 555);
}
#[test]
fn test_logon_msg_roundtrip() {
    let msg = LogonMsg::guest("TestUser", 1);

    let mut buf = Vec::<u8>::new();
    msg.to_bytes(&mut buf);

    let read_buf = buf;
    let msg2 = LogonMsg::from_bytes(&read_buf).unwrap();

    assert_eq!(msg, msg2);
}
