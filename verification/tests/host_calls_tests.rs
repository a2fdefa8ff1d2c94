use thepalace::iptscrae::builtins::execute_palace_builtin;
use thepalace::iptscrae::{ScriptActions, ScriptContext, SecurityLevel, Value, Vm, VmError};
use thepalace::messages::flags::PropFlags;
use thepalace::messages::{AltLogonReplyMsg, AuxRegistrationRec, LogonMsg};
use thepalace::prop::{check_encode, EncodeRefusal};
use thepalace::AssetSpec;

#[derive(Default)]
struct Recorder {
    calls: Vec<String>,
}

impl ScriptActions for Recorder {
    fn say(&mut self, message: &str) { self.calls.push(format!("say {}", message)); }
    fn chat(&mut self, message: &str) { self.calls.push(format!("chat {}", message)); }
    fn local_msg(&mut self, message: &str) { self.calls.push(format!("local_msg {}", message)); }
    fn room_msg(&mut self, message: &str) { self.calls.push(format!("room_msg {}", message)); }
    fn private_msg(&mut self, user_id: i32, message: &str) { self.calls.push(format!("private_msg {} {}", user_id, message)); }
    fn goto_room(&mut self, room_id: i16) { self.calls.push(format!("goto_room {}", room_id)); }
    fn lock_door(&mut self, door_id: i32) { self.calls.push(format!("lock_door {}", door_id)); }
    fn unlock_door(&mut self, door_id: i32) { self.calls.push(format!("unlock_door {}", door_id)); }
    fn set_face(&mut self, face_id: i16) { self.calls.push(format!("set_face {}", face_id)); }
    fn set_color(&mut self, color: i16) { self.calls.push(format!("set_color {}", color)); }
    fn set_props(&mut self, props: Vec<AssetSpec>) {
        let parts: Vec<String> = props.iter().map(|p| format!("{}/{}", p.id, p.crc)).collect();
        self.calls.push(format!("set_props {}", parts.join(",")));
    }
    fn set_pos(&mut self, x: i16, y: i16) { self.calls.push(format!("set_pos {} {}", x, y)); }
    fn move_user(&mut self, dx: i16, dy: i16) { self.calls.push(format!("move_user {} {}", dx, dy)); }
    fn goto_url(&mut self, url: &str) { self.calls.push(format!("goto_url {}", url)); }
    fn goto_url_frame(&mut self, url: &str, frame: &str) { self.calls.push(format!("goto_url_frame {} {}", url, frame)); }
    fn global_msg(&mut self, message: &str) { self.calls.push(format!("global_msg {}", message)); }
    fn status_msg(&mut self, message: &str) { self.calls.push(format!("status_msg {}", message)); }
    fn superuser_msg(&mut self, message: &str) { self.calls.push(format!("superuser_msg {}", message)); }
    fn log_msg(&mut self, message: &str) { self.calls.push(format!("log_msg {}", message)); }
    fn set_spot_state(&mut self, spot_id: i32, state: i32) { self.calls.push(format!("set_spot_state {} {}", spot_id, state)); }
    fn add_loose_prop(&mut self, prop_id: i32, x: i16, y: i16) { self.calls.push(format!("add_loose_prop {} {} {}", prop_id, x, y)); }
    fn clear_loose_props(&mut self) { self.calls.push("clear_loose_props".to_string()); }
    fn play_sound(&mut self, sound_id: i32) { self.calls.push(format!("play_sound {}", sound_id)); }
    fn play_midi(&mut self, midi_id: i32) { self.calls.push(format!("play_midi {}", midi_id)); }
    fn stop_midi(&mut self) { self.calls.push("stop_midi".to_string()); }
    fn beep(&mut self) { self.calls.push("beep".to_string()); }
    fn launch_app(&mut self, url: &str) { self.calls.push(format!("launch_app {}", url)); }
}

fn run(level: SecurityLevel, props: Vec<AssetSpec>, stack: Vec<Value>, name: &str) -> (Result<(), VmError>, Vec<Value>, Vec<String>) {
    let mut rec = Recorder::default();
    let mut vm = Vm::new();
    for v in stack {
        vm.push(v);
    }
    let r = {
        let mut ctx = ScriptContext::new(level, &mut rec);
        ctx.user_props = props;
        execute_palace_builtin(&mut vm, name, Some(&mut ctx))
    };
    let rest: Vec<Value> = vm.stack().iter().map(|v| v.clone()).collect();
    (r, rest, rec.calls)
}

#[test]
fn host_setprops_calls_set_props_in_pop_order() {
    let stack = vec![Value::Integer(11111), Value::Integer(300), Value::Integer(22222), Value::Integer(400), Value::Integer(2)];
    let (r, rest, calls) = run(SecurityLevel::Server, vec![], stack, "SETPROPS");
    assert_eq!(r, Ok(()));
    assert!(rest.is_empty());
    assert_eq!(calls, vec!["set_props 400/22222,300/11111".to_string()]);
}

#[test]
fn host_getprops_calls_nothing() {
    let props = vec![AssetSpec { id: 100, crc: 12345 }, AssetSpec { id: 200, crc: 67890 }];
    let (r, rest, calls) = run(SecurityLevel::Server, props, vec![], "GETPROPS");
    assert_eq!(r, Ok(()));
    assert_eq!(rest, vec![Value::Integer(2), Value::Integer(12345), Value::Integer(100), Value::Integer(67890), Value::Integer(200)]);
    assert!(calls.is_empty());
}

#[test]
fn host_doffprop_filters_props() {
    let props = vec![AssetSpec { id: 1, crc: 10 }, AssetSpec { id: 2, crc: 20 }, AssetSpec { id: 1, crc: 30 }];
    let (r, rest, calls) = run(SecurityLevel::Server, props, vec![Value::Integer(1)], "DOFFPROP");
    assert_eq!(r, Ok(()));
    assert!(rest.is_empty());
    assert_eq!(calls, vec!["set_props 2/20".to_string()]);
}

#[test]
fn host_sayat_says_x_then_y() {
    let stack = vec![Value::String("hi".to_string()), Value::Integer(10), Value::Integer(20)];
    let (r, _, calls) = run(SecurityLevel::Server, vec![], stack, "SAYAT");
    assert_eq!(r, Ok(()));
    assert_eq!(calls, vec!["say @10,20: hi".to_string()]);
}

#[test]
fn host_netgoto_builds_palace_url() {
    let stack = vec![Value::String("example.com".to_string()), Value::Integer(86)];
    let (r, _, calls) = run(SecurityLevel::Server, vec![], stack, "NETGOTO");
    assert_eq!(r, Ok(()));
    assert_eq!(calls, vec!["goto_url palace://example.com?room=86".to_string()]);
}

#[test]
fn host_cyborg_lock_is_refused_and_calls_nothing() {
    for name in ["LOCK", "UNLOCK", "GOTOROOM"] {
        let (r, rest, calls) = run(SecurityLevel::Cyborg, vec![], vec![Value::Integer(5)], name);
        assert_eq!(r, Err(VmError::SecurityViolation { function: name.to_string() }));
        assert_eq!(rest, vec![Value::Integer(5)]);
        assert!(calls.is_empty());
    }
}

#[test]
fn host_unknown_name_calls_nothing() {
    let (r, rest, calls) = run(SecurityLevel::Server, vec![], vec![Value::Integer(5)], "NOSUCHFN");
    assert_eq!(r, Err(VmError::UndefinedFunction { name: "NOSUCHFN".to_string() }));
    assert_eq!(rest, vec![Value::Integer(5)]);
    assert!(calls.is_empty());
}

#[test]
fn host_setpos_and_lock() {
    let (r, _, calls) = run(SecurityLevel::Server, vec![], vec![Value::Integer(3), Value::Integer(4)], "SETPOS");
    assert_eq!(r, Ok(()));
    assert_eq!(calls, vec!["set_pos 3 4".to_string()]);
    let (r, _, calls) = run(SecurityLevel::Admin, vec![], vec![Value::Integer(7)], "LOCK");
    assert_eq!(r, Ok(()));
    assert_eq!(calls, vec!["lock_door 7".to_string()]);
}

#[test]
fn logon_reads_the_record_back() {
    let rec = AuxRegistrationRec::new_registered("Alice", 7, 9, 86);
    let mut buf = vec![];
    rec.to_bytes(&mut buf);
    let m = LogonMsg::from_bytes(&buf).unwrap();
    assert_eq!(m.rec.user_name, "Alice");
    assert_eq!(m.rec.crc, 7);
    assert_eq!(m.rec.counter, 9);
    assert_eq!(m.rec.desired_room, 86);
    let r = AltLogonReplyMsg::from_bytes(&buf).unwrap();
    assert_eq!(r.rec, m.rec);
    assert!(LogonMsg::from_bytes(&buf[..100]).is_err());
}

#[test]
fn check_encode_refusals() {
    assert_eq!(check_encode(3, 2, 2, PropFlags::FORMAT_S20BIT()), Err(EncodeRefusal::PixelCount { expected: 4, got: 3 }));
    assert!(matches!(check_encode(4, 2, 2, PropFlags::FORMAT_32BIT()), Err(EncodeRefusal::Unsupported(_))));
    assert_eq!(check_encode(4, 2, 2, PropFlags::FORMAT_S20BIT()), Ok(()));
}
