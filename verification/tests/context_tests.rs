use thepalace::iptscrae::{ScriptContext, SecurityLevel, Value};

#[test]
fn test_security_level() {
    let mut actions = ();
    let server_ctx = ScriptContext::new(SecurityLevel::Server, &mut actions);
    assert!(server_ctx.is_function_allowed("LOCK"));
    assert!(server_ctx.is_function_allowed("GOTOROOM"));

    let mut actions2 = ();
    let cyborg_ctx = ScriptContext::new(SecurityLevel::Cyborg, &mut actions2);
    assert!(!cyborg_ctx.is_function_allowed("LOCK"));
    assert!(!cyborg_ctx.is_function_allowed("GOTOROOM"));
    assert!(cyborg_ctx.is_function_allowed("SAY"));
    assert!(cyborg_ctx.is_function_allowed("WHONAME"));
}
#[test]
fn test_context_creation() {
    let mut actions = ();
    let ctx = ScriptContext::new(SecurityLevel::Server, &mut actions);
    assert_eq!(ctx.security_level, SecurityLevel::Server);
    assert_eq!(ctx.user_id, 0);
    assert_eq!(ctx.user_name, "");
    assert_eq!(ctx.room_id, 0);
}
#[test]
fn test_event_data() {
    let mut actions = ();
    let mut ctx = ScriptContext::new(SecurityLevel::Server, &mut actions);
    ctx.event_data
        .insert("hotspot_id".to_string(), Value::Integer(42));
    assert_eq!(ctx.event_data.get("hotspot_id"), Some(&Value::Integer(42)));
}