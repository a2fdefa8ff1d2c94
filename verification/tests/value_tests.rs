use thepalace::iptscrae::Value;

#[test]
fn test_value_creation() {
    let v1 = Value::integer(42);
    assert_eq!(v1, Value::Integer(42));

    let v2 = Value::string("hello");
    assert_eq!(v2, Value::String("hello".to_string()));
}
#[test]
fn test_value_conversion() {
    let v1 = Value::Integer(42);
    assert_eq!(v1.to_integer(), 42);
    assert_eq!(v1.to_string(), "42");

    let v2 = Value::String("123".to_string());
    assert_eq!(v2.to_integer(), 123);
    assert_eq!(v2.to_string(), "123");

    let v3 = Value::String("not a number".to_string());
    assert_eq!(v3.to_integer(), 0);
}
#[test]
fn test_value_bool_conversion() {
    assert!(Value::Integer(1).to_bool());
    assert!(!Value::Integer(0).to_bool());
    assert!(Value::String("text".to_string()).to_bool());
    assert!(!Value::String("".to_string()).to_bool());
}
#[test]
fn test_value_from() {
    let v1: Value = 42.into();
    assert_eq!(v1, Value::Integer(42));

    let v2: Value = "hello".into();
    assert_eq!(v2, Value::String("hello".to_string()));

    let v3: Value = String::from("world").into();
    assert_eq!(v3, Value::String("world".to_string()));
}
#[test]
fn test_value_display() {
    assert_eq!(Value::Integer(42).to_string(), "42");
    assert_eq!(Value::String("hello".to_string()).to_string(), "hello");
}