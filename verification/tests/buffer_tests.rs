use thepalace::buffer::{
    get_cstring, get_pstring, get_str31, get_str63, put_cstring, put_pstring, put_str31, put_str63, try_put_cstring,
    try_put_pstring, try_put_str31, try_put_str63, ErrorKind,
};

#[test]
fn test_pstring_roundtrip() {
    let mut buf = Vec::<u8>::new();
    put_pstring(&mut buf, &"Hello".to_string());

    assert_eq!(buf.len(), 6); // 1 byte length + 5 bytes string
    assert_eq!(buf[0], 5); // Length prefix

    let (result, _) = get_pstring(&buf, 0).unwrap();
    assert_eq!(result, "Hello");
}

#[test]
fn test_pstring_empty() {
    let mut buf = Vec::<u8>::new();
    put_pstring(&mut buf, &"".to_string());

    assert_eq!(buf.len(), 1); // Just the length byte
    assert_eq!(buf[0], 0);

    let (result, _) = get_pstring(&buf, 0).unwrap();
    assert_eq!(result, "");
}

#[test]
fn test_str31_roundtrip() {
    let mut buf = Vec::<u8>::new();
    put_str31(&mut buf, &"User".to_string());

    let (result, _) = get_str31(&buf, 0).unwrap();
    assert_eq!(result, "User");
}

#[test]
fn test_str63_roundtrip() {
    let mut buf = Vec::<u8>::new();
    put_str63(&mut buf, &"This is a medium length string".to_string());

    let (result, _) = get_str63(&buf, 0).unwrap();
    assert_eq!(result, "This is a medium length string");
}

#[test]
fn test_cstring_roundtrip() {
    let mut buf = Vec::<u8>::new();
    put_cstring(&mut buf, &"Hello World".to_string());

    assert_eq!(buf.len(), 12); // 11 bytes string + 1 null terminator
    assert_eq!(buf[11], 0); // Null terminator

    let (result, _) = get_cstring(&buf, 0).unwrap();
    assert_eq!(result, "Hello World");
}

#[test]
fn test_cstring_empty() {
    let mut buf = Vec::<u8>::new();
    put_cstring(&mut buf, &"".to_string());

    assert_eq!(buf.len(), 1); // Just the null terminator
    assert_eq!(buf[0], 0);

    let (result, _) = get_cstring(&buf, 0).unwrap();
    assert_eq!(result, "");
}

#[test]
fn test_get_pstring_insufficient_data() {
    let data = vec![5u8, b'H', b'i']; // Says 5 bytes but only has 2
    let result = get_pstring(&data, 0);
    assert!(result.is_err());
}

#[test]
fn test_get_cstring_not_terminated() {
    let data = vec![b'H', b'e', b'l', b'l', b'o']; // No null terminator
    let result = get_cstring(&data, 0);
    assert!(result.is_err());
}

#[test]
fn test_try_put_pstring_success() {
    let mut buf = Vec::<u8>::new();
    let result = try_put_pstring(&mut buf, &"Hello".to_string());
    assert!(result.is_ok());

    let (decoded, _) = get_pstring(&buf, 0).unwrap();
    assert_eq!(decoded, "Hello");
}

#[test]
fn test_try_put_pstring_too_long() {
    let mut buf = Vec::<u8>::new();
    let long_string = "a".repeat(256);
    let result = try_put_pstring(&mut buf, &long_string);
    assert!(result.is_err());
    assert_eq!(result.unwrap_err().kind(), ErrorKind::InvalidInput);
}

#[test]
fn test_try_put_str31_success() {
    let mut buf = Vec::<u8>::new();
    let result = try_put_str31(&mut buf, &"User".to_string());
    assert!(result.is_ok());

    let (decoded, _) = get_str31(&buf, 0).unwrap();
    assert_eq!(decoded, "User");
}

#[test]
fn test_try_put_str31_too_long() {
    let mut buf = Vec::<u8>::new();
    let long_string = "a".repeat(32);
    let result = try_put_str31(&mut buf, &long_string);
    assert!(result.is_err());
    assert_eq!(result.unwrap_err().kind(), ErrorKind::InvalidInput);
}

#[test]
fn test_try_put_str63_success() {
    let mut buf = Vec::<u8>::new();
    let result = try_put_str63(&mut buf, &"Medium string".to_string());
    assert!(result.is_ok());

    let (decoded, _) = get_str63(&buf, 0).unwrap();
    assert_eq!(decoded, "Medium string");
}

#[test]
fn test_try_put_str63_too_long() {
    let mut buf = Vec::<u8>::new();
    let long_string = "a".repeat(64);
    let result = try_put_str63(&mut buf, &long_string);
    assert!(result.is_err());
    assert_eq!(result.unwrap_err().kind(), ErrorKind::InvalidInput);
}

#[test]
fn test_try_put_cstring_success() {
    let mut buf = Vec::<u8>::new();
    let result = try_put_cstring(&mut buf, &"Hello World".to_string());
    assert!(result.is_ok());

    let (decoded, _) = get_cstring(&buf, 0).unwrap();
    assert_eq!(decoded, "Hello World");
}

#[test]
fn test_try_put_cstring_with_null() {
    let mut buf = Vec::<u8>::new();
    let result = try_put_cstring(&mut buf, &"Hello\0World".to_string());
    assert!(result.is_err());
    assert_eq!(result.unwrap_err().kind(), ErrorKind::InvalidInput);
}

#[test]
fn buffer_str31_rejects_long_length_byte() {
    let mut data = vec![0u8; 32];
    data[0] = 32;
    let result = get_str31(&data, 0);
    assert_eq!(result.unwrap_err().kind(), ErrorKind::InvalidData);
}

#[test]
fn buffer_str63_short_input_is_eof() {
    let data = vec![3u8, b'a', b'b', b'c'];
    let result = get_str63(&data, 0);
    assert_eq!(result.unwrap_err().kind(), ErrorKind::UnexpectedEof);
}
