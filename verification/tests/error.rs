use luan::error::LuanError;

#[test]
fn custom_keeps_the_message() {
    let error = LuanError::custom("no such thing".to_string());
    assert_eq!(error.to_string(), "no such thing");
}

#[test]
fn an_error_from_a_string() {
    assert_eq!(LuanError::from("a".to_string()).to_string(), "a");
    assert_eq!(LuanError::from("b").to_string(), "b");
    assert_eq!(LuanError::from(""), LuanError::custom(String::new()));
}
