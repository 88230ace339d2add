use chat_relay::messages::{
    chat_line, decimal_string, default_name, goodbye_line, greeting_line, reject_line, rename_line,
    str_eq,
};

#[test]
fn decimal_of_zero() {
    assert_eq!(decimal_string(0), "0");
}

#[test]
fn decimal_of_single_digit() {
    assert_eq!(decimal_string(7), "7");
}

#[test]
fn decimal_of_round_number() {
    assert_eq!(decimal_string(3000), "3000");
}

#[test]
fn decimal_of_port() {
    assert_eq!(decimal_string(55001), "55001");
}

#[test]
fn decimal_of_largest_port() {
    assert_eq!(decimal_string(u16::MAX), "65535");
}

#[test]
fn default_name_of_loopback() {
    assert_eq!(default_name("127.0.0.1", 55001), "127.0.0.1_55001");
}

#[test]
fn default_name_of_bind_address() {
    assert_eq!(default_name("127.0.0.1", 3000), "127.0.0.1_3000");
}

#[test]
fn chat_line_carries_name_and_heart() {
    assert_eq!(chat_line("alice", "hi"), "alice: hi \u{2764}\u{FE0F}!");
}

#[test]
fn chat_line_of_empty_message() {
    assert_eq!(chat_line("alice", ""), "alice:  \u{2764}\u{FE0F}!");
}

#[test]
fn rename_line_names_old_then_new() {
    assert_eq!(rename_line("127.0.0.1_55001", "alice"), "127.0.0.1_55001 is now alice");
}

#[test]
fn reject_line_names_the_request() {
    assert_eq!(reject_line("alice"), "name alice already exists");
}

#[test]
fn greeting_line_names_the_client() {
    assert_eq!(greeting_line("127.0.0.1_55001"), "You are 127.0.0.1_55001");
}

#[test]
fn goodbye_text() {
    assert_eq!(goodbye_line(), "Goodbye!!");
}

#[test]
fn str_eq_agrees_on_equal_strings() {
    assert!(str_eq("hello", "hello"));
    assert!(str_eq("", ""));
    assert!(str_eq("a \u{2764}\u{FE0F}!", "a \u{2764}\u{FE0F}!"));
}

#[test]
fn str_eq_rejects_different_strings() {
    assert!(!str_eq("hello", "hullo"));
    assert!(!str_eq("hello", "hell"));
    assert!(!str_eq("", "x"));
}
