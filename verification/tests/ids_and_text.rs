use umbra_cli::ids::{generate_invite_code, invite_code_from_nanos, uuid_from_nanos, uuid_v4};
use umbra_cli::relay::next_reconnect_delay;
use umbra_cli::text::decimal_string;

#[test]
fn invite_code_has_eight_base36_characters() {
    let code = generate_invite_code();
    assert_eq!(code.chars().count(), 8);
    assert!(code.chars().all(|c| c.is_ascii_lowercase() || c.is_ascii_digit()));
}

#[test]
fn invite_code_is_a_function_of_the_clock() {
    assert_eq!(invite_code_from_nanos(0), "aaaaaaaa");
    assert_eq!(invite_code_from_nanos(12345), invite_code_from_nanos(12345));
}

#[test]
fn uuid_v4_is_thirty_two_lowercase_hex_digits() {
    let id = uuid_v4();
    assert_eq!(id.len(), 32);
    assert!(id.chars().all(|c| c.is_ascii_digit() || ('a'..='f').contains(&c)));
}

#[test]
fn uuid_of_zero_clock_is_all_zeros() {
    assert_eq!(uuid_from_nanos(0), "0".repeat(32));
}

#[test]
fn reconnect_delay_doubles_up_to_thirty_seconds() {
    assert_eq!(next_reconnect_delay(2), 4);
    assert_eq!(next_reconnect_delay(8), 16);
    assert_eq!(next_reconnect_delay(16), 30);
    assert_eq!(next_reconnect_delay(30), 30);
}

#[test]
fn decimal_text_of_counts() {
    assert_eq!(decimal_string(0), "0");
    assert_eq!(decimal_string(7), "7");
    assert_eq!(decimal_string(1203), "1203");
}
