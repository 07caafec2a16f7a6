use moogan::channel_mention;
use moogan::command_content;
use moogan::u64_to_string;
use moogan::user_mention;

#[test]
fn zero_renders_as_a_single_digit() {
    assert_eq!(u64_to_string(0), "0");
}

#[test]
fn decimal_rendering_is_exact() {
    assert_eq!(u64_to_string(7), "7");
    assert_eq!(u64_to_string(10), "10");
    assert_eq!(u64_to_string(120), "120");
    assert_eq!(u64_to_string(1234567890), "1234567890");
}

#[test]
fn largest_id_renders_fully() {
    assert_eq!(u64_to_string(u64::MAX), "18446744073709551615");
}

#[test]
fn channel_mention_form() {
    assert_eq!(channel_mention(42), "<#42>");
    assert_eq!(channel_mention(0), "<#0>");
}

#[test]
fn user_mention_form() {
    assert_eq!(user_mention(5), "<@!5>");
}

#[test]
fn command_content_is_mention_space_name() {
    assert_eq!(command_content(7, "play"), "<@!7> play");
    assert_eq!(command_content(123456, "cowboard info"), "<@!123456> cowboard info");
}
