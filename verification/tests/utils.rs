use playlist_audio::utils::StripTrailingNewline;

#[test]
fn strips_a_line_feed() {
    assert_eq!("2024.01.01\n".to_string().strip_trailing_newline(), "2024.01.01");
}

#[test]
fn strips_a_carriage_return_with_its_line_feed() {
    assert_eq!("2024.01.01\r\n".to_string().strip_trailing_newline(), "2024.01.01");
}

#[test]
fn strips_one_terminator_only() {
    assert_eq!("v\n\n".to_string().strip_trailing_newline(), "v\n");
    assert_eq!("v\r\n\r\n".to_string().strip_trailing_newline(), "v\r\n");
    assert_eq!("v\n\r\n".to_string().strip_trailing_newline(), "v\n");
    assert_eq!("v\r\n\n".to_string().strip_trailing_newline(), "v\r\n");
}

#[test]
fn leaves_text_without_terminator() {
    assert_eq!("v".to_string().strip_trailing_newline(), "v");
    assert_eq!("".to_string().strip_trailing_newline(), "");
    assert_eq!("a\nb".to_string().strip_trailing_newline(), "a\nb");
}

#[test]
fn leaves_a_lone_carriage_return() {
    assert_eq!("v\r".to_string().strip_trailing_newline(), "v\r");
    assert_eq!("v\n\r".to_string().strip_trailing_newline(), "v\n\r");
}

#[test]
fn strips_a_terminator_that_is_all_there_is() {
    assert_eq!("\n".to_string().strip_trailing_newline(), "");
    assert_eq!("\r\n".to_string().strip_trailing_newline(), "");
}

#[test]
fn keeps_text_beyond_ascii() {
    assert_eq!("версия 1\n".to_string().strip_trailing_newline(), "версия 1");
}
