use capture_pipeline::text::{find_payload_line, join};

#[test]
fn payload_line_is_found_behind_a_banner() {
    assert_eq!(find_payload_line("[boot]\n{\"code\":100}"), Some("{\"code\":100}"));
}

#[test]
fn first_payload_line_wins() {
    assert_eq!(find_payload_line("{\"a\":1}\n{\"b\":2}\n"), Some("{\"a\":1}"));
}

#[test]
fn payload_line_stops_at_the_newline() {
    assert_eq!(find_payload_line("log\n{\"a\":1}\ntrailer"), Some("{\"a\":1}"));
}

#[test]
fn carriage_return_of_a_crlf_ending_is_dropped() {
    assert_eq!(find_payload_line("log\r\n{\"a\":1}\r\nmore"), Some("{\"a\":1}"));
}

#[test]
fn carriage_return_at_the_very_end_stays() {
    assert_eq!(find_payload_line("{\"a\":1}\r"), Some("{\"a\":1}\r"));
}

#[test]
fn brace_in_the_middle_of_a_line_does_not_count() {
    assert_eq!(find_payload_line("note {\"a\":1}\n  {\"b\":2}"), None);
}

#[test]
fn text_without_a_payload_line_has_none() {
    assert_eq!(find_payload_line(""), None);
    assert_eq!(find_payload_line("\n\n"), None);
    assert_eq!(find_payload_line("nothing here"), None);
}

#[test]
fn lone_brace_is_a_payload_line() {
    assert_eq!(find_payload_line("{"), Some("{"));
    assert_eq!(find_payload_line("\n{\n"), Some("{"));
}

#[test]
fn payload_line_behind_wide_characters_is_cut_right() {
    assert_eq!(find_payload_line("启动中…\n{\"text\":\"你好\"}\n完成"), Some("{\"text\":\"你好\"}"));
}

#[test]
fn join_puts_the_separator_between_neighbours() {
    let parts = vec!["a".to_string(), "b".to_string(), "c".to_string()];
    assert_eq!(join(&parts, ", "), "a, b, c");
    assert_eq!(join(&parts, ""), "abc");
}

#[test]
fn join_of_one_piece_is_the_piece() {
    assert_eq!(join(&vec!["only".to_string()], "\n"), "only");
}

#[test]
fn join_of_nothing_is_empty() {
    assert_eq!(join(&Vec::new(), " "), "");
}

#[test]
fn join_keeps_empty_pieces() {
    let parts = vec!["".to_string(), "x".to_string(), "".to_string()];
    assert_eq!(join(&parts, "-"), "-x-");
}
