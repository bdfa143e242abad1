use outsaver::mega::Mega;
use outsaver::pipeline::{temporary_file_name, upload_file_name};

const FORBIDDEN: [char; 9] = ['"', '*', '/', ':', '<', '>', '?', '\\', '|'];

#[test]
fn sanitize_removes_every_forbidden_character() {
    let out = Mega::remove_invalid_characters("a\"b*c/d:e<f>g?h\\i|j".to_string());
    assert_eq!(out, "abcdefghij");
    assert!(!out.chars().any(|c| FORBIDDEN.contains(&c)));
}

#[test]
fn sanitize_is_idempotent() {
    for s in ["", "plain name", "a/b/c", "|||", "x:y?z*", "Ünïcødé <ok>"] {
        let once = Mega::remove_invalid_characters(s.to_string());
        let twice = Mega::remove_invalid_characters(once.clone());
        assert_eq!(once, twice);
        assert!(!once.chars().any(|c| FORBIDDEN.contains(&c)));
    }
}

#[test]
fn sanitize_keeps_case_and_length_of_the_rest() {
    assert_eq!(Mega::remove_invalid_characters("AbC dEf".to_string()), "AbC dEf");
}

#[test]
fn upload_name_follows_the_convention() {
    assert_eq!(
        upload_file_name("alice", "Valorant", "20240101120000", "mp4"),
        "alice - Valorant - 20240101120000.mp4"
    );
}

#[test]
fn upload_name_is_sanitized_after_formatting() {
    assert_eq!(
        upload_file_name("a|b", "CS:GO", "20240101120000", "mp4"),
        "ab - CSGO - 20240101120000.mp4"
    );
}

#[test]
fn scratch_name_is_stamp_and_extension() {
    assert_eq!(temporary_file_name("20240101120000", "webm"), "20240101120000.webm");
}
