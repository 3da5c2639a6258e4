use playcore::paths::{cache_file_name, is_mp3_name, is_remote_url};
use playcore::tags::tag_lines;

fn bytes(s: &str) -> Vec<u8> {
    s.as_bytes().to_vec()
}

#[test]
fn remote_urls_are_recognized() {
    assert!(is_remote_url(&bytes("http://example.com/song.mp3")));
    assert!(is_remote_url(&bytes("https://example.com/song.mp3")));
    assert!(!is_remote_url(&bytes("song.mp3")));
    assert!(!is_remote_url(&bytes("httpx://example.com")));
    assert!(!is_remote_url(&bytes("")));
    assert!(!is_remote_url(&bytes("http:/")));
}

#[test]
fn cache_name_is_last_url_segment() {
    assert_eq!(
        cache_file_name(&bytes("http://example.com/a/b/song.mp3")),
        bytes("song.mp3")
    );
    assert_eq!(cache_file_name(&bytes("song.mp3")), bytes("song.mp3"));
    assert_eq!(cache_file_name(&bytes("http://example.com/")), bytes(""));
    assert_eq!(cache_file_name(&bytes("")), bytes(""));
}

#[test]
fn mp3_extension_is_case_insensitive() {
    assert!(is_mp3_name(&bytes("song.mp3")));
    assert!(is_mp3_name(&bytes("SONG.MP3")));
    assert!(is_mp3_name(&bytes("a.Mp3")));
    assert!(!is_mp3_name(&bytes("song.mp4")));
    assert!(!is_mp3_name(&bytes("song.ogg")));
    assert!(!is_mp3_name(&bytes("mp3")));
    assert!(!is_mp3_name(&bytes("")));
}

#[test]
fn tag_lines_full_record() {
    let lines = tag_lines(
        Some("A Song".to_string()),
        Some("An Artist".to_string()),
        Some("An Album".to_string()),
        Some(1999),
        Some("Genre".to_string()),
        Some(7),
        &vec!["first".to_string(), "second".to_string()],
    );
    assert_eq!(
        lines,
        vec![
            "  Title : A Song".to_string(),
            "  Artist: An Artist".to_string(),
            "  Album : An Album".to_string(),
            "  Year  : 1999".to_string(),
            "  Genre : Genre".to_string(),
            "  Track : 7".to_string(),
            "  Comment: first".to_string(),
            "  Comment: second".to_string(),
        ]
    );
}

#[test]
fn tag_lines_absent_fields_leave_no_lines() {
    let lines = tag_lines(None, None, None, None, None, None, &Vec::new());
    assert!(lines.is_empty());

    let lines = tag_lines(
        None,
        Some("X".to_string()),
        None,
        None,
        None,
        None,
        &Vec::new(),
    );
    assert_eq!(lines, vec!["  Artist: X".to_string()]);
}

#[test]
fn tag_lines_negative_year() {
    let lines = tag_lines(None, None, None, Some(-44), None, None, &Vec::new());
    assert_eq!(lines, vec!["  Year  : -44".to_string()]);
}
