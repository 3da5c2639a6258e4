use playcore::decode::decode_mp3;
use playcore::source::LoadError;
use playcore::tags::{read_tag_lines, tag_report, TagOutcome};

#[test]
fn empty_input_is_rejected() {
    assert!(matches!(decode_mp3(Vec::new()), Err(LoadError::EmptyAudio)));
}

#[test]
fn undecodable_input_is_rejected() {
    // No frame header anywhere in the stream: no audio comes out.
    let noise: Vec<u8> = vec![0x00; 4096];
    assert!(matches!(decode_mp3(noise), Err(LoadError::EmptyAudio)));
}

#[test]
fn unreadable_tag_is_informational_only() {
    let not_a_tag = b"this is not a tagged audio file".to_vec();
    assert!(read_tag_lines(&not_a_tag).is_none());
}

#[test]
fn tag_parsed_from_raw_bytes() {
    // A minimal ID3v2.3 tag holding one title frame with the text "T".
    let mut data: Vec<u8> = Vec::new();
    data.extend_from_slice(b"ID3");
    data.extend_from_slice(&[0x03, 0x00, 0x00]);
    // Tag size, synchsafe: one 12-byte frame.
    data.extend_from_slice(&[0x00, 0x00, 0x00, 0x0C]);
    data.extend_from_slice(b"TIT2");
    data.extend_from_slice(&[0x00, 0x00, 0x00, 0x02, 0x00, 0x00]);
    // Latin-1 encoding marker, then the text.
    data.extend_from_slice(&[0x00]);
    data.extend_from_slice(b"T");

    let lines = read_tag_lines(&data).expect("the tag should be readable");
    assert_eq!(lines, vec!["  Title : T".to_string()]);

    // The whole metadata step reports the same lines for a tagged name.
    match tag_report(&b"song.mp3".to_vec(), &data) {
        TagOutcome::Lines(lines) => assert_eq!(lines, vec!["  Title : T".to_string()]),
        _ => panic!("expected tag lines"),
    }
}

#[test]
fn tag_report_gates_on_the_file_name() {
    let noise = b"not a tagged audio file".to_vec();
    // Only the tagged format is even attempted.
    assert!(matches!(
        tag_report(&b"song.ogg".to_vec(), &noise),
        TagOutcome::NotTagged
    ));
    // Within it, unreadable tags are informational.
    assert!(matches!(
        tag_report(&b"song.mp3".to_vec(), &noise),
        TagOutcome::Unreadable
    ));
}
