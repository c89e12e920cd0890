use launch_handoff::error::ListenerError;
use launch_handoff::payload::Payload;
use launch_handoff::wire::{
    decode_frame, encode_frame, frame_status, FrameStatus, Greeting, GREETING_ADMIT,
    GREETING_RETRY_LATER, HEADER_LEN, PROTOCOL_VERSION,
};

const LIMIT: u32 = 0x10_0000;

fn entries(items: &[&str]) -> Payload {
    Payload::from_vec(items.iter().map(|s| s.to_string()).collect())
}

#[test]
fn empty_payload_is_a_bare_header() {
    let frame = encode_frame(&Payload::new(), LIMIT).unwrap();
    assert_eq!(frame, vec![PROTOCOL_VERSION, 0, 0, 0, 0]);
    assert_eq!(frame.len(), HEADER_LEN);
    let back = decode_frame(&frame, LIMIT).unwrap();
    assert!(back.is_empty());
}

#[test]
fn frame_bytes_are_exact() {
    let frame = encode_frame(&entries(&["ab", "c"]), LIMIT).unwrap();
    assert_eq!(
        frame,
        vec![1, 0, 0, 0, 11, 0, 0, 0, 2, b'a', b'b', 0, 0, 0, 1, b'c']
    );
}

#[test]
fn length_prefix_is_big_endian() {
    let long = "x".repeat(0x0102);
    let frame = encode_frame(&entries(&[&long]), LIMIT).unwrap();
    assert_eq!(&frame[1..5], &[0, 0, 0x01, 0x06]);
    assert_eq!(&frame[5..9], &[0, 0, 0x01, 0x02]);
    assert_eq!(frame.len(), 5 + 4 + 0x0102);
}

#[test]
fn roundtrip_keeps_entries_and_order() {
    let payload = entries(&["file1.torrent", "magnet:?xt=...", "", "file1.torrent"]);
    let frame = encode_frame(&payload, LIMIT).unwrap();
    let back = decode_frame(&frame, LIMIT).unwrap();
    assert_eq!(
        back.into_vec(),
        vec!["file1.torrent", "magnet:?xt=...", "", "file1.torrent"]
    );
}

#[test]
fn roundtrip_keeps_text_outside_ascii() {
    let payload = entries(&["/home/zoë/районы.torrent", "磁力:?xt=urn", "🙂"]);
    let frame = encode_frame(&payload, LIMIT).unwrap();
    let back = decode_frame(&frame, LIMIT).unwrap();
    assert!(back.same_as(&payload));
    assert_eq!(back.items[2], "🙂");
}

#[test]
fn empty_string_entry_differs_from_no_entry() {
    let one = encode_frame(&entries(&[""]), LIMIT).unwrap();
    assert_eq!(one, vec![1, 0, 0, 0, 4, 0, 0, 0, 0]);
    assert_eq!(decode_frame(&one, LIMIT).unwrap().len(), 1);
}

#[test]
fn payload_over_the_limit_is_oversized() {
    let payload = entries(&["abcdef", "gh"]);
    assert_eq!(encode_frame(&payload, 15).err(), Some(ListenerError::Oversized));
    assert!(encode_frame(&payload, 16).is_ok());
}

#[test]
fn frame_over_the_limit_is_malformed() {
    let frame = encode_frame(&entries(&["abcdef", "gh"]), 16).unwrap();
    assert_eq!(frame_status(&frame, 16), FrameStatus::Complete);
    assert_eq!(frame_status(&frame, 15), FrameStatus::Malformed);
    assert_eq!(frame_status(&frame[..5], 15), FrameStatus::Malformed);
    assert_eq!(decode_frame(&frame, 15).err(), Some(ListenerError::Malformed));
}

#[test]
fn wrong_version_is_malformed() {
    assert_eq!(frame_status(&[2], LIMIT), FrameStatus::Malformed);
    assert_eq!(
        decode_frame(&[2, 0, 0, 0, 0], LIMIT).err(),
        Some(ListenerError::Malformed)
    );
}

#[test]
fn invalid_utf8_is_malformed() {
    let frame = vec![1, 0, 0, 0, 6, 0, 0, 0, 2, 0xff, 0xfe];
    assert_eq!(frame_status(&frame, LIMIT), FrameStatus::Complete);
    assert_eq!(decode_frame(&frame, LIMIT).err(), Some(ListenerError::Malformed));
}

#[test]
fn overlong_surrogate_and_out_of_range_bytes_are_malformed() {
    let cases: [&[u8]; 5] = [
        &[0xc0, 0x80],
        &[0xed, 0xa0, 0x80],
        &[0xf4, 0x90, 0x80, 0x80],
        &[0xe2, 0x82],
        &[0x80],
    ];
    for text in cases {
        let mut frame = vec![1, 0, 0, 0, 4 + text.len() as u8, 0, 0, 0, text.len() as u8];
        frame.extend_from_slice(text);
        assert_eq!(frame_status(&frame, LIMIT), FrameStatus::Complete);
        assert_eq!(decode_frame(&frame, LIMIT).err(), Some(ListenerError::Malformed));
    }
}

#[test]
fn entry_that_overruns_the_body_is_malformed() {
    let frame = vec![1, 0, 0, 0, 6, 0, 0, 0, 3, b'a', b'b'];
    assert_eq!(decode_frame(&frame, LIMIT).err(), Some(ListenerError::Malformed));
    let short_prefix = vec![1, 0, 0, 0, 3, 0, 0, 0];
    assert_eq!(
        decode_frame(&short_prefix, LIMIT).err(),
        Some(ListenerError::Malformed)
    );
}

#[test]
fn bytes_behind_the_frame_are_malformed() {
    let mut frame = encode_frame(&entries(&["a"]), LIMIT).unwrap();
    frame.push(0);
    assert_eq!(frame_status(&frame, LIMIT), FrameStatus::Malformed);
    assert_eq!(decode_frame(&frame, LIMIT).err(), Some(ListenerError::Malformed));
}

#[test]
fn cut_frame_is_closed_at_every_length() {
    let frame = encode_frame(&entries(&["file1.torrent", "magnet:?xt=..."]), LIMIT).unwrap();
    for k in 0..frame.len() {
        let missing = if k < 5 { 5 - k } else { frame.len() - k };
        assert_eq!(
            frame_status(&frame[..k], LIMIT),
            FrameStatus::NeedMore(missing as u64)
        );
        assert_eq!(
            decode_frame(&frame[..k], LIMIT).err(),
            Some(ListenerError::Closed)
        );
    }
    assert_eq!(frame_status(&frame, LIMIT), FrameStatus::Complete);
}

#[test]
fn nothing_received_needs_a_header() {
    assert_eq!(frame_status(&[], LIMIT), FrameStatus::NeedMore(5));
    assert_eq!(decode_frame(&[], LIMIT).err(), Some(ListenerError::Closed));
}

#[test]
fn decoded_text_is_what_the_bytes_spell() {
    let frame = vec![1, 0, 0, 0, 7, 0, 0, 0, 3, 0xe2, 0x82, 0xac];
    let back = decode_frame(&frame, LIMIT).unwrap();
    assert_eq!(back.into_vec(), vec!["€".to_string()]);
}

#[test]
fn greeting_bytes_roundtrip() {
    assert_eq!(Greeting::Admit.to_byte(), GREETING_ADMIT);
    assert_eq!(Greeting::RetryLater.to_byte(), GREETING_RETRY_LATER);
    assert_eq!(Greeting::from_byte(0x41), Some(Greeting::Admit));
    assert_eq!(Greeting::from_byte(0x52), Some(Greeting::RetryLater));
    assert_eq!(Greeting::from_byte(0), None);
    assert_eq!(Greeting::from_byte(0x42), None);
}
