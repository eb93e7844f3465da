use quic_frame::body::read_body;
use quic_frame::header::{read_header, Header};
use quic_frame::text::decode;

fn header_for(length: u32) -> Header {
    Header { version: 1, message_type: 1, length }
}

#[test]
fn body_of_announced_length_is_taken_whole() {
    let message = read_body(header_for(5), b"hello");
    assert_eq!(message.body(), b"hello");
    assert_eq!(message.header(), header_for(5));
}

#[test]
fn body_before_any_byte_arrives_is_all_zero() {
    let message = read_body(header_for(6), &[]);
    assert_eq!(message.body(), &[0u8, 0, 0, 0, 0, 0]);
}

#[test]
fn short_read_leaves_zeros_behind_the_delivered_bytes() {
    let message = read_body(header_for(10), b"hello");
    assert_eq!(message.body(), b"hello\0\0\0\0\0");
    assert_eq!(message.body().len(), 10);
}

#[test]
fn short_read_is_decoded_with_its_zero_tail() {
    let header = read_header(&[1, 1, 0, 0, 0, 8, 0, 0]).unwrap();
    let message = read_body(header, b"abc");
    assert_eq!(decode(message.body()), Ok("abc\0\0\0\0\0".to_string()));
}

#[test]
fn read_takes_no_more_than_the_announced_length() {
    let message = read_body(header_for(3), b"hello");
    assert_eq!(message.body(), b"hel");
}

#[test]
fn empty_body_is_empty() {
    let message = read_body(header_for(0), b"ignored");
    assert_eq!(message.body(), b"");
    assert_eq!(decode(message.body()), Ok(String::new()));
}

#[test]
fn body_keeps_every_byte_value() {
    let delivered: Vec<u8> = (0..=255u8).collect();
    let message = read_body(header_for(256), &delivered);
    assert_eq!(message.body(), delivered.as_slice());
}

#[test]
fn body_length_always_equals_the_header_length() {
    for length in [0u32, 1, 2, 7, 8, 9, 64, 1000] {
        for delivered in [0usize, 1, 5, 8, 999, 1000, 1001] {
            let bytes = vec![0xabu8; delivered];
            let message = read_body(header_for(length), &bytes);
            assert_eq!(message.body().len(), length as usize);
            let taken = delivered.min(length as usize);
            assert!(message.body()[..taken].iter().all(|byte| *byte == 0xab));
            assert!(message.body()[taken..].iter().all(|byte| *byte == 0));
        }
    }
}

#[test]
fn large_body_is_filled_from_the_front() {
    let delivered = vec![7u8; 70_000];
    let message = read_body(header_for(100_000), &delivered);
    assert_eq!(message.body().len(), 100_000);
    assert_eq!(message.body()[69_999], 7);
    assert_eq!(message.body()[70_000], 0);
    assert_eq!(message.body()[99_999], 0);
}
