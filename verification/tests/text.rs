use quic_frame::body::read_body;
use quic_frame::error::FlowError;
use quic_frame::header::read_header;
use quic_frame::text::decode;

#[test]
fn hello_frame_decodes_to_hello() {
    let header = read_header(&[1, 1, 0, 0, 0, 5, 0, 0]).unwrap();
    assert_eq!(header.version, 1);
    assert_eq!(header.message_type, 1);
    assert_eq!(header.length, 5);
    let message = read_body(header, b"hello");
    assert_eq!(decode(message.body()), Ok("hello".to_string()));
}

#[test]
fn invalid_frame_fails_to_decode() {
    let header = read_header(&[1, 1, 0, 0, 0, 3, 0, 0]).unwrap();
    assert_eq!(header.length, 3);
    let message = read_body(header, &[0xff, 0xfe, 0xfd]);
    assert_eq!(message.body(), &[0xff, 0xfe, 0xfd]);
    assert_eq!(decode(message.body()), Err(FlowError::Decode));
}

#[test]
fn text_survives_body_and_decoder() {
    for text in ["", "a", "hello", "héllo wörld", "日本語のテキスト", "mixed ✓ 🦀 end", "line\nbreak\ttab"] {
        let bytes = text.as_bytes();
        let length = bytes.len() as u32;
        let wire = length.to_be_bytes();
        let header = read_header(&[1, 2, wire[0], wire[1], wire[2], wire[3], 0, 0]).unwrap();
        assert_eq!(header.length, length);
        let message = read_body(header, bytes);
        assert_eq!(decode(message.body()), Ok(text.to_string()));
    }
}

#[test]
fn decoding_is_strict() {
    // a lone continuation byte
    assert_eq!(decode(&[0x80]), Err(FlowError::Decode));
    // a sequence cut short
    assert_eq!(decode(&[0xe2, 0x82]), Err(FlowError::Decode));
    // an overlong encoding of '/'
    assert_eq!(decode(&[0xc0, 0xaf]), Err(FlowError::Decode));
    // a surrogate
    assert_eq!(decode(&[0xed, 0xa0, 0x80]), Err(FlowError::Decode));
    // beyond the last scalar value
    assert_eq!(decode(&[0xf4, 0x90, 0x80, 0x80]), Err(FlowError::Decode));
    // valid text followed by one bad byte
    assert_eq!(decode(b"hello\xff"), Err(FlowError::Decode));
}

#[test]
fn decoding_accepts_every_width_of_sequence() {
    assert_eq!(decode(&[0x24]), Ok("$".to_string()));
    assert_eq!(decode(&[0xc2, 0xa2]), Ok("¢".to_string()));
    assert_eq!(decode(&[0xe2, 0x82, 0xac]), Ok("€".to_string()));
    assert_eq!(decode(&[0xf0, 0x90, 0x8d, 0x88]), Ok("𐍈".to_string()));
    assert_eq!(decode(&[0xf4, 0x8f, 0xbf, 0xbf]), Ok("\u{10ffff}".to_string()));
}

#[test]
fn decoding_does_not_change_the_bytes() {
    let body = "naïve – text".as_bytes();
    let text = decode(body).unwrap();
    assert_eq!(text.as_bytes(), body);
}

#[test]
fn truncated_multibyte_text_is_rejected_when_its_tail_is_cut() {
    // "é" is two bytes; a header that announces one byte cuts it in half.
    let header = read_header(&[1, 1, 0, 0, 0, 1, 0, 0]).unwrap();
    let message = read_body(header, "é".as_bytes());
    assert_eq!(message.body(), &[0xc3]);
    assert_eq!(decode(message.body()), Err(FlowError::Decode));
}
