use rustlua::codec::{
    compress, compress_to_base64, decode_padded_text, decode_text, decompress,
    decompress_from_base64, encode_text, fits_encoding, CodecError,
};

/// Bytes without a pattern, from a fixed linear congruential generator.
fn scrambled(len: usize) -> Vec<u8> {
    let mut state: u32 = 0x2545_f491;
    let mut out = Vec::with_capacity(len);
    for _ in 0..len {
        state = state.wrapping_mul(1_664_525).wrapping_add(1_013_904_223);
        out.push((state >> 24) as u8);
    }
    out
}

#[test]
fn compress_gives_the_stream_of_the_default_encoder() {
    let stream = compress(b"Hello World!");
    assert_eq!(
        stream,
        vec![
            5, 192, 49, 13, 0, 0, 8, 3, 65, 43, 224, 6, 7, 24, 128, 237, 147, 38, 245, 63, 244,
            230, 65, 181, 50, 215, 1
        ]
    );
}

#[test]
fn decompress_reads_a_stream_made_elsewhere() {
    let stream = [243, 72, 205, 201, 201, 87, 8, 207, 47, 202, 73, 81, 4, 0];
    assert_eq!(decompress(&stream), Ok(b"Hello World!".to_vec()));
}

#[test]
fn compress_round_trips_empty_input() {
    let stream = compress(b"");
    assert!(!stream.is_empty());
    assert_eq!(decompress(&stream), Ok(Vec::new()));
}

#[test]
fn compress_round_trips_text() {
    let input = b"Hello!\n".to_vec();
    assert_eq!(decompress(&compress(&input)), Ok(input));
}

#[test]
fn compress_round_trips_incompressible_bytes() {
    let input = scrambled(70_000);
    assert_eq!(decompress(&compress(&input)), Ok(input));
}

#[test]
fn compress_round_trips_and_shrinks_repetitive_bytes() {
    let input = vec![b'a'; 200_000];
    let stream = compress(&input);
    assert!(stream.len() < input.len() / 10);
    assert_eq!(decompress(&stream), Ok(input));
}

#[test]
fn decompress_refuses_a_truncated_stream() {
    let stream = compress(b"Hello World!");
    assert_eq!(
        decompress(&stream[..stream.len() / 2]),
        Err(CodecError::InvalidStream)
    );
}

#[test]
fn decompress_refuses_an_empty_stream() {
    assert_eq!(decompress(&[]), Err(CodecError::InvalidStream));
}

#[test]
fn decompress_refuses_the_reserved_block_type() {
    assert_eq!(decompress(&[0x07]), Err(CodecError::InvalidStream));
}

#[test]
fn encode_text_gives_unpadded_standard_base64() {
    assert_eq!(encode_text(b""), "");
    assert_eq!(encode_text(b"f"), "Zg");
    assert_eq!(encode_text(b"fo"), "Zm8");
    assert_eq!(encode_text(b"foo"), "Zm9v");
    assert_eq!(encode_text(b"foob"), "Zm9vYg");
    assert_eq!(encode_text(b"some bytes"), "c29tZSBieXRlcw");
    assert_eq!(encode_text(&[0xfb, 0xff]), "+/8");
}

#[test]
fn encode_text_has_the_stated_length_and_alphabet() {
    for len in 0..40usize {
        let text = encode_text(&scrambled(len));
        let rest = match len % 3 {
            0 => 0,
            1 => 2,
            _ => 3,
        };
        assert_eq!(text.chars().count(), len / 3 * 4 + rest);
        assert!(text
            .chars()
            .all(|c| c.is_ascii_alphanumeric() || c == '+' || c == '/'));
    }
}

#[test]
fn encode_text_round_trips() {
    for len in [0usize, 1, 2, 3, 4, 5, 255, 256, 1000] {
        let input = scrambled(len);
        assert_eq!(decode_text(&encode_text(&input)), Ok(input));
    }
}

#[test]
fn decode_text_reads_unpadded_text() {
    assert_eq!(decode_text(""), Ok(Vec::new()));
    assert_eq!(decode_text("Zg"), Ok(b"f".to_vec()));
    assert_eq!(decode_text("Zm9v"), Ok(b"foo".to_vec()));
    assert_eq!(decode_text("+/8"), Ok(vec![0xfb, 0xff]));
}

#[test]
fn decode_text_refuses_padding() {
    assert_eq!(decode_text("Zg=="), Err(CodecError::InvalidText));
    assert_eq!(decode_text("Zm8="), Err(CodecError::InvalidText));
}

#[test]
fn decode_text_refuses_characters_outside_the_alphabet() {
    assert_eq!(decode_text("Zm-v"), Err(CodecError::InvalidText));
    assert_eq!(decode_text("Zm9v\n"), Err(CodecError::InvalidText));
    assert_eq!(decode_text("Zm 9v"), Err(CodecError::InvalidText));
    assert_eq!(decode_text("Zm9\u{e9}"), Err(CodecError::InvalidText));
}

#[test]
fn decode_text_refuses_an_impossible_length() {
    assert_eq!(decode_text("Z"), Err(CodecError::InvalidText));
    assert_eq!(decode_text("Zm9vZ"), Err(CodecError::InvalidText));
}

#[test]
fn decode_text_refuses_stray_trailing_bits() {
    assert_eq!(decode_text("Zh"), Err(CodecError::InvalidText));
}

#[test]
fn decode_padded_text_asks_for_padding() {
    assert_eq!(decode_padded_text("Zg=="), Ok(b"f".to_vec()));
    assert_eq!(decode_padded_text("Zm9v"), Ok(b"foo".to_vec()));
    assert_eq!(decode_padded_text("SGVsbG8hCg=="), Ok(b"Hello!\n".to_vec()));
    assert_eq!(decode_padded_text("Zg"), Err(CodecError::InvalidText));
    assert_eq!(decode_padded_text("Zg="), Err(CodecError::InvalidText));
    assert_eq!(decode_padded_text("Z*=="), Err(CodecError::InvalidText));
}

#[test]
fn fits_encoding_follows_the_length_of_the_text() {
    assert!(fits_encoding(0));
    assert!(fits_encoding(1));
    assert!(fits_encoding(1 << 20));
    assert!(!fits_encoding(usize::MAX));
    // The largest number of full groups whose text still fits.
    let groups = usize::MAX / 4;
    assert!(fits_encoding(groups * 3));
    assert_eq!(fits_encoding(groups * 3 + 1), usize::MAX % 4 >= 2);
    assert_eq!(fits_encoding(groups * 3 + 2), usize::MAX % 4 >= 3);
    assert!(!fits_encoding(groups * 3 + 3));
}

#[test]
fn compress_to_base64_is_the_text_of_the_stream() {
    let text = compress_to_base64(b"Hello World!").unwrap();
    assert_eq!(text, encode_text(&compress(b"Hello World!")));
    assert_eq!(text, "BcAxDQAACANBK+AGBxiA7ZMm9T/05kG1MtcB");
}

#[test]
fn compress_to_base64_round_trips() {
    for input in [Vec::new(), b"Hello!\n".to_vec(), scrambled(5000)] {
        let text = compress_to_base64(&input).unwrap();
        assert_eq!(decompress_from_base64(&text), Ok(input));
    }
}

#[test]
fn decompress_from_base64_tells_bad_text_from_a_bad_stream() {
    assert_eq!(decompress_from_base64("!!!"), Err(CodecError::InvalidText));
    assert_eq!(decompress_from_base64("Bw"), Err(CodecError::InvalidStream));
    assert_eq!(decompress_from_base64(""), Err(CodecError::InvalidStream));
}

#[test]
fn compress_to_base64_has_the_length_of_the_text_of_its_stream() {
    for input in [Vec::new(), b"Hello World!".to_vec(), scrambled(1000)] {
        let n = compress(&input).len();
        let text = compress_to_base64(&input).unwrap();
        assert_eq!(text.chars().count(), (4 * n + 2) / 3);
        assert!(!text.contains('='));
    }
    // 27 bytes of stream give 36 characters.
    assert_eq!(compress_to_base64(b"Hello World!").unwrap().len(), 36);
}
