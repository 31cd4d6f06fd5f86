use authentik_nft::error::AuthentikNFTError;
use authentik_nft::pubkey::Pubkey;
use authentik_nft::state::AuthentikNFTAccount;

fn record(uri: &[u8], mint: [u8; 32]) -> AuthentikNFTAccount {
    AuthentikNFTAccount { uri: uri.to_vec(), mint: Pubkey::new_from_array(mint) }
}

#[test]
fn record_round_trip() {
    let rec = record(b"https://example.com/1", [7u8; 32]);
    let bytes = rec.to_bytes().unwrap();
    assert_eq!(bytes.len(), 4 + 21 + 32);
    let back = AuthentikNFTAccount::decode(&bytes).unwrap();
    assert_eq!(back.uri, b"https://example.com/1".to_vec());
    assert_eq!(back.mint.as_bytes(), &[7u8; 32][..]);
}

#[test]
fn record_round_trip_with_trailing_capacity() {
    let rec = record(b"abc", [3u8; 32]);
    let mut buf = rec.to_bytes().unwrap();
    buf.extend_from_slice(&[0xEEu8; 25]);
    let back = AuthentikNFTAccount::decode(&buf).unwrap();
    assert_eq!(back.uri, b"abc".to_vec());
    assert_eq!(back.mint.as_bytes(), &[3u8; 32][..]);
}

#[test]
fn encoding_layout_is_prefix_uri_mint() {
    let rec = record(b"ab", [9u8; 32]);
    let bytes = rec.to_bytes().unwrap();
    assert_eq!(&bytes[0..4], &[2, 0, 0, 0]);
    assert_eq!(&bytes[4..6], b"ab");
    assert_eq!(&bytes[6..38], &[9u8; 32]);
}

#[test]
fn encoding_matches_borsh_wire_format() {
    let rec = record(b"https://example.com/1", [7u8; 32]);
    let mine = rec.to_bytes().unwrap();
    let reference =
        borsh::to_vec(&("https://example.com/1".to_string(), [7u8; 32])).unwrap();
    assert_eq!(mine, reference);

    let (uri, mint): (String, [u8; 32]) = borsh::from_slice(&mine).unwrap();
    assert_eq!(uri, "https://example.com/1");
    assert_eq!(mint, [7u8; 32]);
}

#[test]
fn capacity_exactly_sufficient_succeeds() {
    let rec = record(b"abc", [1u8; 32]);
    let mut buf = vec![0u8; 39];
    assert_eq!(rec.encode_into(&mut buf), Ok(()));
    assert_eq!(buf, rec.to_bytes().unwrap());
}

#[test]
fn capacity_one_byte_short_fails() {
    let rec = record(b"abc", [1u8; 32]);
    let mut buf = vec![0u8; 38];
    assert_eq!(rec.encode_into(&mut buf), Err(AuthentikNFTError::UriTooLong));
    assert_eq!(buf, vec![0u8; 38]);
}

#[test]
fn encode_into_preserves_trailing_bytes() {
    let rec = record(b"xy", [5u8; 32]);
    let mut buf = vec![0xEEu8; 50];
    assert_eq!(rec.encode_into(&mut buf), Ok(()));
    assert_eq!(&buf[0..38], &rec.to_bytes().unwrap()[..]);
    assert_eq!(&buf[38..], &[0xEEu8; 12]);
}

#[test]
fn decode_fresh_zero_buffer_is_empty_record() {
    let buf = vec![0u8; 64];
    let rec = AuthentikNFTAccount::decode(&buf).unwrap();
    assert_eq!(rec.uri, Vec::<u8>::new());
    assert_eq!(rec.mint.as_bytes(), &[0u8; 32][..]);
}

#[test]
fn decode_buffer_too_short_for_fixed_parts_fails() {
    for n in 0..36usize {
        let buf = vec![0u8; n];
        assert_eq!(
            AuthentikNFTAccount::decode(&buf).unwrap_err(),
            AuthentikNFTError::InstructionUnpackError
        );
    }
}

#[test]
fn decode_overlong_length_prefix_fails() {
    // The prefix claims 10 URI bytes but only 6 remain beyond the fixed parts.
    let mut buf = vec![0u8; 42];
    buf[0] = 10;
    assert_eq!(
        AuthentikNFTAccount::decode(&buf).unwrap_err(),
        AuthentikNFTError::InstructionUnpackError
    );
}

#[test]
fn decode_length_prefix_exactly_consistent_succeeds() {
    let mut buf = vec![0u8; 42];
    buf[0] = 6;
    buf[4..10].copy_from_slice(b"abcdef");
    let rec = AuthentikNFTAccount::decode(&buf).unwrap();
    assert_eq!(rec.uri, b"abcdef".to_vec());
}

#[test]
fn empty_uri_encodes_to_fixed_parts_only() {
    let rec = record(b"", [4u8; 32]);
    let bytes = rec.to_bytes().unwrap();
    assert_eq!(bytes.len(), 36);
    assert_eq!(&bytes[0..4], &[0, 0, 0, 0]);
    let back = AuthentikNFTAccount::decode(&bytes).unwrap();
    assert_eq!(back.uri, Vec::<u8>::new());
}

#[test]
fn decode_rejects_non_utf8_uri() {
    // Length-consistent buffer whose one URI byte, 0xFF, is never valid UTF-8.
    let mut buf = vec![0u8; 37];
    buf[0] = 1;
    buf[4] = 0xFF;
    assert_eq!(
        AuthentikNFTAccount::decode(&buf).unwrap_err(),
        AuthentikNFTError::InstructionUnpackError
    );
    // borsh's String decoding rejects the same buffer.
    assert!(borsh::from_slice::<(String, [u8; 32])>(&buf).is_err());
}

#[test]
fn multibyte_utf8_uri_round_trips() {
    let uri = "uri://héllo→😀".as_bytes();
    let rec = record(uri, [8u8; 32]);
    let bytes = rec.to_bytes().unwrap();
    let back = AuthentikNFTAccount::decode(&bytes).unwrap();
    assert_eq!(back.uri, uri.to_vec());
}

#[test]
fn decode_agrees_with_std_utf8_validation() {
    let cases: Vec<Vec<u8>> = vec![
        b"plain ascii".to_vec(),
        vec![0xC3, 0xA9],             // é
        vec![0xC0, 0x80],             // overlong two-byte encoding
        vec![0xC2],                   // truncated two-byte encoding
        vec![0xE0, 0xA0, 0x80],       // U+0800
        vec![0xE0, 0x9F, 0xBF],       // overlong three-byte encoding
        vec![0xED, 0x9F, 0xBF],       // U+D7FF, last before surrogates
        vec![0xED, 0xA0, 0x80],       // surrogate U+D800
        vec![0xEE, 0x80, 0x80],       // U+E000, first after surrogates
        vec![0xF0, 0x90, 0x80, 0x80], // U+10000
        vec![0xF0, 0x8F, 0xBF, 0xBF], // overlong four-byte encoding
        vec![0xF4, 0x8F, 0xBF, 0xBF], // U+10FFFF
        vec![0xF4, 0x90, 0x80, 0x80], // beyond U+10FFFF
        vec![0xF5, 0x80, 0x80, 0x80], // lead byte past the valid range
        vec![0x80],                   // stray continuation byte
    ];
    for uri in cases {
        let mut buf = (uri.len() as u32).to_le_bytes().to_vec();
        buf.extend_from_slice(&uri);
        buf.extend_from_slice(&[0u8; 32]);
        let decoded = AuthentikNFTAccount::decode(&buf);
        assert_eq!(decoded.is_ok(), std::str::from_utf8(&uri).is_ok());
    }
}
