//! The binary record codec.
//!
//! A record is stored in the leading bytes of a caller-owned buffer as a
//! 4-byte little-endian length prefix, that many URI bytes, and a fixed
//! 32-byte mint key.  Trailing bytes beyond the encoding are ignored on
//! decode and left untouched on encode.

use vstd::bytes::*;
use vstd::prelude::*;
use vstd::utf8::valid_utf8;

use crate::error::AuthentikNFTError;
use crate::pubkey::{Pubkey, PUBKEY_BYTES};

verus! {

/// Bytes of the fixed-size parts of an encoding: the 4-byte length prefix
/// and the 32-byte mint key.
pub const FIXED_ENCODED_BYTES: usize = 36;

/// The encoding of a record with URI bytes `uri` and mint bytes `mint`:
/// little-endian length prefix, URI, mint.
pub open spec fn record_bytes(uri: Seq<u8>, mint: Seq<u8>) -> Seq<u8> {
    spec_u32_to_le_bytes(uri.len() as u32) + uri + mint
}

/// Whether a record with `uri_len` URI bytes can be encoded at all: the
/// length must fit the 4-byte prefix.
pub open spec fn uri_len_encodable(uri_len: nat) -> bool {
    uri_len <= u32::MAX
}

/// The number of bytes the encoding of a record with `uri_len` URI bytes
/// occupies.
pub open spec fn encoded_len(uri_len: nat) -> nat {
    (FIXED_ENCODED_BYTES + uri_len) as nat
}

/// The URI length a buffer's 4-byte prefix declares.
pub open spec fn declared_uri_len(bytes: Seq<u8>) -> nat {
    spec_u32_from_le_bytes(bytes.subrange(0, 4)) as nat
}

/// Whether the leading bytes of `bytes` hold a well-formed record encoding:
/// there is room for the prefix, the declared URI length plus the fixed
/// parts fit in the available bytes, and the URI field is well-formed
/// UTF-8 — the record's URI is text, and a buffer whose URI bytes are not
/// a UTF-8 encoding is rejected.
pub open spec fn record_decodable(bytes: Seq<u8>) -> bool {
    &&& bytes.len() >= 4
    &&& encoded_len(declared_uri_len(bytes)) <= bytes.len()
    &&& valid_utf8(decoded_uri(bytes))
}

/// The URI bytes a decodable buffer holds.
pub open spec fn decoded_uri(bytes: Seq<u8>) -> Seq<u8> {
    bytes.subrange(4, 4 + declared_uri_len(bytes) as int)
}

/// The mint bytes a decodable buffer holds.
pub open spec fn decoded_mint(bytes: Seq<u8>) -> Seq<u8> {
    bytes.subrange(
        4 + declared_uri_len(bytes) as int,
        4 + declared_uri_len(bytes) + PUBKEY_BYTES as int,
    )
}

/// Law: the codec round-trips.  Encoding any record and decoding the result
/// — with any trailing bytes left in the buffer — yields the record back.
pub proof fn lemma_record_round_trip(uri: Seq<u8>, mint: Seq<u8>, tail: Seq<u8>)
    requires
        uri_len_encodable(uri.len()),
        valid_utf8(uri),
        mint.len() == PUBKEY_BYTES,
    ensures
        record_decodable(record_bytes(uri, mint) + tail),
        decoded_uri(record_bytes(uri, mint) + tail) == uri,
        decoded_mint(record_bytes(uri, mint) + tail) == mint,
{
    lemma_auto_spec_u32_to_from_le_bytes();
    let prefix = spec_u32_to_le_bytes(uri.len() as u32);
    let all = record_bytes(uri, mint) + tail;
    assert(all.subrange(0, 4) =~= prefix);
    assert(declared_uri_len(all) == uri.len());
    assert(decoded_uri(all) =~= uri);
    assert(decoded_mint(all) =~= mint);
}

/// Whether a record with `uri_len` URI bytes can be encoded into a buffer
/// of `cap` bytes.  This is exactly the success condition of the in-place
/// encoders.
pub open spec fn encode_fits(uri_len: nat, cap: nat) -> bool {
    uri_len_encodable(uri_len) && encoded_len(uri_len) <= cap
}

/// Law: capacity is exact.  Encoding into a buffer whose capacity equals
/// the record's serialized size succeeds; into one a single byte shorter it
/// fails.
pub proof fn lemma_capacity_boundary(uri: Seq<u8>, mint: Seq<u8>)
    requires
        uri_len_encodable(uri.len()),
        valid_utf8(uri),
        mint.len() == PUBKEY_BYTES,
    ensures
        record_bytes(uri, mint).len() == encoded_len(uri.len()),
        encode_fits(uri.len(), encoded_len(uri.len())),
        !encode_fits(uri.len(), (encoded_len(uri.len()) - 1) as nat),
        record_decodable(record_bytes(uri, mint)),
{
    lemma_auto_spec_u32_to_from_le_bytes();
    lemma_record_round_trip(uri, mint, Seq::empty());
    assert(record_bytes(uri, mint) + Seq::<u8>::empty() =~= record_bytes(uri, mint));
}

/// Serializes URI bytes and a mint key into a fresh, exactly-sized byte
/// vector: length prefix, URI, mint.  Fails only when the URI's length does
/// not fit the 4-byte prefix.
pub fn encode_fields(uri: &Vec<u8>, mint: &Pubkey) -> (result: Result<
    Vec<u8>,
    AuthentikNFTError,
>)
    ensures
        result is Ok <==> uri_len_encodable(uri@.len()),
        result matches Ok(out) ==> out@ == record_bytes(uri@, mint@) && out@.len() == encoded_len(
            uri@.len(),
        ),
        result matches Err(e) ==> e == AuthentikNFTError::UriTooLong,
{
    if uri.len() > u32::MAX as usize {
        return Err(AuthentikNFTError::UriTooLong);
    }
    let mut out = u32_to_le_bytes(uri.len() as u32);
    out.extend_from_slice(uri.as_slice());
    out.extend_from_slice(mint.as_bytes());
    proof {
        assert(out@ =~= record_bytes(uri@, mint@));
    }
    Ok(out)
}

/// Deserializes a record's fields from the leading bytes of `bytes`,
/// ignoring any trailing bytes.  Fails exactly when the declared URI
/// length is inconsistent with the bytes available or the URI field is not
/// well-formed UTF-8.
pub fn decode_fields(bytes: &[u8]) -> (result: Result<(Vec<u8>, Pubkey), AuthentikNFTError>)
    ensures
        result is Ok <==> record_decodable(bytes@),
        result matches Ok((uri, mint)) ==> uri@ == decoded_uri(bytes@) && mint@ == decoded_mint(
            bytes@,
        ),
        result matches Err(e) ==> e == AuthentikNFTError::InstructionUnpackError,
{
    if bytes.len() < FIXED_ENCODED_BYTES {
        return Err(AuthentikNFTError::InstructionUnpackError);
    }
    let prefix = vstd::slice::slice_subrange(bytes, 0, 4);
    let declared = u32_from_le_bytes(prefix) as usize;
    if declared > bytes.len() - FIXED_ENCODED_BYTES {
        return Err(AuthentikNFTError::InstructionUnpackError);
    }
    let uri_slice = vstd::slice::slice_subrange(bytes, 4, 4 + declared);
    let uri = vstd::slice::slice_to_vec(uri_slice);
    let mint_slice = vstd::slice::slice_subrange(
        bytes,
        4 + declared,
        FIXED_ENCODED_BYTES + declared,
    );
    let mint = Pubkey::from_bytes(vstd::slice::slice_to_vec(mint_slice));
    proof {
        assert(uri@ =~= decoded_uri(bytes@));
        assert(mint@ =~= decoded_mint(bytes@));
    }
    if !crate::text::is_valid_utf8(uri.as_slice()) {
        return Err(AuthentikNFTError::InstructionUnpackError);
    }
    Ok((uri, mint))
}

} // verus!
