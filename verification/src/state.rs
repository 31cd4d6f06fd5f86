//! The persisted domain entity: a record holding an NFT URI and the key of
//! the token's mint, stored in the leading bytes of an account buffer.

use vstd::prelude::*;

use crate::account::AccountRef;
use crate::codec;
use crate::error::AuthentikNFTError;
use crate::pubkey::Pubkey;

verus! {

/// Mathematical model of a record: the URI bytes and the mint key bytes.
pub struct RecordView {
    pub uri: Seq<u8>,
    pub mint: Seq<u8>,
}

/// A decoded record.
#[derive(Debug)]
pub struct AuthentikNFTAccount {
    /// The NFT URI, as its UTF-8 bytes.
    pub uri: Vec<u8>,
    /// The public key of the NFT token's mint.
    pub mint: Pubkey,
}

impl View for AuthentikNFTAccount {
    type V = RecordView;

    open spec fn view(&self) -> RecordView {
        RecordView { uri: self.uri@, mint: self.mint@ }
    }
}

impl AuthentikNFTAccount {
    /// Serializes the record into a fresh byte vector holding exactly its
    /// encoding.  Fails with [`AuthentikNFTError::UriTooLong`] only when
    /// the URI's length does not fit the 4-byte prefix.
    pub fn to_bytes(&self) -> (result: Result<Vec<u8>, AuthentikNFTError>)
        ensures
            result is Ok <==> codec::uri_len_encodable(self@.uri.len()),
            result matches Ok(out) ==> out@ == codec::record_bytes(self@.uri, self@.mint)
                && out@.len() == codec::encoded_len(self@.uri.len()),
            result matches Err(e) ==> e == AuthentikNFTError::UriTooLong,
    {
        codec::encode_fields(&self.uri, &self.mint)
    }

    /// Serializes the record into the leading bytes of `buf`, leaving any
    /// trailing bytes untouched.  Fails with
    /// [`AuthentikNFTError::UriTooLong`] — leaving `buf` unchanged — exactly
    /// when the serialized form exceeds the buffer's capacity or the length
    /// prefix.
    pub fn encode_into(&self, buf: &mut Vec<u8>) -> (result: Result<(), AuthentikNFTError>)
        ensures
            result is Ok <==> codec::encode_fits(self@.uri.len(), old(buf)@.len()),
            result is Ok ==> final(buf)@ == codec::record_bytes(self@.uri, self@.mint) + old(
                buf,
            )@.skip(codec::encoded_len(self@.uri.len()) as int),
            result matches Err(e) ==> final(buf)@ == old(buf)@ && e
                == AuthentikNFTError::UriTooLong,
    {
        if buf.len() < codec::FIXED_ENCODED_BYTES || buf.len() - codec::FIXED_ENCODED_BYTES
            < self.uri.len() {
            return Err(AuthentikNFTError::UriTooLong);
        }
        let mut out = match codec::encode_fields(&self.uri, &self.mint) {
            Ok(out) => out,
            Err(e) => {
                return Err(e);
            },
        };
        let encoded = out.len();
        let mut i: usize = encoded;
        while i < buf.len()
            invariant
                codec::encoded_len(self@.uri.len()) == encoded,
                encoded <= i <= buf@.len(),
                out@ == codec::record_bytes(self@.uri, self@.mint) + buf@.subrange(
                    encoded as int,
                    i as int,
                ),
            decreases buf@.len() - i,
        {
            let b = buf[i];
            out.push(b);
            i = i + 1;
        }
        proof {
            assert(out@ =~= codec::record_bytes(self@.uri, self@.mint) + buf@.skip(
                codec::encoded_len(self@.uri.len()) as int,
            ));
        }
        *buf = out;
        Ok(())
    }

    /// Deserializes a record from the leading bytes of `bytes`; trailing
    /// bytes are ignored.  Fails with
    /// [`AuthentikNFTError::InstructionUnpackError`] exactly when the
    /// declared URI length is inconsistent with the bytes available or the
    /// URI field is not well-formed UTF-8.
    pub fn decode(bytes: &[u8]) -> (result: Result<AuthentikNFTAccount, AuthentikNFTError>)
        ensures
            result is Ok <==> codec::record_decodable(bytes@),
            result matches Ok(rec) ==> rec@.uri == codec::decoded_uri(bytes@) && rec@.mint
                == codec::decoded_mint(bytes@),
            result matches Err(e) ==> e == AuthentikNFTError::InstructionUnpackError,
    {
        match codec::decode_fields(bytes) {
            Ok((uri, mint)) => Ok(AuthentikNFTAccount { uri, mint }),
            Err(e) => Err(e),
        }
    }

    /// Reads the record currently stored in an account's buffer.
    pub fn get_from_account(acct: &AccountRef) -> (result: Result<
        AuthentikNFTAccount,
        AuthentikNFTError,
    >)
        ensures
            result is Ok <==> codec::record_decodable(acct@.data),
            result matches Ok(rec) ==> rec@.uri == codec::decoded_uri(acct@.data) && rec@.mint
                == codec::decoded_mint(acct@.data),
            result matches Err(e) ==> e == AuthentikNFTError::InstructionUnpackError,
    {
        AuthentikNFTAccount::decode(acct.data.as_slice())
    }
}

} // verus!
