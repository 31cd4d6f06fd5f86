//! Instructions: the closed set of typed requests a call can carry, and
//! their byte-string codec.
//!
//! An instruction byte-string is a 1-byte variant tag followed by the
//! variant's fields, encoded with the same length-prefixed-string and
//! fixed-size-key discipline as the record codec.  Unlike a record buffer,
//! an instruction byte-string carries no trailing capacity: its length must
//! match its contents exactly.

use vstd::prelude::*;

use crate::codec;
use crate::error::AuthentikNFTError;
use crate::pubkey::Pubkey;

verus! {

/// The variant tag selecting [`AuthentikNFTInstruction::SetAuthentikNFT`].
pub const TAG_SET_AUTHENTIK_NFT: u8 = 0;

/// The parameters of a `SetAuthentikNFT` instruction.
#[derive(Debug)]
pub struct SetAuthentikNFTMetadataArgs {
    /// The URI to store, as its UTF-8 bytes.
    pub uri: Vec<u8>,
    /// The key of the token mint to associate with the record.
    pub mint: Pubkey,
}

/// A request describing one mutation to apply.
#[derive(Debug)]
pub enum AuthentikNFTInstruction {
    /// Overwrite the record of the target account with the given fields.
    SetAuthentikNFT(SetAuthentikNFTMetadataArgs),
}

/// The byte-string encoding an instruction with the given fields.
pub open spec fn instruction_bytes(uri: Seq<u8>, mint: Seq<u8>) -> Seq<u8> {
    seq![TAG_SET_AUTHENTIK_NFT] + codec::record_bytes(uri, mint)
}

/// Whether `bytes` is a well-formed instruction byte-string: a recognized
/// tag, consistent field lengths, and no bytes left over.
pub open spec fn instruction_decodable(bytes: Seq<u8>) -> bool {
    &&& bytes.len() >= 1
    &&& bytes[0] == TAG_SET_AUTHENTIK_NFT
    &&& codec::record_decodable(bytes.skip(1))
    &&& bytes.len() == 1 + codec::encoded_len(codec::declared_uri_len(bytes.skip(1)))
}

/// The URI bytes a decodable instruction byte-string carries.
pub open spec fn instruction_uri(bytes: Seq<u8>) -> Seq<u8> {
    codec::decoded_uri(bytes.skip(1))
}

/// The mint key bytes a decodable instruction byte-string carries.
pub open spec fn instruction_mint(bytes: Seq<u8>) -> Seq<u8> {
    codec::decoded_mint(bytes.skip(1))
}

/// Law: the instruction codec round-trips.  Packing any fields and
/// decoding the resulting byte-string yields the fields back.
pub proof fn lemma_instruction_round_trip(uri: Seq<u8>, mint: Seq<u8>)
    requires
        codec::uri_len_encodable(uri.len()),
        vstd::utf8::valid_utf8(uri),
        mint.len() == crate::pubkey::PUBKEY_BYTES,
    ensures
        instruction_decodable(instruction_bytes(uri, mint)),
        instruction_uri(instruction_bytes(uri, mint)) == uri,
        instruction_mint(instruction_bytes(uri, mint)) == mint,
{
    let all = instruction_bytes(uri, mint);
    assert(all.skip(1) =~= codec::record_bytes(uri, mint) + Seq::<u8>::empty());
    codec::lemma_record_round_trip(uri, mint, Seq::empty());
    vstd::bytes::lemma_auto_spec_u32_to_from_le_bytes();
    assert(all[0] == TAG_SET_AUTHENTIK_NFT);
    assert(codec::decoded_uri(all.skip(1)).len() == codec::declared_uri_len(all.skip(1)));
    assert(all.len() == 1 + codec::encoded_len(uri.len()));
}

impl AuthentikNFTInstruction {
    /// Serializes the instruction into the byte-string the dispatcher
    /// accepts.  Fails with [`AuthentikNFTError::InstructionPackError`]
    /// only when the URI's length does not fit the 4-byte prefix.
    pub fn pack(&self) -> (result: Result<Vec<u8>, AuthentikNFTError>)
        ensures
            (match self {
                AuthentikNFTInstruction::SetAuthentikNFT(args) => {
                    &&& result is Ok <==> codec::uri_len_encodable(args.uri@.len())
                    &&& (result matches Ok(out) ==> out@ == instruction_bytes(
                        args.uri@,
                        args.mint@,
                    ))
                    &&& (result matches Err(e) ==> e
                        == AuthentikNFTError::InstructionPackError)
                },
            }),
    {
        match self {
            AuthentikNFTInstruction::SetAuthentikNFT(args) => {
                let mut fields = match codec::encode_fields(&args.uri, &args.mint) {
                    Ok(fields) => fields,
                    Err(_) => {
                        return Err(AuthentikNFTError::InstructionPackError);
                    },
                };
                let mut out: Vec<u8> = Vec::new();
                out.push(TAG_SET_AUTHENTIK_NFT);
                out.append(&mut fields);
                proof {
                    assert(out@ =~= instruction_bytes(args.uri@, args.mint@));
                }
                Ok(out)
            },
        }
    }
}

/// Decodes an opaque instruction byte-string into a typed instruction.
/// Fails with [`AuthentikNFTError::InstructionUnpackError`] exactly when
/// the tag is unrecognized, a field length is inconsistent, the URI field
/// is not well-formed UTF-8, or bytes are left over.
pub fn decode_instruction(bytes: &[u8]) -> (result: Result<
    AuthentikNFTInstruction,
    AuthentikNFTError,
>)
    ensures
        result is Ok <==> instruction_decodable(bytes@),
        result matches Ok(instr) ==> (match instr {
            AuthentikNFTInstruction::SetAuthentikNFT(args) => args.uri@ == instruction_uri(bytes@)
                && args.mint@ == instruction_mint(bytes@),
        }),
        result matches Err(e) ==> e == AuthentikNFTError::InstructionUnpackError,
{
    if bytes.len() < 1 {
        return Err(AuthentikNFTError::InstructionUnpackError);
    }
    if bytes[0] != TAG_SET_AUTHENTIK_NFT {
        return Err(AuthentikNFTError::InstructionUnpackError);
    }
    let rest = vstd::slice::slice_subrange(bytes, 1, bytes.len());
    match codec::decode_fields(rest) {
        Ok((uri, mint)) => {
            if rest.len() - codec::FIXED_ENCODED_BYTES != uri.len() {
                return Err(AuthentikNFTError::InstructionUnpackError);
            }
            Ok(
                AuthentikNFTInstruction::SetAuthentikNFT(
                    SetAuthentikNFTMetadataArgs { uri, mint },
                ),
            )
        },
        Err(e) => Err(e),
    }
}

} // verus!
