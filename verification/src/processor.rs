//! The dispatcher and the mutation handlers.
//!
//! A call hands the processor the program's own identity, the ordered list
//! of accounts the call was constructed with, and an instruction
//! byte-string.  The dispatcher decodes the instruction and routes it to
//! the handler for its variant; the handler authorizes the mutation,
//! decodes the stored record, applies the instruction's fields and encodes
//! the record back in place.
//!
//! The account list order is instruction-specific: for `SetAuthentikNFT`
//! the account to mutate stands at position 0, and a call must supply at
//! least that account.

use vstd::prelude::*;

use crate::account::{AccountRef, AccountView};
use crate::codec;
use crate::error::AuthentikNFTError;
use crate::instruction::{self, AuthentikNFTInstruction};
use crate::pubkey::Pubkey;
use crate::state::AuthentikNFTAccount;

verus! {

/// The outcome the `SetAuthentikNFT` handler owes for a target account
/// `acct`: the error when the caller is not authorized, the stored record
/// is undecodable or the new record does not fit, and otherwise the account
/// with the new record encoded over the leading bytes of its buffer.
pub open spec fn spec_set_nft_account(
    program_id: Seq<u8>,
    acct: AccountView,
    uri: Seq<u8>,
    mint: Seq<u8>,
) -> Result<AccountView, AuthentikNFTError> {
    if acct.owner != program_id {
        Err(AuthentikNFTError::InvalidOwner)
    } else if !codec::record_decodable(acct.data) {
        Err(AuthentikNFTError::InstructionUnpackError)
    } else if !codec::encode_fits(uri.len(), acct.data.len()) {
        Err(AuthentikNFTError::UriTooLong)
    } else {
        Ok(
            AccountView {
                key: acct.key,
                owner: acct.owner,
                data: codec::record_bytes(uri, mint) + acct.data.skip(
                    codec::encoded_len(uri.len()) as int,
                ),
            },
        )
    }
}

/// Checks that `account` may be mutated on behalf of `authority`: its owner
/// identity must equal the authority's.  A pure predicate; nothing is
/// modified.
pub fn authorize(account: &AccountRef, authority: &Pubkey) -> (result: Result<
    (),
    AuthentikNFTError,
>)
    ensures
        result is Ok <==> account@.owner == authority@,
        result matches Err(e) ==> e == AuthentikNFTError::InvalidOwner,
{
    if account.owner.eq_bytes(authority) {
        Ok(())
    } else {
        Err(AuthentikNFTError::InvalidOwner)
    }
}

/// Handles `SetAuthentikNFT`: authorizes the target account (position 0),
/// decodes its record, overwrites the URI and mint with the instruction's
/// fields, and encodes the record back into the same buffer.  On any error
/// every account is left byte-for-byte unchanged.  The new URI is text:
/// callers hand it over as UTF-8 bytes, as the dispatcher's decoded
/// instruction does.
pub fn set_nft_account(
    program_id: &Pubkey,
    accounts: &mut Vec<AccountRef>,
    uri: Vec<u8>,
    mint: Pubkey,
) -> (result: Result<(), AuthentikNFTError>)
    requires
        old(accounts)@.len() >= 1,
        vstd::utf8::valid_utf8(uri@),
    ensures
        final(accounts)@.len() == old(accounts)@.len(),
        forall|i: int|
            1 <= i < old(accounts)@.len() ==> final(accounts)@[i] == old(accounts)@[i],
        (match spec_set_nft_account(program_id@, old(accounts)@[0]@, uri@, mint@) {
            Ok(updated) => result is Ok && final(accounts)@[0]@ == updated,
            Err(e) => result == Err::<(), AuthentikNFTError>(e) && final(accounts)@[0]@ == old(
                accounts,
            )@[0]@,
        }),
{
    match authorize(&accounts[0], program_id) {
        Ok(()) => (),
        Err(e) => {
            return Err(e);
        },
    }
    // The stored record must decode before any mutation; `SetAuthentikNFT`
    // then overwrites both of its fields.
    match AuthentikNFTAccount::get_from_account(&accounts[0]) {
        Ok(_) => (),
        Err(e) => {
            return Err(e);
        },
    }
    let updated = AuthentikNFTAccount { uri, mint };
    let target = &mut accounts[0];
    match updated.encode_into(&mut target.data) {
        Ok(()) => Ok(()),
        Err(e) => Err(e),
    }
}

/// The outcome the dispatcher owes for a call: `InstructionUnpackError`
/// when the instruction byte-string is malformed — with no account touched
/// — and otherwise whatever the handler of the decoded variant owes.
pub open spec fn spec_process_instruction(
    program_id: Seq<u8>,
    acct: AccountView,
    instruction_data: Seq<u8>,
) -> Result<AccountView, AuthentikNFTError> {
    if !instruction::instruction_decodable(instruction_data) {
        Err(AuthentikNFTError::InstructionUnpackError)
    } else {
        spec_set_nft_account(
            program_id,
            acct,
            instruction::instruction_uri(instruction_data),
            instruction::instruction_mint(instruction_data),
        )
    }
}

/// The call entry point: decodes the instruction byte-string and routes it
/// to the handler for its variant.  Errors are surfaced verbatim; the host
/// wraps them into its own error representation via
/// [`AuthentikNFTError::to_code`](crate::error::AuthentikNFTError::to_code).
pub fn process_instruction(
    program_id: &Pubkey,
    accounts: &mut Vec<AccountRef>,
    instruction_data: &[u8],
) -> (result: Result<(), AuthentikNFTError>)
    requires
        old(accounts)@.len() >= 1,
    ensures
        final(accounts)@.len() == old(accounts)@.len(),
        forall|i: int|
            1 <= i < old(accounts)@.len() ==> final(accounts)@[i] == old(accounts)@[i],
        (match spec_process_instruction(program_id@, old(accounts)@[0]@, instruction_data@) {
            Ok(updated) => result is Ok && final(accounts)@[0]@ == updated,
            Err(e) => result == Err::<(), AuthentikNFTError>(e) && final(accounts)@[0]@ == old(
                accounts,
            )@[0]@,
        }),
{
    match instruction::decode_instruction(instruction_data) {
        Ok(AuthentikNFTInstruction::SetAuthentikNFT(args)) => set_nft_account(
            program_id,
            accounts,
            args.uri,
            args.mint,
        ),
        Err(e) => Err(e),
    }
}

/// Law: the authorization gate.  Whenever the target account's owner
/// differs from the expected authority, the handler owes `InvalidOwner`
/// and — by the handler's contract — leaves the buffer unmodified.
pub proof fn lemma_authorization_gate(
    program_id: Seq<u8>,
    acct: AccountView,
    uri: Seq<u8>,
    mint: Seq<u8>,
)
    requires
        acct.owner != program_id,
    ensures
        spec_set_nft_account(program_id, acct, uri, mint) == Err::<AccountView, _>(
            AuthentikNFTError::InvalidOwner,
        ),
{
}

/// Law: re-application is idempotent.  When setting a record succeeds,
/// applying the same instruction to the resulting account succeeds again
/// and leaves the account exactly as it was after the first application.
pub proof fn lemma_set_idempotent(
    program_id: Seq<u8>,
    acct: AccountView,
    uri: Seq<u8>,
    mint: Seq<u8>,
)
    requires
        mint.len() == crate::pubkey::PUBKEY_BYTES,
        vstd::utf8::valid_utf8(uri),
        spec_set_nft_account(program_id, acct, uri, mint) is Ok,
    ensures
        spec_set_nft_account(
            program_id,
            spec_set_nft_account(program_id, acct, uri, mint).unwrap(),
            uri,
            mint,
        ) == spec_set_nft_account(program_id, acct, uri, mint),
{
    let once = spec_set_nft_account(program_id, acct, uri, mint).unwrap();
    let tail = acct.data.skip(codec::encoded_len(uri.len()) as int);
    codec::lemma_record_round_trip(uri, mint, tail);
    vstd::bytes::lemma_auto_spec_u32_to_from_le_bytes();
    assert(once.data.len() == acct.data.len());
    assert(codec::declared_uri_len(once.data) == uri.len());
    assert(once.data.skip(codec::encoded_len(uri.len()) as int) =~= tail);
    let twice = spec_set_nft_account(program_id, once, uri, mint).unwrap();
    assert(twice =~= once);
}

} // verus!
