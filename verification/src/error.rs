//! Error kinds raised by the handler core, and their mapping to the numeric
//! error codes expected by the execution host.

use vstd::prelude::*;

verus! {

/// Every failure the core can report.
///
/// Three kinds are actually produced by this crate:
/// - [`AuthentikNFTError::InstructionUnpackError`] for malformed or truncated
///   binary input, whether a stored record or an instruction byte-string;
/// - [`AuthentikNFTError::UriTooLong`] when a record's serialized form would
///   exceed the account buffer's capacity (or the 4-byte length prefix);
/// - [`AuthentikNFTError::InvalidOwner`] when the account's owner is not the
///   expected authority.
///
/// The remaining kinds are part of the host-facing error-code table and are
/// reserved for callers of the packing helpers.
#[derive(Clone, Copy, Debug, PartialEq, Eq, Structural)]
pub enum AuthentikNFTError {
    /// Failed to unpack binary data (record or instruction).
    InstructionUnpackError,
    /// Failed to pack instruction data.
    InstructionPackError,
    /// The URI does not fit the target buffer or the length prefix.
    UriTooLong,
    /// The mint given does not match the mint on the record.
    MintMismatch,
    /// The account's owner is not the expected authority.
    InvalidOwner,
}

impl AuthentikNFTError {
    /// The numeric code under which the execution host reports this error.
    pub open spec fn spec_code(self) -> u32 {
        match self {
            AuthentikNFTError::InstructionUnpackError => 0,
            AuthentikNFTError::InstructionPackError => 1,
            AuthentikNFTError::UriTooLong => 2,
            AuthentikNFTError::MintMismatch => 3,
            AuthentikNFTError::InvalidOwner => 4,
        }
    }

    /// Finite mapping from error kind to the host's numeric representation.
    pub fn to_code(self) -> (code: u32)
        ensures
            code == self.spec_code(),
    {
        match self {
            AuthentikNFTError::InstructionUnpackError => 0,
            AuthentikNFTError::InstructionPackError => 1,
            AuthentikNFTError::UriTooLong => 2,
            AuthentikNFTError::MintMismatch => 3,
            AuthentikNFTError::InvalidOwner => 4,
        }
    }

    /// Inverse of [`AuthentikNFTError::to_code`]: recovers the error kind
    /// from a host code, or `None` for a code outside the table.
    pub fn from_code(code: u32) -> (err: Option<AuthentikNFTError>)
        ensures
            err matches Some(e) ==> e.spec_code() == code,
            err is None <==> code > 4,
    {
        match code {
            0 => Some(AuthentikNFTError::InstructionUnpackError),
            1 => Some(AuthentikNFTError::InstructionPackError),
            2 => Some(AuthentikNFTError::UriTooLong),
            3 => Some(AuthentikNFTError::MintMismatch),
            4 => Some(AuthentikNFTError::InvalidOwner),
            _ => None,
        }
    }

    /// The description of this error kind.
    pub open spec fn spec_message(self) -> Seq<char> {
        match self {
            AuthentikNFTError::InstructionUnpackError => "Failed to unpack instruction data"@,
            AuthentikNFTError::InstructionPackError => "Failed to pack instruction data"@,
            AuthentikNFTError::UriTooLong => "URI is too long"@,
            AuthentikNFTError::MintMismatch => "Mint given does not match mint on AuthentikNFT struct"@,
            AuthentikNFTError::InvalidOwner => "Invalid Owner"@,
        }
    }

    /// A short human-readable description of the error.
    pub fn message(self) -> (msg: &'static str)
        ensures
            msg@ == self.spec_message(),
    {
        match self {
            AuthentikNFTError::InstructionUnpackError => "Failed to unpack instruction data",
            AuthentikNFTError::InstructionPackError => "Failed to pack instruction data",
            AuthentikNFTError::UriTooLong => "URI is too long",
            AuthentikNFTError::MintMismatch => "Mint given does not match mint on AuthentikNFT struct",
            AuthentikNFTError::InvalidOwner => "Invalid Owner",
        }
    }
}

/// Law: the error-code table is injective — no two error kinds share a
/// numeric code, so the host can always recover the kind from the code.
pub proof fn lemma_error_codes_injective(a: AuthentikNFTError, b: AuthentikNFTError)
    ensures
        a.spec_code() == b.spec_code() ==> a == b,
{
}

} // verus!
