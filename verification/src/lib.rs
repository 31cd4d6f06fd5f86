//! On-chain state-mutation handler for NFT metadata accounts.
//!
//! Given a caller-owned account buffer and an instruction byte-string, the
//! library validates ownership, decodes the stored record, applies the
//! requested mutation and re-encodes the record in place.  The binary layout
//! (a 4-byte little-endian length prefix followed by the URI bytes and a
//! fixed 32-byte mint key) is stated as spec functions and every codec and
//! handler function is verified against it.

pub mod account;
pub mod codec;
pub mod error;
pub mod instruction;
pub mod processor;
pub mod pubkey;
pub mod state;
pub mod text;

pub use account::AccountRef;
pub use error::AuthentikNFTError;
pub use pubkey::Pubkey;
pub use state::AuthentikNFTAccount;
