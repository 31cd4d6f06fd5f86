//! The external collaborator's handle to an account: an identity, an owner
//! identity, and the account's mutable byte buffer.

use vstd::prelude::*;

use crate::pubkey::Pubkey;

verus! {

/// Mathematical model of an account: the identities as byte sequences and
/// the buffer contents.
pub struct AccountView {
    pub key: Seq<u8>,
    pub owner: Seq<u8>,
    pub data: Seq<u8>,
}

/// An account supplied with a call.
///
/// The core borrows the handle for the duration of one call: it may rewrite
/// `data` in place but never changes `key` or `owner`.
#[derive(Debug)]
pub struct AccountRef {
    /// The account's own identity.
    pub key: Pubkey,
    /// The identity authorized to mutate this account's data.
    pub owner: Pubkey,
    /// The account's fixed-capacity byte buffer.
    pub data: Vec<u8>,
}

impl View for AccountRef {
    type V = AccountView;

    open spec fn view(&self) -> AccountView {
        AccountView { key: self.key@, owner: self.owner@, data: self.data@ }
    }
}

} // verus!
