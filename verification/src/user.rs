//! The accounts that the server keeps.

use vstd::prelude::*;
use crate::bytes::copy_bytes;

verus! {

/// An account: its e-mail address, the salt and the hash of its password, the public key of
/// its Yubikey, and whether the Yubikey is asked for at login.
#[derive(Clone, Debug, PartialEq, Eq)]
pub struct User {
    pub email: String,
    pub salt: Vec<u8>,
    pub pwd_hash: Vec<u8>,
    pub yubikey: Vec<u8>,
    pub is_2fa: bool,
}

/// Abstract value of a `User`.
#[verifier::ext_equal]
pub struct UserView {
    pub email: Seq<char>,
    pub salt: Seq<u8>,
    pub pwd_hash: Seq<u8>,
    pub yubikey: Seq<u8>,
    pub is_2fa: bool,
}

impl UserView {
    /// The same account with its second factor set to `on`.
    pub open spec fn with_2fa(self, on: bool) -> UserView {
        UserView { is_2fa: on, ..self }
    }
}

impl User {
    /// A copy of this account.
    pub fn duplicate(&self) -> (u: User)
        ensures
            u@ == self@,
    {
        User {
            email: self.email.clone(),
            salt: copy_bytes(&self.salt),
            pwd_hash: copy_bytes(&self.pwd_hash),
            yubikey: copy_bytes(&self.yubikey),
            is_2fa: self.is_2fa,
        }
    }
}

impl View for User {
    type V = UserView;

    open spec fn view(&self) -> UserView {
        UserView {
            email: self.email@,
            salt: self.salt@,
            pwd_hash: self.pwd_hash@,
            yubikey: self.yubikey@,
            is_2fa: self.is_2fa,
        }
    }
}

} // verus!
