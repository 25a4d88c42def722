//! The messages that client and server exchange.

use vstd::prelude::*;
use crate::action::Action;

verus! {

/// What a client sends to create an account.
#[derive(Clone, Debug, PartialEq, Eq)]
pub struct RegisterForm {
    pub email: String,
    pub salt: Vec<u8>,
    pub pwd_hash: Vec<u8>,
    pub yubikey: Vec<u8>,
}

/// The server's challenge: the salt of the account's password and fresh random bytes.
#[derive(Clone, Debug, PartialEq, Eq)]
pub struct Challenge {
    pub salt: Vec<u8>,
    pub chal: Vec<u8>,
}

/// What a client sends to replace its password.
#[derive(Clone, Debug, PartialEq, Eq)]
pub struct ResetForm {
    pub salt: Vec<u8>,
    pub pwd_hash: Vec<u8>,
}

/// The server's verdict on the last request.
#[derive(PartialEq, Eq, Structural, Clone, Copy, Debug)]
pub enum Response {
    Success,
    Error,
}

/// Abstract value of a `RegisterForm`.
#[verifier::ext_equal]
pub struct RegisterFormView {
    pub email: Seq<char>,
    pub salt: Seq<u8>,
    pub pwd_hash: Seq<u8>,
    pub yubikey: Seq<u8>,
}

/// Abstract value of a `Challenge`.
#[verifier::ext_equal]
pub struct ChallengeView {
    pub salt: Seq<u8>,
    pub chal: Seq<u8>,
}

/// Abstract value of a `ResetForm`.
#[verifier::ext_equal]
pub struct ResetFormView {
    pub salt: Seq<u8>,
    pub pwd_hash: Seq<u8>,
}

impl View for RegisterForm {
    type V = RegisterFormView;

    open spec fn view(&self) -> RegisterFormView {
        RegisterFormView {
            email: self.email@,
            salt: self.salt@,
            pwd_hash: self.pwd_hash@,
            yubikey: self.yubikey@,
        }
    }
}

impl View for Challenge {
    type V = ChallengeView;

    open spec fn view(&self) -> ChallengeView {
        ChallengeView { salt: self.salt@, chal: self.chal@ }
    }
}

impl View for ResetForm {
    type V = ResetFormView;

    open spec fn view(&self) -> ResetFormView {
        ResetFormView { salt: self.salt@, pwd_hash: self.pwd_hash@ }
    }
}

/// The request that a client picks from the start menu.
#[derive(PartialEq, Eq, Structural, Clone, Copy, Debug)]
pub enum Authenticate {
    Authenticate,
    Register,
    Reset,
    Exit,
}

/// A message from client to server.
#[derive(Debug, PartialEq, Eq)]
pub enum Incoming {
    Choice(Authenticate),
    Text(String),
    Bytes(Vec<u8>),
    Registration(RegisterForm),
    NewPassword(ResetForm),
    Act(Action),
}

/// A message from server to client.
#[derive(Debug, PartialEq, Eq)]
pub enum Outgoing {
    Reply(Response),
    Flag(bool),
    Chal(Challenge),
}

#[verifier::ext_equal]
pub enum IncomingView {
    Choice(Authenticate),
    Text(Seq<char>),
    Bytes(Seq<u8>),
    Registration(RegisterFormView),
    NewPassword(ResetFormView),
    Act(Action),
}

#[verifier::ext_equal]
pub enum OutgoingView {
    Reply(Response),
    Flag(bool),
    Chal(ChallengeView),
}

impl View for Incoming {
    type V = IncomingView;

    open spec fn view(&self) -> IncomingView {
        match self {
            Incoming::Choice(c) => IncomingView::Choice(*c),
            Incoming::Text(s) => IncomingView::Text(s@),
            Incoming::Bytes(b) => IncomingView::Bytes(b@),
            Incoming::Registration(f) => IncomingView::Registration(f@),
            Incoming::NewPassword(f) => IncomingView::NewPassword(f@),
            Incoming::Act(a) => IncomingView::Act(*a),
        }
    }
}

impl View for Outgoing {
    type V = OutgoingView;

    open spec fn view(&self) -> OutgoingView {
        match self {
            Outgoing::Reply(r) => OutgoingView::Reply(*r),
            Outgoing::Flag(b) => OutgoingView::Flag(*b),
            Outgoing::Chal(c) => OutgoingView::Chal(c@),
        }
    }
}

} // verus!
