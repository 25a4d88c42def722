//! The client's side of the protocol, as a machine that reacts to one event at a time.
//!
//! A client starts in `ClientState::Menu`. Each call of `client_step` takes the state and
//! what the outside world produced (a menu choice, a line the user typed, a message of the
//! server, an answer of the Yubikey) and gives the next state, what to print and send, in
//! order, and the one thing to wait for next.

use vstd::prelude::*;
use vstd::string::{StrSliceExecFns, StringExecFns};
use crate::action::Action;
use crate::communication_types::{
    Authenticate, Challenge, Incoming, IncomingView, Outgoing, OutgoingView, RegisterForm,
    RegisterFormView, ResetForm, ResetFormView, Response,
};
use crate::crypto::{
    argon2id_interactive, get_mac, hash_pwd, hash_pwd_with_salt, hmac_sha256, sha256,
    signing_input,
};
use crate::validations::{
    is_valid_email, is_valid_password, spec_is_valid_email, spec_is_valid_password, utf8_len,
};

verus! {

/// A line that the client asks the user for.
#[derive(PartialEq, Eq, Structural, Clone, Copy, Debug)]
pub enum Prompt {
    Email,
    Password,
    Token,
    NewPassword,
}

/// Why a request of the start menu failed.
#[derive(PartialEq, Eq, Structural, Clone, Copy, Debug)]
pub enum Failure {
    WrongCredentials,
    WrongYubikey,
    WrongToken,
    ServerError,
    /// The server sent a message of another kind than the protocol asks for.
    Protocol,
}

/// A line that the client prints.
#[derive(PartialEq, Eq, Structural, Clone, Copy, Debug)]
pub enum Note {
    RegisterBanner,
    KeyOk,
    InvalidInput,
    Registered,
    AuthBanner,
    SecondFactor,
    ResetBanner,
    MailSent,
    InvalidEmail,
    InvalidPassword,
    Exiting,
    Welcome,
    LoggedOut,
    TwoFactor(bool),
    Failed(Failure),
}

/// The kind of message that the client reads next from the server.
#[derive(PartialEq, Eq, Structural, Clone, Copy, Debug)]
pub enum ServerKind {
    Reply,
    Flag,
    Chal,
}

/// One thing the client does before it waits: print a line or send a message.
#[derive(Debug, PartialEq, Eq)]
pub enum ClientOut {
    Say(Note),
    Send(Incoming),
    /// Report that the Yubikey failed, with the device's own error text.
    DeviceError(String),
}

/// What the outside world reports to the client machine.
#[derive(Debug, PartialEq, Eq)]
pub enum ClientEvent {
    /// The user picked a request of the start menu.
    Chose(Authenticate),
    /// The logged-in user picked an action.
    Picked(Action),
    /// The user typed a line.
    Typed(String),
    /// The server sent a message.
    Received(Outgoing),
    /// The Yubikey gave the public key of a key pair it generated.
    PublicKey(Vec<u8>),
    /// The Yubikey signed the message.
    Signed(Vec<u8>),
    /// The Yubikey failed, with this error text.
    DeviceFailed(String),
}

/// The one outside operation that the client machine waits for.
#[derive(Debug, PartialEq, Eq)]
pub enum ClientWait {
    /// Show the start menu and read a choice.
    ChooseAuth,
    /// Show the actions of a logged-in user and read a choice.
    ChooseAction,
    /// Ask the user for a line.
    Ask(Prompt),
    /// Read a message of this kind from the server.
    Receive(ServerKind),
    /// Have the Yubikey generate a key pair and give its public key.
    FetchPublicKey,
    /// Have the Yubikey sign this SHA-256 digest.
    Sign(Vec<u8>),
    /// Leave the program.
    Exit,
}

/// Where the client stands.
#[derive(Debug, PartialEq, Eq)]
pub enum ClientState {
    Menu,
    RegEmail,
    RegPassword { email: String },
    RegKey { email: String, salt: Vec<u8>, pwd_hash: Vec<u8> },
    RegReply,
    AuthEmail,
    AuthPassword { email: String },
    AuthChallenge { password: String },
    AuthVerdict { challenge: Vec<u8> },
    AuthFlag { challenge: Vec<u8> },
    AuthSigning { challenge: Vec<u8> },
    AuthSecondVerdict,
    ResetEmail,
    ResetToken,
    ResetVerdict { token: String },
    ResetFlag { token: String },
    ResetSigning { token: String },
    ResetSigVerdict,
    ResetNewPassword,
    ResetStored,
    LoggedIn,
    Switching,
    Exited,
}

/// What a call of `client_step` hands back.
#[derive(Debug, PartialEq, Eq)]
pub struct ClientReaction {
    pub state: ClientState,
    pub outs: Vec<ClientOut>,
    pub wait: ClientWait,
}

// ---------------------------------------------------------------------------------------
// Abstract values
// ---------------------------------------------------------------------------------------

#[verifier::ext_equal]
pub enum ClientOutView {
    Say(Note),
    Send(IncomingView),
    DeviceError(Seq<char>),
}

#[verifier::ext_equal]
pub enum ClientEventView {
    Chose(Authenticate),
    Picked(Action),
    Typed(Seq<char>),
    Received(OutgoingView),
    PublicKey(Seq<u8>),
    Signed(Seq<u8>),
    DeviceFailed(Seq<char>),
}

#[verifier::ext_equal]
pub enum ClientWaitView {
    ChooseAuth,
    ChooseAction,
    Ask(Prompt),
    Receive(ServerKind),
    FetchPublicKey,
    Sign(Seq<u8>),
    Exit,
}

#[verifier::ext_equal]
pub enum ClientStateView {
    Menu,
    RegEmail,
    RegPassword { email: Seq<char> },
    RegKey { email: Seq<char>, salt: Seq<u8>, pwd_hash: Seq<u8> },
    RegReply,
    AuthEmail,
    AuthPassword { email: Seq<char> },
    AuthChallenge { password: Seq<char> },
    AuthVerdict { challenge: Seq<u8> },
    AuthFlag { challenge: Seq<u8> },
    AuthSigning { challenge: Seq<u8> },
    AuthSecondVerdict,
    ResetEmail,
    ResetToken,
    ResetVerdict { token: Seq<char> },
    ResetFlag { token: Seq<char> },
    ResetSigning { token: Seq<char> },
    ResetSigVerdict,
    ResetNewPassword,
    ResetStored,
    LoggedIn,
    Switching,
    Exited,
}

impl View for ClientOut {
    type V = ClientOutView;

    open spec fn view(&self) -> ClientOutView {
        match self {
            ClientOut::Say(n) => ClientOutView::Say(*n),
            ClientOut::Send(m) => ClientOutView::Send(m@),
            ClientOut::DeviceError(t) => ClientOutView::DeviceError(t@),
        }
    }
}

impl View for ClientEvent {
    type V = ClientEventView;

    open spec fn view(&self) -> ClientEventView {
        match self {
            ClientEvent::Chose(c) => ClientEventView::Chose(*c),
            ClientEvent::Picked(a) => ClientEventView::Picked(*a),
            ClientEvent::Typed(s) => ClientEventView::Typed(s@),
            ClientEvent::Received(m) => ClientEventView::Received(m@),
            ClientEvent::PublicKey(k) => ClientEventView::PublicKey(k@),
            ClientEvent::Signed(s) => ClientEventView::Signed(s@),
            ClientEvent::DeviceFailed(t) => ClientEventView::DeviceFailed(t@),
        }
    }
}

impl View for ClientWait {
    type V = ClientWaitView;

    open spec fn view(&self) -> ClientWaitView {
        match self {
            ClientWait::ChooseAuth => ClientWaitView::ChooseAuth,
            ClientWait::ChooseAction => ClientWaitView::ChooseAction,
            ClientWait::Ask(p) => ClientWaitView::Ask(*p),
            ClientWait::Receive(k) => ClientWaitView::Receive(*k),
            ClientWait::FetchPublicKey => ClientWaitView::FetchPublicKey,
            ClientWait::Sign(m) => ClientWaitView::Sign(m@),
            ClientWait::Exit => ClientWaitView::Exit,
        }
    }
}

impl View for ClientState {
    type V = ClientStateView;

    open spec fn view(&self) -> ClientStateView {
        match self {
            ClientState::Menu => ClientStateView::Menu,
            ClientState::RegEmail => ClientStateView::RegEmail,
            ClientState::RegPassword { email } => ClientStateView::RegPassword { email: email@ },
            ClientState::RegKey { email, salt, pwd_hash } => ClientStateView::RegKey {
                email: email@,
                salt: salt@,
                pwd_hash: pwd_hash@,
            },
            ClientState::RegReply => ClientStateView::RegReply,
            ClientState::AuthEmail => ClientStateView::AuthEmail,
            ClientState::AuthPassword { email } => ClientStateView::AuthPassword { email: email@ },
            ClientState::AuthChallenge { password } => ClientStateView::AuthChallenge {
                password: password@,
            },
            ClientState::AuthVerdict { challenge } => ClientStateView::AuthVerdict {
                challenge: challenge@,
            },
            ClientState::AuthFlag { challenge } => ClientStateView::AuthFlag {
                challenge: challenge@,
            },
            ClientState::AuthSigning { challenge } => ClientStateView::AuthSigning {
                challenge: challenge@,
            },
            ClientState::AuthSecondVerdict => ClientStateView::AuthSecondVerdict,
            ClientState::ResetEmail => ClientStateView::ResetEmail,
            ClientState::ResetToken => ClientStateView::ResetToken,
            ClientState::ResetVerdict { token } => ClientStateView::ResetVerdict { token: token@ },
            ClientState::ResetFlag { token } => ClientStateView::ResetFlag { token: token@ },
            ClientState::ResetSigning { token } => ClientStateView::ResetSigning { token: token@ },
            ClientState::ResetSigVerdict => ClientStateView::ResetSigVerdict,
            ClientState::ResetNewPassword => ClientStateView::ResetNewPassword,
            ClientState::ResetStored => ClientStateView::ResetStored,
            ClientState::LoggedIn => ClientStateView::LoggedIn,
            ClientState::Switching => ClientStateView::Switching,
            ClientState::Exited => ClientStateView::Exited,
        }
    }
}

/// Abstract value of a list of things the client does.
pub open spec fn outs_view(v: Seq<ClientOut>) -> Seq<ClientOutView> {
    v.map_values(|o: ClientOut| o@)
}

// ---------------------------------------------------------------------------------------
// The protocol
// ---------------------------------------------------------------------------------------

/// The bytes that a password is hashed as: its UTF-8 encoding.
pub open spec fn password_bytes(password: Seq<char>) -> Seq<u8> {
    vstd::utf8::encode_utf8(password)
}

/// The answer to a challenge that the client computes from the password it was given.
pub open spec fn challenge_answer(password: Seq<char>, challenge: Seq<u8>, salt: Seq<u8>) -> Seq<
    u8,
> {
    hmac_sha256(argon2id_interactive(password_bytes(password), salt), challenge)
}

/// The request failed: back to the start menu, saying why.
pub open spec fn failed(f: Failure) -> (ClientStateView, Seq<ClientOutView>) {
    (ClientStateView::Menu, seq![ClientOutView::Say(Note::Failed(f))])
}

/// The Yubikey failed: back to the start menu, reporting the device's error text.
pub open spec fn device_failed(text: Seq<char>) -> (ClientStateView, Seq<ClientOutView>) {
    (ClientStateView::Menu, seq![ClientOutView::DeviceError(text)])
}

/// The line that reports a failed request whose error reads `message`.
pub open spec fn failure_line(message: Seq<char>) -> Seq<char> {
    "Authentication failed with following errors: "@ + message + "\n"@
}

/// What the client waits for in state `s`.
pub open spec fn client_expected_wait(s: ClientStateView) -> ClientWaitView {
    match s {
        ClientStateView::Menu => ClientWaitView::ChooseAuth,
        ClientStateView::RegEmail => ClientWaitView::Ask(Prompt::Email),
        ClientStateView::RegPassword { .. } => ClientWaitView::Ask(Prompt::Password),
        ClientStateView::RegKey { .. } => ClientWaitView::FetchPublicKey,
        ClientStateView::RegReply => ClientWaitView::Receive(ServerKind::Reply),
        ClientStateView::AuthEmail => ClientWaitView::Ask(Prompt::Email),
        ClientStateView::AuthPassword { .. } => ClientWaitView::Ask(Prompt::Password),
        ClientStateView::AuthChallenge { .. } => ClientWaitView::Receive(ServerKind::Chal),
        ClientStateView::AuthVerdict { .. } => ClientWaitView::Receive(ServerKind::Reply),
        ClientStateView::AuthFlag { .. } => ClientWaitView::Receive(ServerKind::Flag),
        ClientStateView::AuthSigning { challenge } => ClientWaitView::Sign(sha256(challenge)),
        ClientStateView::AuthSecondVerdict => ClientWaitView::Receive(ServerKind::Reply),
        ClientStateView::ResetEmail => ClientWaitView::Ask(Prompt::Email),
        ClientStateView::ResetToken => ClientWaitView::Ask(Prompt::Token),
        ClientStateView::ResetVerdict { .. } => ClientWaitView::Receive(ServerKind::Reply),
        ClientStateView::ResetFlag { .. } => ClientWaitView::Receive(ServerKind::Flag),
        ClientStateView::ResetSigning { token } => ClientWaitView::Sign(sha256(password_bytes(token))),
        ClientStateView::ResetSigVerdict => ClientWaitView::Receive(ServerKind::Reply),
        ClientStateView::ResetNewPassword => ClientWaitView::Ask(Prompt::NewPassword),
        ClientStateView::ResetStored => ClientWaitView::Receive(ServerKind::Reply),
        ClientStateView::LoggedIn => ClientWaitView::ChooseAction,
        ClientStateView::Switching => ClientWaitView::Receive(ServerKind::Flag),
        ClientStateView::Exited => ClientWaitView::Exit,
    }
}

/// What the client can take in state `s`: a password it hashes has at most `0xFFFF_FFFF`
/// bytes, and a salt it hashes under has between 8 and `0xFFFF_FFFF` bytes; on other inputs
/// the hashing panics.
pub open spec fn client_event_ok(s: ClientStateView, e: ClientEventView) -> bool {
    match (s, e) {
        (ClientStateView::RegPassword { .. }, ClientEventView::Typed(p)) => utf8_len(p)
            <= 0xFFFF_FFFF,
        (ClientStateView::ResetNewPassword, ClientEventView::Typed(p)) => utf8_len(p)
            <= 0xFFFF_FFFF,
        (
            ClientStateView::AuthChallenge { password },
            ClientEventView::Received(OutgoingView::Chal(c)),
        ) => utf8_len(password) <= 0xFFFF_FFFF && 8 <= c.salt.len() <= 0xFFFF_FFFF,
        _ => true,
    }
}

/// How many random bytes the client draws: the salt of a new password.
pub open spec fn client_fresh_len(s: ClientStateView, e: ClientEventView) -> nat {
    match (s, e) {
        (ClientStateView::RegPassword { .. }, ClientEventView::Typed(p)) => if spec_is_valid_password(
            p,
        ) {
            16
        } else {
            0
        },
        (ClientStateView::ResetNewPassword, ClientEventView::Typed(p)) => if spec_is_valid_password(
            p,
        ) {
            16
        } else {
            0
        },
        _ => 0,
    }
}

/// The client's protocol: the next state and what it prints and sends when event `e`
/// arrives in state `s`, `salt` being the salt drawn for a new password.
pub open spec fn client_next(s: ClientStateView, e: ClientEventView, salt: Seq<u8>) -> (
    ClientStateView,
    Seq<ClientOutView>,
) {
    match s {
        ClientStateView::Menu => match e {
            ClientEventView::Chose(c) => match c {
                Authenticate::Authenticate => (
                    ClientStateView::AuthEmail,
                    seq![
                        ClientOutView::Send(IncomingView::Choice(c)),
                        ClientOutView::Say(Note::AuthBanner),
                    ],
                ),
                Authenticate::Register => (
                    ClientStateView::RegEmail,
                    seq![
                        ClientOutView::Send(IncomingView::Choice(c)),
                        ClientOutView::Say(Note::RegisterBanner),
                    ],
                ),
                Authenticate::Reset => (
                    ClientStateView::ResetEmail,
                    seq![
                        ClientOutView::Send(IncomingView::Choice(c)),
                        ClientOutView::Say(Note::ResetBanner),
                    ],
                ),
                Authenticate::Exit => (
                    ClientStateView::Exited,
                    seq![
                        ClientOutView::Send(IncomingView::Choice(c)),
                        ClientOutView::Say(Note::Exiting),
                    ],
                ),
            },
            _ => (ClientStateView::Menu, Seq::empty()),
        },
        ClientStateView::RegEmail => match e {
            ClientEventView::Typed(t) => if spec_is_valid_email(t) {
                (ClientStateView::RegPassword { email: t }, Seq::empty())
            } else {
                (ClientStateView::RegEmail, seq![ClientOutView::Say(Note::InvalidEmail)])
            },
            _ => failed(Failure::Protocol),
        },
        ClientStateView::RegPassword { email } => match e {
            ClientEventView::Typed(p) => if spec_is_valid_password(p) {
                (
                    ClientStateView::RegKey {
                        email,
                        salt,
                        pwd_hash: argon2id_interactive(password_bytes(p), salt),
                    },
                    Seq::empty(),
                )
            } else {
                (
                    ClientStateView::RegPassword { email },
                    seq![ClientOutView::Say(Note::InvalidPassword)],
                )
            },
            _ => failed(Failure::Protocol),
        },
        ClientStateView::RegKey { email, salt, pwd_hash } => match e {
            ClientEventView::PublicKey(k) => (
                ClientStateView::RegReply,
                seq![
                    ClientOutView::Say(Note::KeyOk),
                    ClientOutView::Send(
                        IncomingView::Registration(
                            RegisterFormView { email, salt, pwd_hash, yubikey: k },
                        ),
                    ),
                ],
            ),
            ClientEventView::DeviceFailed(t) => device_failed(t),
            _ => failed(Failure::Protocol),
        },
        ClientStateView::RegReply => match e {
            ClientEventView::Received(OutgoingView::Reply(Response::Success)) => (
                ClientStateView::LoggedIn,
                seq![ClientOutView::Say(Note::Registered), ClientOutView::Say(Note::Welcome)],
            ),
            ClientEventView::Received(OutgoingView::Reply(Response::Error)) => (
                ClientStateView::RegEmail,
                seq![
                    ClientOutView::Say(Note::InvalidInput),
                    ClientOutView::Say(Note::RegisterBanner),
                ],
            ),
            _ => failed(Failure::Protocol),
        },
        ClientStateView::AuthEmail => match e {
            ClientEventView::Typed(t) => if spec_is_valid_email(t) {
                (ClientStateView::AuthPassword { email: t }, Seq::empty())
            } else {
                (ClientStateView::AuthEmail, seq![ClientOutView::Say(Note::InvalidEmail)])
            },
            _ => failed(Failure::Protocol),
        },
        ClientStateView::AuthPassword { email } => match e {
            ClientEventView::Typed(p) => (
                ClientStateView::AuthChallenge { password: p },
                seq![ClientOutView::Send(IncomingView::Text(email))],
            ),
            _ => failed(Failure::Protocol),
        },
        ClientStateView::AuthChallenge { password } => match e {
            ClientEventView::Received(OutgoingView::Chal(c)) => (
                ClientStateView::AuthVerdict { challenge: c.chal },
                seq![
                    ClientOutView::Send(
                        IncomingView::Bytes(challenge_answer(password, c.chal, c.salt)),
                    ),
                ],
            ),
            _ => failed(Failure::Protocol),
        },
        ClientStateView::AuthVerdict { challenge } => match e {
            ClientEventView::Received(OutgoingView::Reply(Response::Success)) => (
                ClientStateView::AuthFlag { challenge },
                Seq::empty(),
            ),
            ClientEventView::Received(OutgoingView::Reply(Response::Error)) => failed(
                Failure::WrongCredentials,
            ),
            _ => failed(Failure::Protocol),
        },
        ClientStateView::AuthFlag { challenge } => match e {
            ClientEventView::Received(OutgoingView::Flag(false)) => (
                ClientStateView::LoggedIn,
                seq![ClientOutView::Say(Note::Welcome)],
            ),
            ClientEventView::Received(OutgoingView::Flag(true)) => (
                ClientStateView::AuthSigning { challenge },
                seq![ClientOutView::Say(Note::SecondFactor)],
            ),
            _ => failed(Failure::Protocol),
        },
        ClientStateView::AuthSigning { challenge } => match e {
            ClientEventView::Signed(sig) => (
                ClientStateView::AuthSecondVerdict,
                seq![ClientOutView::Send(IncomingView::Bytes(sig))],
            ),
            ClientEventView::DeviceFailed(t) => device_failed(t),
            _ => failed(Failure::Protocol),
        },
        ClientStateView::AuthSecondVerdict => match e {
            ClientEventView::Received(OutgoingView::Reply(Response::Success)) => (
                ClientStateView::LoggedIn,
                seq![ClientOutView::Say(Note::Welcome)],
            ),
            ClientEventView::Received(OutgoingView::Reply(Response::Error)) => failed(
                Failure::WrongYubikey,
            ),
            _ => failed(Failure::Protocol),
        },
        ClientStateView::ResetEmail => match e {
            ClientEventView::Typed(t) => if spec_is_valid_email(t) {
                (
                    ClientStateView::ResetToken,
                    seq![
                        ClientOutView::Send(IncomingView::Text(t)),
                        ClientOutView::Say(Note::MailSent),
                    ],
                )
            } else {
                (ClientStateView::ResetEmail, seq![ClientOutView::Say(Note::InvalidEmail)])
            },
            _ => failed(Failure::Protocol),
        },
        ClientStateView::ResetToken => match e {
            ClientEventView::Typed(t) => (
                ClientStateView::ResetVerdict { token: t },
                seq![ClientOutView::Send(IncomingView::Text(t))],
            ),
            _ => failed(Failure::Protocol),
        },
        ClientStateView::ResetVerdict { token } => match e {
            ClientEventView::Received(OutgoingView::Reply(Response::Success)) => (
                ClientStateView::ResetFlag { token },
                Seq::empty(),
            ),
            ClientEventView::Received(OutgoingView::Reply(Response::Error)) => failed(
                Failure::WrongToken,
            ),
            _ => failed(Failure::Protocol),
        },
        ClientStateView::ResetFlag { token } => match e {
            ClientEventView::Received(OutgoingView::Flag(true)) => (
                ClientStateView::ResetSigning { token },
                Seq::empty(),
            ),
            ClientEventView::Received(OutgoingView::Flag(false)) => (
                ClientStateView::ResetNewPassword,
                Seq::empty(),
            ),
            _ => failed(Failure::Protocol),
        },
        ClientStateView::ResetSigning { token } => match e {
            ClientEventView::Signed(sig) => (
                ClientStateView::ResetSigVerdict,
                seq![ClientOutView::Send(IncomingView::Bytes(sig))],
            ),
            ClientEventView::DeviceFailed(t) => device_failed(t),
            _ => failed(Failure::Protocol),
        },
        ClientStateView::ResetSigVerdict => match e {
            ClientEventView::Received(OutgoingView::Reply(Response::Success)) => (
                ClientStateView::ResetNewPassword,
                Seq::empty(),
            ),
            ClientEventView::Received(OutgoingView::Reply(Response::Error)) => failed(
                Failure::WrongYubikey,
            ),
            _ => failed(Failure::Protocol),
        },
        ClientStateView::ResetNewPassword => match e {
            ClientEventView::Typed(p) => if spec_is_valid_password(p) {
                (
                    ClientStateView::ResetStored,
                    seq![
                        ClientOutView::Send(
                            IncomingView::NewPassword(
                                ResetFormView {
                                    salt,
                                    pwd_hash: argon2id_interactive(password_bytes(p), salt),
                                },
                            ),
                        ),
                    ],
                )
            } else {
                (ClientStateView::ResetNewPassword, seq![ClientOutView::Say(Note::InvalidPassword)])
            },
            _ => failed(Failure::Protocol),
        },
        ClientStateView::ResetStored => match e {
            ClientEventView::Received(OutgoingView::Reply(Response::Success)) => (
                ClientStateView::LoggedIn,
                seq![ClientOutView::Say(Note::Welcome)],
            ),
            ClientEventView::Received(OutgoingView::Reply(Response::Error)) => failed(
                Failure::ServerError,
            ),
            _ => failed(Failure::Protocol),
        },
        ClientStateView::LoggedIn => match e {
            ClientEventView::Picked(a) => match a {
                Action::Switch2FA => (
                    ClientStateView::Switching,
                    seq![ClientOutView::Send(IncomingView::Act(a))],
                ),
                Action::Logout => (
                    ClientStateView::Menu,
                    seq![
                        ClientOutView::Send(IncomingView::Act(a)),
                        ClientOutView::Say(Note::LoggedOut),
                    ],
                ),
            },
            _ => (ClientStateView::LoggedIn, Seq::empty()),
        },
        ClientStateView::Switching => match e {
            ClientEventView::Received(OutgoingView::Flag(on)) => (
                ClientStateView::LoggedIn,
                seq![ClientOutView::Say(Note::TwoFactor(on))],
            ),
            _ => failed(Failure::Protocol),
        },
        ClientStateView::Exited => (ClientStateView::Exited, Seq::empty()),
    }
}

// ---------------------------------------------------------------------------------------
// Executable machine
// ---------------------------------------------------------------------------------------

fn outs_none() -> (v: Vec<ClientOut>)
    ensures
        outs_view(v@) == Seq::<ClientOutView>::empty(),
{
    let v: Vec<ClientOut> = Vec::new();
    assert(outs_view(v@) =~= Seq::<ClientOutView>::empty());
    v
}

fn outs_one(o: ClientOut) -> (v: Vec<ClientOut>)
    ensures
        outs_view(v@) == seq![o@],
{
    let mut v: Vec<ClientOut> = Vec::new();
    v.push(o);
    assert(outs_view(v@) =~= seq![o@]);
    v
}

fn outs_two(o1: ClientOut, o2: ClientOut) -> (v: Vec<ClientOut>)
    ensures
        outs_view(v@) == seq![o1@, o2@],
{
    let mut v: Vec<ClientOut> = Vec::new();
    v.push(o1);
    v.push(o2);
    assert(outs_view(v@) =~= seq![o1@, o2@]);
    v
}

fn fail_device(text: String) -> (r: (ClientState, Vec<ClientOut>))
    ensures
        (r.0@, outs_view(r.1@)) == device_failed(text@),
{
    (ClientState::Menu, outs_one(ClientOut::DeviceError(text)))
}

fn fail(f: Failure) -> (r: (ClientState, Vec<ClientOut>))
    ensures
        (r.0@, outs_view(r.1@)) == failed(f),
{
    (ClientState::Menu, outs_one(ClientOut::Say(Note::Failed(f))))
}

/// What the client waits for in `state`.
pub fn client_wait_of(state: &ClientState) -> (w: ClientWait)
    ensures
        w@ == client_expected_wait(state@),
{
    match state {
        ClientState::Menu => ClientWait::ChooseAuth,
        ClientState::RegEmail => ClientWait::Ask(Prompt::Email),
        ClientState::RegPassword { .. } => ClientWait::Ask(Prompt::Password),
        ClientState::RegKey { .. } => ClientWait::FetchPublicKey,
        ClientState::RegReply => ClientWait::Receive(ServerKind::Reply),
        ClientState::AuthEmail => ClientWait::Ask(Prompt::Email),
        ClientState::AuthPassword { .. } => ClientWait::Ask(Prompt::Password),
        ClientState::AuthChallenge { .. } => ClientWait::Receive(ServerKind::Chal),
        ClientState::AuthVerdict { .. } => ClientWait::Receive(ServerKind::Reply),
        ClientState::AuthFlag { .. } => ClientWait::Receive(ServerKind::Flag),
        ClientState::AuthSigning { challenge } => ClientWait::Sign(signing_input(challenge)),
        ClientState::AuthSecondVerdict => ClientWait::Receive(ServerKind::Reply),
        ClientState::ResetEmail => ClientWait::Ask(Prompt::Email),
        ClientState::ResetToken => ClientWait::Ask(Prompt::Token),
        ClientState::ResetVerdict { .. } => ClientWait::Receive(ServerKind::Reply),
        ClientState::ResetFlag { .. } => ClientWait::Receive(ServerKind::Flag),
        ClientState::ResetSigning { token } => {
            let message = token.as_str().as_bytes_vec();
            ClientWait::Sign(signing_input(&message))
        },
        ClientState::ResetSigVerdict => ClientWait::Receive(ServerKind::Reply),
        ClientState::ResetNewPassword => ClientWait::Ask(Prompt::NewPassword),
        ClientState::ResetStored => ClientWait::Receive(ServerKind::Reply),
        ClientState::LoggedIn => ClientWait::ChooseAction,
        ClientState::Switching => ClientWait::Receive(ServerKind::Flag),
        ClientState::Exited => ClientWait::Exit,
    }
}

/// The group of states that a state belongs to, for splitting the transition function.
spec fn client_group(s: ClientStateView) -> int {
    match s {
        ClientStateView::Menu { .. } => 0,
        ClientStateView::RegEmail { .. } => 0,
        ClientStateView::RegPassword { .. } => 0,
        ClientStateView::RegKey { .. } => 0,
        ClientStateView::RegReply { .. } => 0,
        ClientStateView::AuthEmail { .. } => 1,
        ClientStateView::AuthPassword { .. } => 1,
        ClientStateView::AuthChallenge { .. } => 1,
        ClientStateView::AuthVerdict { .. } => 1,
        ClientStateView::AuthFlag { .. } => 1,
        ClientStateView::AuthSigning { .. } => 1,
        ClientStateView::AuthSecondVerdict { .. } => 1,
        ClientStateView::ResetEmail { .. } => 2,
        ClientStateView::ResetToken { .. } => 2,
        ClientStateView::ResetVerdict { .. } => 2,
        ClientStateView::ResetFlag { .. } => 2,
        ClientStateView::ResetSigning { .. } => 2,
        ClientStateView::ResetSigVerdict { .. } => 2,
        ClientStateView::ResetNewPassword { .. } => 3,
        ClientStateView::ResetStored { .. } => 3,
        ClientStateView::LoggedIn { .. } => 3,
        ClientStateView::Switching { .. } => 3,
        ClientStateView::Exited { .. } => 3,
    }
}

fn registration_transition(state: ClientState, event: ClientEvent) -> (r: (
    ClientState,
    Vec<ClientOut>,
    Ghost<Seq<u8>>,
))
    requires
        client_event_ok(state@, event@),
        client_group(state@) == 0,
    ensures
        r.2@.len() == client_fresh_len(state@, event@),
        (r.0@, outs_view(r.1@)) == client_next(state@, event@, r.2@),
{
    let ghost no_salt = Seq::<u8>::empty();
    match state {
        ClientState::Menu => match event {
            ClientEvent::Chose(c) => {
                let (s, banner) = match c {
                    Authenticate::Authenticate => (ClientState::AuthEmail, Note::AuthBanner),
                    Authenticate::Register => (ClientState::RegEmail, Note::RegisterBanner),
                    Authenticate::Reset => (ClientState::ResetEmail, Note::ResetBanner),
                    Authenticate::Exit => (ClientState::Exited, Note::Exiting),
                };
                (
                    s,
                    outs_two(ClientOut::Send(Incoming::Choice(c)), ClientOut::Say(banner)),
                    Ghost(no_salt),
                )
            },
            _ => (ClientState::Menu, outs_none(), Ghost(no_salt)),
        },
        ClientState::RegEmail => match event {
            ClientEvent::Typed(t) => if is_valid_email(&t) {
                (ClientState::RegPassword { email: t }, outs_none(), Ghost(no_salt))
            } else {
                (ClientState::RegEmail, outs_one(ClientOut::Say(Note::InvalidEmail)), Ghost(no_salt))
            },
            _ => {
                let (s, o) = fail(Failure::Protocol);
                (s, o, Ghost(no_salt))
            },
        },
        ClientState::RegPassword { email } => match event {
            ClientEvent::Typed(p) => if is_valid_password(&p) {
                let h = hash_pwd(p);
                let ghost salt = h.salt@;
                (
                    ClientState::RegKey { email, salt: h.salt, pwd_hash: h.hash },
                    outs_none(),
                    Ghost(salt),
                )
            } else {
                (
                    ClientState::RegPassword { email },
                    outs_one(ClientOut::Say(Note::InvalidPassword)),
                    Ghost(no_salt),
                )
            },
            _ => {
                let (s, o) = fail(Failure::Protocol);
                (s, o, Ghost(no_salt))
            },
        },
        ClientState::RegKey { email, salt, pwd_hash } => match event {
            ClientEvent::PublicKey(yubikey) => {
                let form = RegisterForm { email, salt, pwd_hash, yubikey };
                (
                    ClientState::RegReply,
                    outs_two(
                        ClientOut::Say(Note::KeyOk),
                        ClientOut::Send(Incoming::Registration(form)),
                    ),
                    Ghost(no_salt),
                )
            },
            ClientEvent::DeviceFailed(t) => {
                let (s, o) = fail_device(t);
                (s, o, Ghost(no_salt))
            },
            _ => {
                let (s, o) = fail(Failure::Protocol);
                (s, o, Ghost(no_salt))
            },
        },
        ClientState::RegReply => match event {
            ClientEvent::Received(Outgoing::Reply(Response::Success)) => (
                ClientState::LoggedIn,
                outs_two(ClientOut::Say(Note::Registered), ClientOut::Say(Note::Welcome)),
                Ghost(no_salt),
            ),
            ClientEvent::Received(Outgoing::Reply(Response::Error)) => (
                ClientState::RegEmail,
                outs_two(ClientOut::Say(Note::InvalidInput), ClientOut::Say(Note::RegisterBanner)),
                Ghost(no_salt),
            ),
            _ => {
                let (s, o) = fail(Failure::Protocol);
                (s, o, Ghost(no_salt))
            },
        },
        _ => {
            let (s, o) = fail(Failure::Protocol);
            (s, o, Ghost(no_salt))
        },
    }
}

fn authentication_transition(state: ClientState, event: ClientEvent) -> (r: (
    ClientState,
    Vec<ClientOut>,
    Ghost<Seq<u8>>,
))
    requires
        client_event_ok(state@, event@),
        client_group(state@) == 1,
    ensures
        r.2@.len() == client_fresh_len(state@, event@),
        (r.0@, outs_view(r.1@)) == client_next(state@, event@, r.2@),
{
    let ghost no_salt = Seq::<u8>::empty();
    match state {
        ClientState::AuthEmail => match event {
            ClientEvent::Typed(t) => if is_valid_email(&t) {
                (ClientState::AuthPassword { email: t }, outs_none(), Ghost(no_salt))
            } else {
                (ClientState::AuthEmail, outs_one(ClientOut::Say(Note::InvalidEmail)), Ghost(no_salt))
            },
            _ => {
                let (s, o) = fail(Failure::Protocol);
                (s, o, Ghost(no_salt))
            },
        },
        ClientState::AuthPassword { email } => match event {
            ClientEvent::Typed(p) => (
                ClientState::AuthChallenge { password: p },
                outs_one(ClientOut::Send(Incoming::Text(email))),
                Ghost(no_salt),
            ),
            _ => {
                let (s, o) = fail(Failure::Protocol);
                (s, o, Ghost(no_salt))
            },
        },
        ClientState::AuthChallenge { password } => match event {
            ClientEvent::Received(Outgoing::Chal(challenge)) => {
                let Challenge { salt, chal } = challenge;
                let h = hash_pwd_with_salt(password, salt);
                let mac = get_mac(&h.hash, &chal);
                (
                    ClientState::AuthVerdict { challenge: chal },
                    outs_one(ClientOut::Send(Incoming::Bytes(mac))),
                    Ghost(no_salt),
                )
            },
            _ => {
                let (s, o) = fail(Failure::Protocol);
                (s, o, Ghost(no_salt))
            },
        },
        ClientState::AuthVerdict { challenge } => match event {
            ClientEvent::Received(Outgoing::Reply(Response::Success)) => (
                ClientState::AuthFlag { challenge },
                outs_none(),
                Ghost(no_salt),
            ),
            ClientEvent::Received(Outgoing::Reply(Response::Error)) => {
                let (s, o) = fail(Failure::WrongCredentials);
                (s, o, Ghost(no_salt))
            },
            _ => {
                let (s, o) = fail(Failure::Protocol);
                (s, o, Ghost(no_salt))
            },
        },
        ClientState::AuthFlag { challenge } => match event {
            ClientEvent::Received(Outgoing::Flag(on)) => if on {
                (
                    ClientState::AuthSigning { challenge },
                    outs_one(ClientOut::Say(Note::SecondFactor)),
                    Ghost(no_salt),
                )
            } else {
                (ClientState::LoggedIn, outs_one(ClientOut::Say(Note::Welcome)), Ghost(no_salt))
            },
            _ => {
                let (s, o) = fail(Failure::Protocol);
                (s, o, Ghost(no_salt))
            },
        },
        ClientState::AuthSigning { challenge } => match event {
            ClientEvent::Signed(signed_chal) => (
                ClientState::AuthSecondVerdict,
                outs_one(ClientOut::Send(Incoming::Bytes(signed_chal))),
                Ghost(no_salt),
            ),
            ClientEvent::DeviceFailed(t) => {
                let (s, o) = fail_device(t);
                (s, o, Ghost(no_salt))
            },
            _ => {
                let (s, o) = fail(Failure::Protocol);
                (s, o, Ghost(no_salt))
            },
        },
        ClientState::AuthSecondVerdict => match event {
            ClientEvent::Received(Outgoing::Reply(Response::Success)) => (
                ClientState::LoggedIn,
                outs_one(ClientOut::Say(Note::Welcome)),
                Ghost(no_salt),
            ),
            ClientEvent::Received(Outgoing::Reply(Response::Error)) => {
                let (s, o) = fail(Failure::WrongYubikey);
                (s, o, Ghost(no_salt))
            },
            _ => {
                let (s, o) = fail(Failure::Protocol);
                (s, o, Ghost(no_salt))
            },
        },
        _ => {
            let (s, o) = fail(Failure::Protocol);
            (s, o, Ghost(no_salt))
        },
    }
}

fn reset_transition(state: ClientState, event: ClientEvent) -> (r: (
    ClientState,
    Vec<ClientOut>,
    Ghost<Seq<u8>>,
))
    requires
        client_event_ok(state@, event@),
        client_group(state@) == 2,
    ensures
        r.2@.len() == client_fresh_len(state@, event@),
        (r.0@, outs_view(r.1@)) == client_next(state@, event@, r.2@),
{
    let ghost no_salt = Seq::<u8>::empty();
    match state {
        ClientState::ResetEmail => match event {
            ClientEvent::Typed(t) => if is_valid_email(&t) {
                (
                    ClientState::ResetToken,
                    outs_two(ClientOut::Send(Incoming::Text(t)), ClientOut::Say(Note::MailSent)),
                    Ghost(no_salt),
                )
            } else {
                (
                    ClientState::ResetEmail,
                    outs_one(ClientOut::Say(Note::InvalidEmail)),
                    Ghost(no_salt),
                )
            },
            _ => {
                let (s, o) = fail(Failure::Protocol);
                (s, o, Ghost(no_salt))
            },
        },
        ClientState::ResetToken => match event {
            ClientEvent::Typed(t) => {
                let token = t.clone();
                (
                    ClientState::ResetVerdict { token },
                    outs_one(ClientOut::Send(Incoming::Text(t))),
                    Ghost(no_salt),
                )
            },
            _ => {
                let (s, o) = fail(Failure::Protocol);
                (s, o, Ghost(no_salt))
            },
        },
        ClientState::ResetVerdict { token } => match event {
            ClientEvent::Received(Outgoing::Reply(Response::Success)) => (
                ClientState::ResetFlag { token },
                outs_none(),
                Ghost(no_salt),
            ),
            ClientEvent::Received(Outgoing::Reply(Response::Error)) => {
                let (s, o) = fail(Failure::WrongToken);
                (s, o, Ghost(no_salt))
            },
            _ => {
                let (s, o) = fail(Failure::Protocol);
                (s, o, Ghost(no_salt))
            },
        },
        ClientState::ResetFlag { token } => match event {
            ClientEvent::Received(Outgoing::Flag(on)) => if on {
                (ClientState::ResetSigning { token }, outs_none(), Ghost(no_salt))
            } else {
                (ClientState::ResetNewPassword, outs_none(), Ghost(no_salt))
            },
            _ => {
                let (s, o) = fail(Failure::Protocol);
                (s, o, Ghost(no_salt))
            },
        },
        ClientState::ResetSigning { token } => match event {
            ClientEvent::Signed(signed_chal) => (
                ClientState::ResetSigVerdict,
                outs_one(ClientOut::Send(Incoming::Bytes(signed_chal))),
                Ghost(no_salt),
            ),
            ClientEvent::DeviceFailed(t) => {
                let (s, o) = fail_device(t);
                (s, o, Ghost(no_salt))
            },
            _ => {
                let (s, o) = fail(Failure::Protocol);
                (s, o, Ghost(no_salt))
            },
        },
        ClientState::ResetSigVerdict => match event {
            ClientEvent::Received(Outgoing::Reply(Response::Success)) => (
                ClientState::ResetNewPassword,
                outs_none(),
                Ghost(no_salt),
            ),
            ClientEvent::Received(Outgoing::Reply(Response::Error)) => {
                let (s, o) = fail(Failure::WrongYubikey);
                (s, o, Ghost(no_salt))
            },
            _ => {
                let (s, o) = fail(Failure::Protocol);
                (s, o, Ghost(no_salt))
            },
        },
        _ => {
            let (s, o) = fail(Failure::Protocol);
            (s, o, Ghost(no_salt))
        },
    }
}

fn session_transition(state: ClientState, event: ClientEvent) -> (r: (
    ClientState,
    Vec<ClientOut>,
    Ghost<Seq<u8>>,
))
    requires
        client_event_ok(state@, event@),
        client_group(state@) == 3,
    ensures
        r.2@.len() == client_fresh_len(state@, event@),
        (r.0@, outs_view(r.1@)) == client_next(state@, event@, r.2@),
{
    let ghost no_salt = Seq::<u8>::empty();
    match state {
        ClientState::ResetNewPassword => match event {
            ClientEvent::Typed(p) => if is_valid_password(&p) {
                let h = hash_pwd(p);
                let ghost salt = h.salt@;
                let form = ResetForm { salt: h.salt, pwd_hash: h.hash };
                (
                    ClientState::ResetStored,
                    outs_one(ClientOut::Send(Incoming::NewPassword(form))),
                    Ghost(salt),
                )
            } else {
                (
                    ClientState::ResetNewPassword,
                    outs_one(ClientOut::Say(Note::InvalidPassword)),
                    Ghost(no_salt),
                )
            },
            _ => {
                let (s, o) = fail(Failure::Protocol);
                (s, o, Ghost(no_salt))
            },
        },
        ClientState::ResetStored => match event {
            ClientEvent::Received(Outgoing::Reply(Response::Success)) => (
                ClientState::LoggedIn,
                outs_one(ClientOut::Say(Note::Welcome)),
                Ghost(no_salt),
            ),
            ClientEvent::Received(Outgoing::Reply(Response::Error)) => {
                let (s, o) = fail(Failure::ServerError);
                (s, o, Ghost(no_salt))
            },
            _ => {
                let (s, o) = fail(Failure::Protocol);
                (s, o, Ghost(no_salt))
            },
        },
        ClientState::LoggedIn => match event {
            ClientEvent::Picked(a) => match a {
                Action::Switch2FA => (
                    ClientState::Switching,
                    outs_one(ClientOut::Send(Incoming::Act(a))),
                    Ghost(no_salt),
                ),
                Action::Logout => (
                    ClientState::Menu,
                    outs_two(ClientOut::Send(Incoming::Act(a)), ClientOut::Say(Note::LoggedOut)),
                    Ghost(no_salt),
                ),
            },
            _ => (ClientState::LoggedIn, outs_none(), Ghost(no_salt)),
        },
        ClientState::Switching => match event {
            ClientEvent::Received(Outgoing::Flag(on)) => (
                ClientState::LoggedIn,
                outs_one(ClientOut::Say(Note::TwoFactor(on))),
                Ghost(no_salt),
            ),
            _ => {
                let (s, o) = fail(Failure::Protocol);
                (s, o, Ghost(no_salt))
            },
        },
        ClientState::Exited => (ClientState::Exited, outs_none(), Ghost(no_salt)),
        _ => {
            let (s, o) = fail(Failure::Protocol);
            (s, o, Ghost(no_salt))
        },
    }
}

/// The client's reaction to `event` in `state`, with the salt it drew for a new password.
fn client_transition(state: ClientState, event: ClientEvent) -> (r: (
    ClientState,
    Vec<ClientOut>,
    Ghost<Seq<u8>>,
))
    requires
        client_event_ok(state@, event@),
    ensures
        r.2@.len() == client_fresh_len(state@, event@),
        (r.0@, outs_view(r.1@)) == client_next(state@, event@, r.2@),
{
    match state {
        ClientState::Menu | ClientState::RegEmail | ClientState::RegPassword { .. }
        | ClientState::RegKey { .. } | ClientState::RegReply => registration_transition(
            state,
            event,
        ),
        ClientState::AuthEmail | ClientState::AuthPassword { .. } | ClientState::AuthChallenge {
            ..
        } | ClientState::AuthVerdict { .. } | ClientState::AuthFlag { .. }
        | ClientState::AuthSigning { .. } | ClientState::AuthSecondVerdict => authentication_transition(
            state,
            event,
        ),
        ClientState::ResetEmail | ClientState::ResetToken | ClientState::ResetVerdict { .. }
        | ClientState::ResetFlag { .. } | ClientState::ResetSigning { .. }
        | ClientState::ResetSigVerdict => reset_transition(state, event),
        _ => session_transition(state, event),
    }
}

/// Reacts to `event` in `state`, following `client_next` with a fresh random salt wherever a
/// new password is hashed; the reaction waits for what the new state expects.
pub fn client_step(state: ClientState, event: ClientEvent) -> (r: ClientReaction)
    requires
        client_event_ok(state@, event@),
    ensures
        exists|salt: Seq<u8>|
            salt.len() == client_fresh_len(state@, event@) && #[trigger] client_next(
                state@,
                event@,
                salt,
            ) == (r.state@, outs_view(r.outs@)),
        r.wait@ == client_expected_wait(r.state@),
{
    let (next_state, outs, salt) = client_transition(state, event);
    let wait = client_wait_of(&next_state);
    ClientReaction { state: next_state, outs, wait }
}

impl Failure {
    /// The message that the client reports for this failure.
    pub fn message(&self) -> (s: String)
        ensures
            s@ == failure_message(*self),
    {
        match self {
            Failure::WrongCredentials => String::from_str("Wrong credentials!"),
            Failure::WrongYubikey => String::from_str("Wrong yubikey"),
            Failure::WrongToken => String::from_str("Wrong token!"),
            Failure::ServerError => String::from_str("Server error, please try again later."),
            Failure::Protocol => String::from_str("Unexpected message from the server"),
        }
    }
}

/// The message that the client reports for failure `f`.
pub open spec fn failure_message(f: Failure) -> Seq<char> {
    match f {
        Failure::WrongCredentials => "Wrong credentials!"@,
        Failure::WrongYubikey => "Wrong yubikey"@,
        Failure::WrongToken => "Wrong token!"@,
        Failure::ServerError => "Server error, please try again later."@,
        Failure::Protocol => "Unexpected message from the server"@,
    }
}

/// The line that reports a failed request whose error reads `message`; the client prints
/// it for a `Note::Failed` and for a `ClientOut::DeviceError`.
pub fn failure_text(message: &String) -> (s: String)
    ensures
        s@ == failure_line(message@),
{
    let mut s = String::from_str("Authentication failed with following errors: ");
    s.append(message.as_str());
    s.append("\n");
    s
}

impl Prompt {
    /// The text that asks the user for this line.
    pub fn text(&self) -> (s: String)
        ensures
            s@ == prompt_text(*self),
    {
        match self {
            Prompt::Email => String::from_str("- Email: "),
            Prompt::Password => String::from_str("- Password: "),
            Prompt::Token => String::from_str("- Email token: "),
            Prompt::NewPassword => String::from_str("- New password: "),
        }
    }
}

/// The text that asks the user for line `p`.
pub open spec fn prompt_text(p: Prompt) -> Seq<char> {
    match p {
        Prompt::Email => "- Email: "@,
        Prompt::Password => "- Password: "@,
        Prompt::Token => "- Email token: "@,
        Prompt::NewPassword => "- New password: "@,
    }
}

impl Note {
    /// The line that the client prints for this note.
    pub fn text(&self) -> (s: String)
        ensures
            s@ == note_text(*self),
    {
        match self {
            Note::RegisterBanner => String::from_str("<< Please register yourself >>"),
            Note::KeyOk => String::from_str("- Yubikey: [OK]"),
            Note::InvalidInput => String::from_str("Invalid input please try again!"),
            Note::Registered => String::from_str("Successfully registered!"),
            Note::AuthBanner => String::from_str("<< Please authenticate yourself >>"),
            Note::SecondFactor => String::from_str("< 2FA >"),
            Note::ResetBanner => String::from_str("<< Password Reset >>"),
            Note::MailSent => String::from_str(
                "An email as been sent to your email, if an account exists.",
            ),
            Note::InvalidEmail => String::from_str("Invalid Email"),
            Note::InvalidPassword => String::from_str("Invalid password"),
            Note::Exiting => String::from_str("Exiting..."),
            Note::Welcome => String::from_str("\n[[ Authentication success ]]\n"),
            Note::LoggedOut => String::from_str("\n[[ Logged Out ]]\n"),
            Note::TwoFactor(on) => if *on {
                String::from_str("2FA is now enabled")
            } else {
                String::from_str("2FA is now disabled")
            },
            Note::Failed(f) => {
                let m = f.message();
                failure_text(&m)
            },
        }
    }
}

/// The line that the client prints for note `n`.
pub open spec fn note_text(n: Note) -> Seq<char> {
    match n {
        Note::RegisterBanner => "<< Please register yourself >>"@,
        Note::KeyOk => "- Yubikey: [OK]"@,
        Note::InvalidInput => "Invalid input please try again!"@,
        Note::Registered => "Successfully registered!"@,
        Note::AuthBanner => "<< Please authenticate yourself >>"@,
        Note::SecondFactor => "< 2FA >"@,
        Note::ResetBanner => "<< Password Reset >>"@,
        Note::MailSent => "An email as been sent to your email, if an account exists."@,
        Note::InvalidEmail => "Invalid Email"@,
        Note::InvalidPassword => "Invalid password"@,
        Note::Exiting => "Exiting..."@,
        Note::Welcome => "\n[[ Authentication success ]]\n"@,
        Note::LoggedOut => "\n[[ Logged Out ]]\n"@,
        Note::TwoFactor(on) => if on {
            "2FA is now enabled"@
        } else {
            "2FA is now disabled"@
        },
        Note::Failed(f) => failure_line(failure_message(f)),
    }
}

} // verus!
