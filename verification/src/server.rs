//! The server's side of the protocol, as a machine that reacts to one event at a time.
//!
//! A connection starts in `ServerState::Choosing`. Each call of `step` takes the state and
//! the event that the outside world produced (a message of the client, the answer of the
//! account store, the confirmation that a mail left) and gives the next state, the messages
//! to send to the client, and the one thing to wait for next.

use vstd::prelude::*;
use vstd::string::StringExecFns;
use crate::action::Action;
use crate::bytes::{copy_bytes, same_bytes};
use crate::communication_types::{
    Authenticate, Challenge, ChallengeView, Incoming, IncomingView, Outgoing, OutgoingView,
    RegisterForm, RegisterFormView, ResetFormView, Response,
};
use crate::crypto::{
    ecdsa_p256_sha256_valid, encode_upper, get_mac, hex_upper, hmac_sha256, random_vec,
    verify_signature,
};
use crate::user::{User, UserView};
use crate::validations::{is_valid_email, spec_is_valid_email};

verus! {

/// The kind of message that the server reads next.
#[derive(PartialEq, Eq, Structural, Clone, Copy, Debug)]
pub enum Expect {
    Choice,
    Text,
    Bytes,
    Registration,
    NewPassword,
    Act,
}

/// What the outside world reports to the machine.
#[derive(Debug, PartialEq, Eq)]
pub enum Event {
    /// The client sent a message.
    Received(Incoming),
    /// The account store answered a lookup.
    Found(Option<User>),
    /// The account store answered a write: whether it succeeded.
    Stored(bool),
    /// The reset mail was sent.
    Mailed,
}

/// The one outside operation that the machine waits for.
#[derive(Debug, PartialEq, Eq)]
pub enum Wait {
    /// Read a message of this kind from the client.
    Receive(Expect),
    /// Look up the account of this e-mail address.
    FindUser(String),
    /// Write this account, replacing any account with the same e-mail address.
    StoreUser(User),
    /// Send this mail.
    Mail { to: String, subject: String, body: String },
    /// End the connection.
    Close,
}

/// Where a connection stands.
#[derive(Debug, PartialEq, Eq)]
pub enum ServerState {
    /// Waiting for the client's choice in the start menu.
    Choosing,
    RegisterWaitForm,
    RegisterWaitLookup { form: RegisterForm },
    RegisterWaitStore { user: User },
    ResetWaitEmail,
    ResetWaitLookup { email: String },
    /// The address has no account: one message is read and answered with an error.
    ResetWaitDecoy,
    ResetWaitMail { user: User, token: String },
    ResetWaitToken { user: User, token: String },
    ResetWaitSignature { user: User, token: String },
    ResetWaitForm { user: User },
    ResetWaitStore { user: User },
    AuthWaitEmail,
    AuthWaitLookup { email: String, decoy_salt: Vec<u8> },
    /// Waiting for the answer to `challenge`; `found` tells whether `user` is a stored
    /// account or the stand-in for an address without one.
    AuthWaitMac { user: User, challenge: Vec<u8>, found: bool },
    AuthWaitSignature { user: User, challenge: Vec<u8> },
    /// `user` is authenticated; waiting for an action.
    LoggedIn { user: User },
    SwitchWaitStore { user: User },
    /// The connection is over.
    Closed,
}

/// What a call of `step` hands back.
#[derive(Debug, PartialEq, Eq)]
pub struct Reaction {
    pub state: ServerState,
    pub sends: Vec<Outgoing>,
    pub wait: Wait,
}

// ---------------------------------------------------------------------------------------
// Abstract values
// ---------------------------------------------------------------------------------------

#[verifier::ext_equal]
pub enum EventView {
    Received(IncomingView),
    Found(Option<UserView>),
    Stored(bool),
    Mailed,
}

#[verifier::ext_equal]
pub enum WaitView {
    Receive(Expect),
    FindUser(Seq<char>),
    StoreUser(UserView),
    Mail { to: Seq<char>, subject: Seq<char>, body: Seq<char> },
    Close,
}

#[verifier::ext_equal]
pub enum ServerStateView {
    Choosing,
    RegisterWaitForm,
    RegisterWaitLookup { form: RegisterFormView },
    RegisterWaitStore { user: UserView },
    ResetWaitEmail,
    ResetWaitLookup { email: Seq<char> },
    ResetWaitDecoy,
    ResetWaitMail { user: UserView, token: Seq<char> },
    ResetWaitToken { user: UserView, token: Seq<char> },
    ResetWaitSignature { user: UserView, token: Seq<char> },
    ResetWaitForm { user: UserView },
    ResetWaitStore { user: UserView },
    AuthWaitEmail,
    AuthWaitLookup { email: Seq<char>, decoy_salt: Seq<u8> },
    AuthWaitMac { user: UserView, challenge: Seq<u8>, found: bool },
    AuthWaitSignature { user: UserView, challenge: Seq<u8> },
    LoggedIn { user: UserView },
    SwitchWaitStore { user: UserView },
    Closed,
}

/// Abstract value of an optional account.
pub open spec fn option_user_view(o: Option<User>) -> Option<UserView> {
    match o {
        Some(u) => Some(u@),
        None => None,
    }
}

impl View for Event {
    type V = EventView;

    open spec fn view(&self) -> EventView {
        match self {
            Event::Received(m) => EventView::Received(m@),
            Event::Found(o) => EventView::Found(option_user_view(*o)),
            Event::Stored(ok) => EventView::Stored(*ok),
            Event::Mailed => EventView::Mailed,
        }
    }
}

impl View for Wait {
    type V = WaitView;

    open spec fn view(&self) -> WaitView {
        match self {
            Wait::Receive(k) => WaitView::Receive(*k),
            Wait::FindUser(e) => WaitView::FindUser(e@),
            Wait::StoreUser(u) => WaitView::StoreUser(u@),
            Wait::Mail { to, subject, body } => WaitView::Mail {
                to: to@,
                subject: subject@,
                body: body@,
            },
            Wait::Close => WaitView::Close,
        }
    }
}

impl View for ServerState {
    type V = ServerStateView;

    open spec fn view(&self) -> ServerStateView {
        match self {
            ServerState::Choosing => ServerStateView::Choosing,
            ServerState::RegisterWaitForm => ServerStateView::RegisterWaitForm,
            ServerState::RegisterWaitLookup { form } => ServerStateView::RegisterWaitLookup {
                form: form@,
            },
            ServerState::RegisterWaitStore { user } => ServerStateView::RegisterWaitStore {
                user: user@,
            },
            ServerState::ResetWaitEmail => ServerStateView::ResetWaitEmail,
            ServerState::ResetWaitLookup { email } => ServerStateView::ResetWaitLookup {
                email: email@,
            },
            ServerState::ResetWaitDecoy => ServerStateView::ResetWaitDecoy,
            ServerState::ResetWaitMail { user, token } => ServerStateView::ResetWaitMail {
                user: user@,
                token: token@,
            },
            ServerState::ResetWaitToken { user, token } => ServerStateView::ResetWaitToken {
                user: user@,
                token: token@,
            },
            ServerState::ResetWaitSignature { user, token } =>
                ServerStateView::ResetWaitSignature { user: user@, token: token@ },
            ServerState::ResetWaitForm { user } => ServerStateView::ResetWaitForm { user: user@ },
            ServerState::ResetWaitStore { user } => ServerStateView::ResetWaitStore {
                user: user@,
            },
            ServerState::AuthWaitEmail => ServerStateView::AuthWaitEmail,
            ServerState::AuthWaitLookup { email, decoy_salt } => ServerStateView::AuthWaitLookup {
                email: email@,
                decoy_salt: decoy_salt@,
            },
            ServerState::AuthWaitMac { user, challenge, found } => ServerStateView::AuthWaitMac {
                user: user@,
                challenge: challenge@,
                found: *found,
            },
            ServerState::AuthWaitSignature { user, challenge } =>
                ServerStateView::AuthWaitSignature { user: user@, challenge: challenge@ },
            ServerState::LoggedIn { user } => ServerStateView::LoggedIn { user: user@ },
            ServerState::SwitchWaitStore { user } => ServerStateView::SwitchWaitStore {
                user: user@,
            },
            ServerState::Closed => ServerStateView::Closed,
        }
    }
}

/// Abstract value of a list of messages to the client.
pub open spec fn sends_view(v: Seq<Outgoing>) -> Seq<OutgoingView> {
    v.map_values(|o: Outgoing| o@)
}

// ---------------------------------------------------------------------------------------
// The protocol
// ---------------------------------------------------------------------------------------

/// The account that a registration form creates: the second factor is on.
pub open spec fn registered_user(form: RegisterFormView) -> UserView {
    UserView {
        email: form.email,
        salt: form.salt,
        pwd_hash: form.pwd_hash,
        yubikey: form.yubikey,
        is_2fa: true,
    }
}

/// The stand-in for an address without an account: it carries a random salt, an empty
/// password hash and no second factor. It is challenged like a stored account, so that the
/// client cannot tell whether the address has one, and no answer logs it in.
pub open spec fn decoy_user(email: Seq<char>, salt: Seq<u8>) -> UserView {
    UserView { email, salt, pwd_hash: Seq::empty(), yubikey: Seq::empty(), is_2fa: false }
}

/// The account with the password of a reset form.
pub open spec fn with_password(user: UserView, form: ResetFormView) -> UserView {
    UserView { salt: form.salt, pwd_hash: form.pwd_hash, ..user }
}

/// Whether `mac` answers `challenge` for the password hash of `user`.
pub open spec fn mac_accepted(user: UserView, challenge: Seq<u8>, mac: Seq<u8>) -> bool {
    mac == hmac_sha256(user.pwd_hash, challenge)
}

/// The recipient of the reset mail: `address <address>`.
pub open spec fn mail_recipient(email: Seq<char>) -> Seq<char> {
    email + " <"@ + email + ">"@
}

/// The subject of the reset mail.
pub open spec fn mail_subject() -> Seq<char> {
    "Reset your password!"@
}

/// The body of the reset mail.
pub open spec fn mail_body(token: Seq<char>) -> Seq<char> {
    "Your reset token is: "@ + token
}

/// What a connection in state `s` waits for.
pub open spec fn expected_wait(s: ServerStateView) -> WaitView {
    match s {
        ServerStateView::Choosing => WaitView::Receive(Expect::Choice),
        ServerStateView::RegisterWaitForm => WaitView::Receive(Expect::Registration),
        ServerStateView::RegisterWaitLookup { form } => WaitView::FindUser(form.email),
        ServerStateView::RegisterWaitStore { user } => WaitView::StoreUser(user),
        ServerStateView::ResetWaitEmail => WaitView::Receive(Expect::Text),
        ServerStateView::ResetWaitLookup { email } => WaitView::FindUser(email),
        ServerStateView::ResetWaitDecoy => WaitView::Receive(Expect::Text),
        ServerStateView::ResetWaitMail { user, token } => WaitView::Mail {
            to: mail_recipient(user.email),
            subject: mail_subject(),
            body: mail_body(token),
        },
        ServerStateView::ResetWaitToken { .. } => WaitView::Receive(Expect::Text),
        ServerStateView::ResetWaitSignature { .. } => WaitView::Receive(Expect::Bytes),
        ServerStateView::ResetWaitForm { .. } => WaitView::Receive(Expect::NewPassword),
        ServerStateView::ResetWaitStore { user } => WaitView::StoreUser(user),
        ServerStateView::AuthWaitEmail => WaitView::Receive(Expect::Text),
        ServerStateView::AuthWaitLookup { email, .. } => WaitView::FindUser(email),
        ServerStateView::AuthWaitMac { .. } => WaitView::Receive(Expect::Bytes),
        ServerStateView::AuthWaitSignature { .. } => WaitView::Receive(Expect::Bytes),
        ServerStateView::LoggedIn { .. } => WaitView::Receive(Expect::Act),
        ServerStateView::SwitchWaitStore { user } => WaitView::StoreUser(user),
        ServerStateView::Closed => WaitView::Close,
    }
}

/// How many random bytes the server draws on event `e` in state `s`: a decoy salt when an
/// address arrives for login, a challenge when its lookup is answered, a token when a reset
/// finds its account.
pub open spec fn fresh_len(s: ServerStateView, e: EventView) -> nat {
    match (s, e) {
        (ServerStateView::AuthWaitEmail, EventView::Received(IncomingView::Text(_))) => 16,
        (ServerStateView::AuthWaitLookup { .. }, EventView::Found(_)) => 16,
        (ServerStateView::ResetWaitLookup { .. }, EventView::Found(Some(_))) => 4,
        _ => 0,
    }
}

/// A broken connection: the protocol ends without a word.
pub open spec fn closed() -> (ServerStateView, Seq<OutgoingView>) {
    (ServerStateView::Closed, Seq::empty())
}

/// Back to the start menu after telling the client that its request failed.
pub open spec fn refused() -> (ServerStateView, Seq<OutgoingView>) {
    (ServerStateView::Choosing, seq![OutgoingView::Reply(Response::Error)])
}

/// The protocol: the next state and the messages sent when event `e` arrives in state `s`,
/// `fresh` being the random bytes drawn for it.
pub open spec fn next(s: ServerStateView, e: EventView, fresh: Seq<u8>) -> (
    ServerStateView,
    Seq<OutgoingView>,
) {
    match s {
        ServerStateView::Choosing => match e {
            EventView::Received(IncomingView::Choice(c)) => (
                match c {
                    Authenticate::Authenticate => ServerStateView::AuthWaitEmail,
                    Authenticate::Register => ServerStateView::RegisterWaitForm,
                    Authenticate::Reset => ServerStateView::ResetWaitEmail,
                    Authenticate::Exit => ServerStateView::Closed,
                },
                Seq::empty(),
            ),
            _ => closed(),
        },
        ServerStateView::RegisterWaitForm => match e {
            EventView::Received(IncomingView::Registration(form)) => (
                ServerStateView::RegisterWaitLookup { form },
                Seq::empty(),
            ),
            _ => closed(),
        },
        ServerStateView::RegisterWaitLookup { form } => match e {
            EventView::Found(found) => if spec_is_valid_email(form.email) && found is None {
                (ServerStateView::RegisterWaitStore { user: registered_user(form) }, Seq::empty())
            } else {
                (ServerStateView::RegisterWaitForm, seq![OutgoingView::Reply(Response::Error)])
            },
            _ => closed(),
        },
        ServerStateView::RegisterWaitStore { user } => match e {
            EventView::Stored(true) => (
                ServerStateView::LoggedIn { user },
                seq![OutgoingView::Reply(Response::Success)],
            ),
            _ => closed(),
        },
        ServerStateView::ResetWaitEmail => match e {
            EventView::Received(IncomingView::Text(email)) => (
                ServerStateView::ResetWaitLookup { email },
                Seq::empty(),
            ),
            _ => closed(),
        },
        ServerStateView::ResetWaitLookup { email } => match e {
            EventView::Found(None) => (ServerStateView::ResetWaitDecoy, Seq::empty()),
            EventView::Found(Some(user)) => (
                ServerStateView::ResetWaitMail { user, token: hex_upper(fresh) },
                Seq::empty(),
            ),
            _ => closed(),
        },
        ServerStateView::ResetWaitDecoy => match e {
            EventView::Received(_) => refused(),
            _ => closed(),
        },
        ServerStateView::ResetWaitMail { user, token } => match e {
            EventView::Mailed => (ServerStateView::ResetWaitToken { user, token }, Seq::empty()),
            _ => closed(),
        },
        ServerStateView::ResetWaitToken { user, token } => match e {
            EventView::Received(IncomingView::Text(t)) => if t == token {
                if user.is_2fa {
                    (
                        ServerStateView::ResetWaitSignature { user, token: t },
                        seq![OutgoingView::Reply(Response::Success), OutgoingView::Flag(true)],
                    )
                } else {
                    (
                        ServerStateView::ResetWaitForm { user },
                        seq![OutgoingView::Reply(Response::Success), OutgoingView::Flag(false)],
                    )
                }
            } else {
                refused()
            },
            _ => closed(),
        },
        ServerStateView::ResetWaitSignature { user, token } => match e {
            EventView::Received(IncomingView::Bytes(sig)) => if ecdsa_p256_sha256_valid(
                user.yubikey,
                vstd::utf8::encode_utf8(token),
                sig,
            ) {
                (ServerStateView::ResetWaitForm { user }, seq![OutgoingView::Reply(Response::Success)])
            } else {
                refused()
            },
            _ => closed(),
        },
        ServerStateView::ResetWaitForm { user } => match e {
            EventView::Received(IncomingView::NewPassword(form)) => (
                ServerStateView::ResetWaitStore { user: with_password(user, form) },
                Seq::empty(),
            ),
            _ => closed(),
        },
        ServerStateView::ResetWaitStore { user } => match e {
            EventView::Stored(ok) => (
                ServerStateView::LoggedIn { user },
                seq![
                    OutgoingView::Reply(
                        if ok {
                            Response::Success
                        } else {
                            Response::Error
                        },
                    ),
                ],
            ),
            _ => closed(),
        },
        ServerStateView::AuthWaitEmail => match e {
            EventView::Received(IncomingView::Text(email)) => (
                ServerStateView::AuthWaitLookup { email, decoy_salt: fresh },
                Seq::empty(),
            ),
            _ => closed(),
        },
        ServerStateView::AuthWaitLookup { email, decoy_salt } => match e {
            EventView::Found(found) => {
                let user = match found {
                    Some(u) => u,
                    None => decoy_user(email, decoy_salt),
                };
                (
                    ServerStateView::AuthWaitMac { user, challenge: fresh, found: found is Some },
                    seq![OutgoingView::Chal(ChallengeView { salt: user.salt, chal: fresh })],
                )
            },
            _ => closed(),
        },
        ServerStateView::AuthWaitMac { user, challenge, found } => match e {
            EventView::Received(IncomingView::Bytes(mac)) => if found && mac_accepted(
                user,
                challenge,
                mac,
            ) {
                if user.is_2fa {
                    (
                        ServerStateView::AuthWaitSignature { user, challenge },
                        seq![OutgoingView::Reply(Response::Success), OutgoingView::Flag(true)],
                    )
                } else {
                    (
                        ServerStateView::LoggedIn { user },
                        seq![OutgoingView::Reply(Response::Success), OutgoingView::Flag(false)],
                    )
                }
            } else {
                refused()
            },
            _ => closed(),
        },
        ServerStateView::AuthWaitSignature { user, challenge } => match e {
            EventView::Received(IncomingView::Bytes(sig)) => if ecdsa_p256_sha256_valid(
                user.yubikey,
                challenge,
                sig,
            ) {
                (ServerStateView::LoggedIn { user }, seq![OutgoingView::Reply(Response::Success)])
            } else {
                refused()
            },
            _ => closed(),
        },
        ServerStateView::LoggedIn { user } => match e {
            EventView::Received(IncomingView::Act(a)) => match a {
                Action::Switch2FA => (
                    ServerStateView::SwitchWaitStore { user: user.with_2fa(!user.is_2fa) },
                    Seq::empty(),
                ),
                Action::Logout => (ServerStateView::Choosing, Seq::empty()),
            },
            _ => closed(),
        },
        ServerStateView::SwitchWaitStore { user } => match e {
            EventView::Stored(_) => (
                ServerStateView::LoggedIn { user },
                seq![OutgoingView::Flag(user.is_2fa)],
            ),
            _ => closed(),
        },
        ServerStateView::Closed => closed(),
    }
}

// ---------------------------------------------------------------------------------------
// Executable machine
// ---------------------------------------------------------------------------------------

fn no_sends() -> (v: Vec<Outgoing>)
    ensures
        sends_view(v@) == Seq::<OutgoingView>::empty(),
{
    let v: Vec<Outgoing> = Vec::new();
    assert(sends_view(v@) =~= Seq::<OutgoingView>::empty());
    v
}

fn send_one(o: Outgoing) -> (v: Vec<Outgoing>)
    ensures
        sends_view(v@) == seq![o@],
{
    let mut v: Vec<Outgoing> = Vec::new();
    v.push(o);
    assert(sends_view(v@) =~= seq![o@]);
    v
}

fn send_two(o1: Outgoing, o2: Outgoing) -> (v: Vec<Outgoing>)
    ensures
        sends_view(v@) == seq![o1@, o2@],
{
    let mut v: Vec<Outgoing> = Vec::new();
    v.push(o1);
    v.push(o2);
    assert(sends_view(v@) =~= seq![o1@, o2@]);
    v
}

fn close() -> (r: (ServerState, Vec<Outgoing>))
    ensures
        (r.0@, sends_view(r.1@)) == closed(),
{
    (ServerState::Closed, no_sends())
}

fn refuse() -> (r: (ServerState, Vec<Outgoing>))
    ensures
        (r.0@, sends_view(r.1@)) == refused(),
{
    (ServerState::Choosing, send_one(Outgoing::Reply(Response::Error)))
}

/// The account that `form` creates.
fn user_from_form(form: RegisterForm) -> (u: User)
    ensures
        u@ == registered_user(form@),
{
    User {
        email: form.email,
        salt: form.salt,
        pwd_hash: form.pwd_hash,
        yubikey: form.yubikey,
        is_2fa: true,
    }
}

/// The mail that carries `token` to the owner of `user`.
fn reset_mail(user: &User, token: &String) -> (w: Wait)
    ensures
        w@ == (WaitView::Mail {
            to: mail_recipient(user.email@),
            subject: mail_subject(),
            body: mail_body(token@),
        }),
{
    let mut to = user.email.clone();
    to.append(" <");
    to.append(user.email.as_str());
    to.append(">");
    let subject = String::from_str("Reset your password!");
    let mut body = String::from_str("Your reset token is: ");
    body.append(token.as_str());
    Wait::Mail { to, subject, body }
}

/// What a connection in `state` waits for.
pub fn wait_of(state: &ServerState) -> (w: Wait)
    ensures
        w@ == expected_wait(state@),
{
    match state {
        ServerState::Choosing => Wait::Receive(Expect::Choice),
        ServerState::RegisterWaitForm => Wait::Receive(Expect::Registration),
        ServerState::RegisterWaitLookup { form } => Wait::FindUser(form.email.clone()),
        ServerState::RegisterWaitStore { user } => Wait::StoreUser(user.duplicate()),
        ServerState::ResetWaitEmail => Wait::Receive(Expect::Text),
        ServerState::ResetWaitLookup { email } => Wait::FindUser(email.clone()),
        ServerState::ResetWaitDecoy => Wait::Receive(Expect::Text),
        ServerState::ResetWaitMail { user, token } => reset_mail(user, token),
        ServerState::ResetWaitToken { .. } => Wait::Receive(Expect::Text),
        ServerState::ResetWaitSignature { .. } => Wait::Receive(Expect::Bytes),
        ServerState::ResetWaitForm { .. } => Wait::Receive(Expect::NewPassword),
        ServerState::ResetWaitStore { user } => Wait::StoreUser(user.duplicate()),
        ServerState::AuthWaitEmail => Wait::Receive(Expect::Text),
        ServerState::AuthWaitLookup { email, .. } => Wait::FindUser(email.clone()),
        ServerState::AuthWaitMac { .. } => Wait::Receive(Expect::Bytes),
        ServerState::AuthWaitSignature { .. } => Wait::Receive(Expect::Bytes),
        ServerState::LoggedIn { .. } => Wait::Receive(Expect::Act),
        ServerState::SwitchWaitStore { user } => Wait::StoreUser(user.duplicate()),
        ServerState::Closed => Wait::Close,
    }
}

/// The protocol's reaction to `event` in `state`, `fresh` being the random bytes drawn for
/// it (see `fresh_len`).
pub fn transition(state: ServerState, event: Event, fresh: Vec<u8>) -> (r: (
    ServerState,
    Vec<Outgoing>,
))
    ensures
        (r.0@, sends_view(r.1@)) == next(state@, event@, fresh@),
{
    match state {
        ServerState::Choosing => match event {
            Event::Received(Incoming::Choice(c)) => {
                let s = match c {
                    Authenticate::Authenticate => ServerState::AuthWaitEmail,
                    Authenticate::Register => ServerState::RegisterWaitForm,
                    Authenticate::Reset => ServerState::ResetWaitEmail,
                    Authenticate::Exit => ServerState::Closed,
                };
                (s, no_sends())
            },
            _ => close(),
        },
        ServerState::RegisterWaitForm => match event {
            Event::Received(Incoming::Registration(form)) => (
                ServerState::RegisterWaitLookup { form },
                no_sends(),
            ),
            _ => close(),
        },
        ServerState::RegisterWaitLookup { form } => match event {
            Event::Found(found) => {
                let mut is_error = false;
                if !is_valid_email(&form.email) {
                    is_error = true;
                }
                if found.is_some() {
                    is_error = true;
                }
                if !is_error {
                    (ServerState::RegisterWaitStore { user: user_from_form(form) }, no_sends())
                } else {
                    (ServerState::RegisterWaitForm, send_one(Outgoing::Reply(Response::Error)))
                }
            },
            _ => close(),
        },
        ServerState::RegisterWaitStore { user } => match event {
            Event::Stored(ok) => if ok {
                (ServerState::LoggedIn { user }, send_one(Outgoing::Reply(Response::Success)))
            } else {
                close()
            },
            _ => close(),
        },
        ServerState::ResetWaitEmail => match event {
            Event::Received(Incoming::Text(email)) => (
                ServerState::ResetWaitLookup { email },
                no_sends(),
            ),
            _ => close(),
        },
        ServerState::ResetWaitLookup { email } => match event {
            Event::Found(found) => match found {
                None => (ServerState::ResetWaitDecoy, no_sends()),
                Some(user) => {
                    let token = encode_upper(&fresh);
                    (ServerState::ResetWaitMail { user, token }, no_sends())
                },
            },
            _ => close(),
        },
        ServerState::ResetWaitDecoy => match event {
            Event::Received(_) => refuse(),
            _ => close(),
        },
        ServerState::ResetWaitMail { user, token } => match event {
            Event::Mailed => (ServerState::ResetWaitToken { user, token }, no_sends()),
            _ => close(),
        },
        ServerState::ResetWaitToken { user, token } => match event {
            Event::Received(Incoming::Text(c_token)) => if token == c_token {
                if user.is_2fa {
                    (
                        ServerState::ResetWaitSignature { user, token: c_token },
                        send_two(Outgoing::Reply(Response::Success), Outgoing::Flag(true)),
                    )
                } else {
                    (
                        ServerState::ResetWaitForm { user },
                        send_two(Outgoing::Reply(Response::Success), Outgoing::Flag(false)),
                    )
                }
            } else {
                refuse()
            },
            _ => close(),
        },
        ServerState::ResetWaitSignature { user, token } => match event {
            Event::Received(Incoming::Bytes(signed_token)) => {
                let message = token.as_str().as_bytes_vec();
                if verify_signature(&user.yubikey, &message, &signed_token).is_err() {
                    refuse()
                } else {
                    (ServerState::ResetWaitForm { user }, send_one(Outgoing::Reply(Response::Success)))
                }
            },
            _ => close(),
        },
        ServerState::ResetWaitForm { user } => match event {
            Event::Received(Incoming::NewPassword(new_password)) => {
                let mut user = user;
                user.salt = new_password.salt;
                user.pwd_hash = new_password.pwd_hash;
                (ServerState::ResetWaitStore { user }, no_sends())
            },
            _ => close(),
        },
        ServerState::ResetWaitStore { user } => match event {
            Event::Stored(ok) => {
                let reply = if ok {
                    Response::Success
                } else {
                    Response::Error
                };
                (ServerState::LoggedIn { user }, send_one(Outgoing::Reply(reply)))
            },
            _ => close(),
        },
        ServerState::AuthWaitEmail => match event {
            Event::Received(Incoming::Text(email)) => (
                ServerState::AuthWaitLookup { email, decoy_salt: fresh },
                no_sends(),
            ),
            _ => close(),
        },
        ServerState::AuthWaitLookup { email, decoy_salt } => match event {
            Event::Found(found) => {
                let is_found = found.is_some();
                let user = match found {
                    Some(u) => u,
                    None => User {
                        email,
                        salt: decoy_salt,
                        pwd_hash: Vec::new(),
                        yubikey: Vec::new(),
                        is_2fa: false,
                    },
                };
                let challenge = Challenge { salt: copy_bytes(&user.salt), chal: copy_bytes(&fresh) };
                (
                    ServerState::AuthWaitMac { user, challenge: fresh, found: is_found },
                    send_one(Outgoing::Chal(challenge)),
                )
            },
            _ => close(),
        },
        ServerState::AuthWaitMac { user, challenge, found } => match event {
            Event::Received(Incoming::Bytes(c_mac)) => {
                // The MAC is computed for a stand-in account too, so that an address without
                // an account is answered like a wrong password, after the same work.
                let s_mac = get_mac(&user.pwd_hash, &challenge);
                let right = same_bytes(&s_mac, &c_mac);
                if !found || !right {
                    refuse()
                } else if !user.is_2fa {
                    (
                        ServerState::LoggedIn { user },
                        send_two(Outgoing::Reply(Response::Success), Outgoing::Flag(false)),
                    )
                } else {
                    (
                        ServerState::AuthWaitSignature { user, challenge },
                        send_two(Outgoing::Reply(Response::Success), Outgoing::Flag(true)),
                    )
                }
            },
            _ => close(),
        },
        ServerState::AuthWaitSignature { user, challenge } => match event {
            Event::Received(Incoming::Bytes(signed_2fa)) => {
                if verify_signature(&user.yubikey, &challenge, &signed_2fa).is_err() {
                    refuse()
                } else {
                    (ServerState::LoggedIn { user }, send_one(Outgoing::Reply(Response::Success)))
                }
            },
            _ => close(),
        },
        ServerState::LoggedIn { user } => match event {
            Event::Received(Incoming::Act(action)) => {
                let mut user = user;
                if Action::perform(&mut user, action) {
                    (ServerState::SwitchWaitStore { user }, no_sends())
                } else {
                    (ServerState::Choosing, no_sends())
                }
            },
            _ => close(),
        },
        ServerState::SwitchWaitStore { user } => match event {
            Event::Stored(_) => {
                let enabled = user.is_2fa;
                (ServerState::LoggedIn { user }, send_one(Outgoing::Flag(enabled)))
            },
            _ => close(),
        },
        ServerState::Closed => close(),
    }
}

/// Reacts to `event` in `state`: draws the random bytes that the protocol needs there
/// (a decoy salt, a challenge, or a reset token), then follows `next`; the reaction waits
/// for what the new state expects.
pub fn step(state: ServerState, event: Event) -> (r: Reaction)
    ensures
        exists|fresh: Seq<u8>|
            fresh.len() == fresh_len(state@, event@) && #[trigger] next(state@, event@, fresh) == (
                r.state@,
                sends_view(r.sends@),
            ),
        r.wait@ == expected_wait(r.state@),
{
    let n: usize = match (&state, &event) {
        (ServerState::AuthWaitEmail, Event::Received(Incoming::Text(_))) => 16,
        (ServerState::AuthWaitLookup { .. }, Event::Found(_)) => 16,
        (ServerState::ResetWaitLookup { .. }, Event::Found(Some(_))) => 4,
        _ => 0,
    };
    let ghost s0 = state@;
    let ghost e0 = event@;
    let fresh = random_vec(n);
    let ghost g = fresh@;
    let (next_state, sends) = transition(state, event, fresh);
    assert(next(s0, e0, g) == (next_state@, sends_view(sends@)));
    let wait = wait_of(&next_state);
    Reaction { state: next_state, sends, wait }
}

} // verus!
