use std::collections::HashMap;

use ring::digest::{digest, SHA256};
use ring::rand::SystemRandom;
use ring::signature::{EcdsaKeyPair, KeyPair, ECDSA_P256_SHA256_ASN1_SIGNING};
use sec_auth::action::Action;
use sec_auth::client::{
    client_step, failure_text, ClientEvent, ClientOut, ClientState, ClientWait, Failure, Note,
    Prompt, ServerKind,
};
use sec_auth::communication_types::{
    Authenticate, Challenge, Incoming, Outgoing, RegisterForm, ResetForm, Response,
};
use sec_auth::crypto::{get_mac, hash_pwd_with_salt};
use sec_auth::server::{step, Event, ServerState, Wait};
use sec_auth::user::User;

fn sha256(message: &[u8]) -> Vec<u8> {
    digest(&SHA256, message).as_ref().to_vec()
}

fn typed(s: &str) -> ClientEvent {
    ClientEvent::Typed(s.to_string())
}

fn reply(r: Response) -> ClientEvent {
    ClientEvent::Received(Outgoing::Reply(r))
}

#[test]
fn menu_choices_send_the_choice() {
    let r = client_step(ClientState::Menu, ClientEvent::Chose(Authenticate::Register));
    assert_eq!(r.state, ClientState::RegEmail);
    assert_eq!(
        r.outs,
        vec![ClientOut::Send(Incoming::Choice(Authenticate::Register)), ClientOut::Say(Note::RegisterBanner)]
    );
    assert_eq!(r.wait, ClientWait::Ask(Prompt::Email));

    let r = client_step(ClientState::Menu, ClientEvent::Chose(Authenticate::Exit));
    assert_eq!(r.state, ClientState::Exited);
    assert_eq!(r.wait, ClientWait::Exit);
    assert_eq!(
        r.outs,
        vec![ClientOut::Send(Incoming::Choice(Authenticate::Exit)), ClientOut::Say(Note::Exiting)]
    );
}

#[test]
fn invalid_input_is_asked_again() {
    let r = client_step(ClientState::AuthEmail, typed("alice"));
    assert_eq!(r.state, ClientState::AuthEmail);
    assert_eq!(r.outs, vec![ClientOut::Say(Note::InvalidEmail)]);
    assert_eq!(r.wait, ClientWait::Ask(Prompt::Email));

    let r = client_step(ClientState::RegPassword { email: "a@b".to_string() }, typed("short"));
    assert_eq!(r.state, ClientState::RegPassword { email: "a@b".to_string() });
    assert_eq!(r.outs, vec![ClientOut::Say(Note::InvalidPassword)]);
    assert_eq!(r.wait, ClientWait::Ask(Prompt::Password));

    let r = client_step(ClientState::ResetNewPassword, typed("short"));
    assert_eq!(r.state, ClientState::ResetNewPassword);
    assert_eq!(r.outs, vec![ClientOut::Say(Note::InvalidPassword)]);
}

#[test]
fn login_answers_the_challenge_with_the_salted_hash() {
    let r = client_step(ClientState::AuthEmail, typed("alice@example.com"));
    assert_eq!(r.wait, ClientWait::Ask(Prompt::Password));
    let r = client_step(r.state, typed("hunter22"));
    assert_eq!(r.outs, vec![ClientOut::Send(Incoming::Text("alice@example.com".to_string()))]);
    assert_eq!(r.wait, ClientWait::Receive(ServerKind::Chal));
    let salt = vec![5u8; 16];
    let chal = vec![6u8; 16];
    let r = client_step(r.state, ClientEvent::Received(Outgoing::Chal(Challenge { salt: salt.clone(), chal: chal.clone() })));
    let expected = get_mac(&hash_pwd_with_salt("hunter22".to_string(), salt).hash, &chal);
    assert_eq!(r.outs, vec![ClientOut::Send(Incoming::Bytes(expected))]);
    assert_eq!(r.wait, ClientWait::Receive(ServerKind::Reply));
    let r = client_step(r.state, reply(Response::Success));
    assert_eq!(r.wait, ClientWait::Receive(ServerKind::Flag));
    let r = client_step(r.state, ClientEvent::Received(Outgoing::Flag(true)));
    assert_eq!(r.outs, vec![ClientOut::Say(Note::SecondFactor)]);
    assert_eq!(r.wait, ClientWait::Sign(sha256(&chal)));
    let r = client_step(r.state, ClientEvent::Signed(vec![9, 9]));
    assert_eq!(r.outs, vec![ClientOut::Send(Incoming::Bytes(vec![9, 9]))]);
    let r = client_step(r.state, reply(Response::Error));
    assert_eq!(r.state, ClientState::Menu);
    assert_eq!(r.outs, vec![ClientOut::Say(Note::Failed(Failure::WrongYubikey))]);
}

#[test]
fn failures_lead_back_to_the_menu() {
    let r = client_step(ClientState::AuthVerdict { challenge: vec![] }, reply(Response::Error));
    assert_eq!(r.state, ClientState::Menu);
    assert_eq!(r.outs, vec![ClientOut::Say(Note::Failed(Failure::WrongCredentials))]);
    assert_eq!(r.wait, ClientWait::ChooseAuth);

    let r = client_step(ClientState::ResetVerdict { token: "A".to_string() }, reply(Response::Error));
    assert_eq!(r.outs, vec![ClientOut::Say(Note::Failed(Failure::WrongToken))]);

    let r = client_step(ClientState::ResetStored, reply(Response::Error));
    assert_eq!(r.outs, vec![ClientOut::Say(Note::Failed(Failure::ServerError))]);

    let r = client_step(ClientState::RegKey { email: "a@b".to_string(), salt: vec![], pwd_hash: vec![] }, ClientEvent::DeviceFailed("no Yubikey found".to_string()));
    assert_eq!(r.state, ClientState::Menu);
    assert_eq!(r.outs, vec![ClientOut::DeviceError("no Yubikey found".to_string())]);
    assert_eq!(
        failure_text(&"no Yubikey found".to_string()),
        "Authentication failed with following errors: no Yubikey found\n"
    );

    let r = client_step(ClientState::AuthFlag { challenge: vec![] }, reply(Response::Success));
    assert_eq!(r.outs, vec![ClientOut::Say(Note::Failed(Failure::Protocol))]);
}

#[test]
fn failure_messages() {
    assert_eq!(Failure::WrongCredentials.message(), "Wrong credentials!");
    assert_eq!(Failure::WrongYubikey.message(), "Wrong yubikey");
    assert_eq!(Failure::WrongToken.message(), "Wrong token!");
    assert_eq!(Failure::ServerError.message(), "Server error, please try again later.");
}

#[test]
fn printed_texts() {
    assert_eq!(Prompt::Email.text(), "- Email: ");
    assert_eq!(Prompt::Token.text(), "- Email token: ");
    assert_eq!(Note::RegisterBanner.text(), "<< Please register yourself >>");
    assert_eq!(Note::Welcome.text(), "\n[[ Authentication success ]]\n");
    assert_eq!(Note::TwoFactor(true).text(), "2FA is now enabled");
    assert_eq!(Note::TwoFactor(false).text(), "2FA is now disabled");
    assert_eq!(
        Note::Failed(Failure::WrongToken).text(),
        "Authentication failed with following errors: Wrong token!\n"
    );
}

#[test]
fn refused_registration_starts_over() {
    let r = client_step(ClientState::RegReply, reply(Response::Error));
    assert_eq!(r.state, ClientState::RegEmail);
    assert_eq!(r.outs, vec![ClientOut::Say(Note::InvalidInput), ClientOut::Say(Note::RegisterBanner)]);
    let r = client_step(ClientState::RegReply, reply(Response::Success));
    assert_eq!(r.state, ClientState::LoggedIn);
    assert_eq!(r.outs, vec![ClientOut::Say(Note::Registered), ClientOut::Say(Note::Welcome)]);
}

#[test]
fn reset_signs_the_token_bytes() {
    let r = client_step(ClientState::ResetEmail, typed("alice@example.com"));
    assert_eq!(
        r.outs,
        vec![ClientOut::Send(Incoming::Text("alice@example.com".to_string())), ClientOut::Say(Note::MailSent)]
    );
    assert_eq!(r.wait, ClientWait::Ask(Prompt::Token));
    let r = client_step(r.state, typed("0A1B2C3D"));
    assert_eq!(r.outs, vec![ClientOut::Send(Incoming::Text("0A1B2C3D".to_string()))]);
    let r = client_step(r.state, reply(Response::Success));
    let r = client_step(r.state, ClientEvent::Received(Outgoing::Flag(true)));
    assert_eq!(r.wait, ClientWait::Sign(sha256(b"0A1B2C3D")));
    let r = client_step(r.state, ClientEvent::Signed(vec![1]));
    let r = client_step(r.state, reply(Response::Success));
    assert_eq!(r.wait, ClientWait::Ask(Prompt::NewPassword));
}

#[test]
fn actions_of_a_logged_in_client() {
    let r = client_step(ClientState::LoggedIn, ClientEvent::Picked(Action::Switch2FA));
    assert_eq!(r.outs, vec![ClientOut::Send(Incoming::Act(Action::Switch2FA))]);
    assert_eq!(r.wait, ClientWait::Receive(ServerKind::Flag));
    let r = client_step(r.state, ClientEvent::Received(Outgoing::Flag(false)));
    assert_eq!(r.outs, vec![ClientOut::Say(Note::TwoFactor(false))]);
    assert_eq!(r.wait, ClientWait::ChooseAction);
    let r = client_step(r.state, ClientEvent::Picked(Action::Logout));
    assert_eq!(r.state, ClientState::Menu);
    assert_eq!(r.outs, vec![ClientOut::Send(Incoming::Act(Action::Logout)), ClientOut::Say(Note::LoggedOut)]);
}

/// A client and a server wired together, with an account store and a key pair that plays
/// the Yubikey.
struct World {
    client: ClientState,
    server: ServerState,
    accounts: HashMap<String, User>,
    pair: EcdsaKeyPair,
    rng: SystemRandom,
    mails: Vec<String>,
    said: Vec<Note>,
    wire: Vec<String>,
    key_requests: usize,
    sign_requests: usize,
}

impl World {
    fn new() -> World {
        let rng = SystemRandom::new();
        let pkcs8 = EcdsaKeyPair::generate_pkcs8(&ECDSA_P256_SHA256_ASN1_SIGNING, &rng).unwrap();
        let pair = EcdsaKeyPair::from_pkcs8(&ECDSA_P256_SHA256_ASN1_SIGNING, pkcs8.as_ref()).unwrap();
        World {
            client: ClientState::Menu,
            server: ServerState::Choosing,
            accounts: HashMap::new(),
            pair,
            rng,
            mails: vec![],
            said: vec![],
            wire: vec![],
            key_requests: 0,
            sign_requests: 0,
        }
    }

    /// Feeds a message to the server and runs it until it waits for the client again.
    fn to_server(&mut self, m: Incoming) -> Vec<Outgoing> {
        let state = std::mem::replace(&mut self.server, ServerState::Closed);
        let mut r = step(state, Event::Received(m));
        let mut sent = vec![];
        loop {
            sent.append(&mut r.sends);
            let event = match r.wait {
                Wait::FindUser(email) => Event::Found(self.accounts.get(&email).cloned()),
                Wait::StoreUser(u) => {
                    self.accounts.insert(u.email.clone(), u);
                    Event::Stored(true)
                },
                Wait::Mail { body, .. } => {
                    self.mails.push(body);
                    Event::Mailed
                },
                _ => {
                    self.server = r.state;
                    return sent;
                },
            };
            r = step(r.state, event);
        }
    }

    /// Runs the client on `event` until it waits for the user; messages go to the server
    /// and the server's answers come back.
    fn user(&mut self, event: ClientEvent) {
        let mut inbox: Vec<Outgoing> = vec![];
        let mut event = event;
        loop {
            let state = std::mem::replace(&mut self.client, ClientState::Exited);
            let r = client_step(state, event);
            self.client = r.state;
            for o in r.outs {
                match o {
                    ClientOut::Say(n) => self.said.push(n),
                    ClientOut::DeviceError(t) => panic!("the key pair failed: {}", t),
                    ClientOut::Send(m) => {
                        self.wire.push(format!("{:?}", m));
                        let mut answers = self.to_server(m);
                        inbox.append(&mut answers);
                    },
                }
            }
            event = match r.wait {
                ClientWait::Receive(_) => ClientEvent::Received(inbox.remove(0)),
                ClientWait::FetchPublicKey => {
                    self.key_requests += 1;
                    ClientEvent::PublicKey(self.pair.public_key().as_ref().to_vec())
                },
                ClientWait::Sign(digest) => {
                    // The key pair stands in for a Yubikey, which signs a SHA-256 digest:
                    // sign the message whose digest the client handed over.
                    self.sign_requests += 1;
                    let message = match &self.client {
                        ClientState::AuthSigning { challenge } => challenge.clone(),
                        ClientState::ResetSigning { token } => token.as_bytes().to_vec(),
                        other => panic!("signing in state {:?}", other),
                    };
                    assert_eq!(digest, sha256(&message));
                    ClientEvent::Signed(self.pair.sign(&self.rng, &message).unwrap().as_ref().to_vec())
                },
                _ => {
                    assert!(inbox.is_empty());
                    return;
                },
            };
        }
    }
}

#[test]
fn register_log_out_and_log_in_again() {
    let mut w = World::new();
    w.user(ClientEvent::Chose(Authenticate::Register));
    w.user(typed("carol@example.com"));
    w.user(typed("long enough"));
    assert_eq!(w.client, ClientState::LoggedIn);
    assert!(w.said.contains(&Note::Welcome));
    assert!(matches!(w.server, ServerState::LoggedIn { .. }));
    assert!(w.accounts["carol@example.com"].is_2fa);

    w.user(ClientEvent::Picked(Action::Logout));
    assert_eq!(w.client, ClientState::Menu);
    assert_eq!(w.server, ServerState::Choosing);

    w.said.clear();
    w.user(ClientEvent::Chose(Authenticate::Authenticate));
    w.user(typed("carol@example.com"));
    w.user(typed("long enough"));
    assert_eq!(w.client, ClientState::LoggedIn);
    assert_eq!(w.said, vec![Note::AuthBanner, Note::SecondFactor, Note::Welcome]);
    assert!(matches!(w.server, ServerState::LoggedIn { .. }));

    w.user(ClientEvent::Picked(Action::Logout));
    w.said.clear();
    w.user(ClientEvent::Chose(Authenticate::Authenticate));
    w.user(typed("carol@example.com"));
    w.user(typed("wrong password"));
    assert_eq!(w.client, ClientState::Menu);
    assert_eq!(w.said, vec![Note::AuthBanner, Note::Failed(Failure::WrongCredentials)]);
    assert_eq!(w.server, ServerState::Choosing);
}

#[test]
fn password_never_leaves_the_client_in_clear() {
    let mut w = World::new();
    w.user(ClientEvent::Chose(Authenticate::Register));
    w.user(typed("frank@example.com"));
    w.user(typed("very secret words"));
    w.user(ClientEvent::Picked(Action::Logout));
    w.user(ClientEvent::Chose(Authenticate::Authenticate));
    w.user(typed("frank@example.com"));
    w.user(typed("very secret words"));
    assert_eq!(w.client, ClientState::LoggedIn);
    assert!(w.wire.iter().any(|m| m.contains("frank@example.com")));
    assert!(!w.wire.iter().any(|m| m.contains("very secret words")));
}

#[test]
fn yubikey_is_asked_at_registration_and_second_factor_only() {
    let mut w = World::new();
    w.user(ClientEvent::Chose(Authenticate::Register));
    w.user(typed("grace@example.com"));
    w.user(typed("short"));
    assert_eq!(w.key_requests, 0);
    w.user(typed("long enough"));
    assert_eq!((w.key_requests, w.sign_requests), (1, 0));
    w.user(ClientEvent::Picked(Action::Logout));
    w.user(ClientEvent::Chose(Authenticate::Authenticate));
    w.user(typed("grace@example.com"));
    w.user(typed("long enough"));
    assert_eq!((w.key_requests, w.sign_requests), (1, 1));
    w.user(ClientEvent::Picked(Action::Switch2FA));
    w.user(ClientEvent::Picked(Action::Logout));
    w.user(ClientEvent::Chose(Authenticate::Authenticate));
    w.user(typed("grace@example.com"));
    w.user(typed("long enough"));
    assert_eq!(w.client, ClientState::LoggedIn);
    assert_eq!((w.key_requests, w.sign_requests), (1, 1));
}

#[test]
fn reset_then_log_in_with_the_new_password() {
    let mut w = World::new();
    w.user(ClientEvent::Chose(Authenticate::Register));
    w.user(typed("erin@example.com"));
    w.user(typed("first password"));
    w.user(ClientEvent::Picked(Action::Switch2FA));
    assert_eq!(w.said.last(), Some(&Note::TwoFactor(false)));
    assert!(!w.accounts["erin@example.com"].is_2fa);
    w.user(ClientEvent::Picked(Action::Logout));

    w.user(ClientEvent::Chose(Authenticate::Reset));
    w.user(typed("erin@example.com"));
    let token = w.mails.last().unwrap().trim_start_matches("Your reset token is: ").to_string();
    assert_eq!(token.len(), 8);
    w.user(typed(&token));
    assert_eq!(w.client, ClientState::ResetNewPassword);
    w.user(typed("second password"));
    assert_eq!(w.client, ClientState::LoggedIn);
    w.user(ClientEvent::Picked(Action::Logout));

    w.said.clear();
    w.user(ClientEvent::Chose(Authenticate::Authenticate));
    w.user(typed("erin@example.com"));
    w.user(typed("second password"));
    assert_eq!(w.client, ClientState::LoggedIn);
    assert_eq!(w.said, vec![Note::AuthBanner, Note::Welcome]);
}

#[test]
fn registration_form_holds_the_salted_hash() {
    let r = client_step(ClientState::RegPassword { email: "dave@example.com".to_string() }, typed("password1"));
    let (salt, pwd_hash) = match &r.state {
        ClientState::RegKey { salt, pwd_hash, .. } => (salt.clone(), pwd_hash.clone()),
        other => panic!("unexpected state {:?}", other),
    };
    assert_eq!(salt.len(), 16);
    assert_eq!(pwd_hash, hash_pwd_with_salt("password1".to_string(), salt.clone()).hash);
    assert_eq!(r.wait, ClientWait::FetchPublicKey);
    let r = client_step(r.state, ClientEvent::PublicKey(vec![4u8; 65]));
    assert_eq!(
        r.outs,
        vec![
            ClientOut::Say(Note::KeyOk),
            ClientOut::Send(Incoming::Registration(RegisterForm {
                email: "dave@example.com".to_string(),
                salt,
                pwd_hash,
                yubikey: vec![4u8; 65],
            })),
        ]
    );
    assert_eq!(r.wait, ClientWait::Receive(ServerKind::Reply));
}

#[test]
fn new_password_form_holds_the_salted_hash() {
    let r = client_step(ClientState::ResetNewPassword, typed("password2"));
    match &r.outs[..] {
        [ClientOut::Send(Incoming::NewPassword(ResetForm { salt, pwd_hash }))] => {
            assert_eq!(salt.len(), 16);
            assert_eq!(pwd_hash, &hash_pwd_with_salt("password2".to_string(), salt.clone()).hash);
        },
        other => panic!("unexpected outs {:?}", other),
    }
    assert_eq!(r.state, ClientState::ResetStored);
}
