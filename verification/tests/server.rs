use ring::rand::SystemRandom;
use ring::signature::{EcdsaKeyPair, KeyPair, ECDSA_P256_SHA256_ASN1_SIGNING};
use sec_auth::action::Action;
use sec_auth::communication_types::{
    Authenticate, Challenge, Incoming, Outgoing, RegisterForm, ResetForm, Response,
};
use sec_auth::crypto::get_mac;
use sec_auth::server::{step, transition, Event, Expect, Reaction, ServerState, Wait};
use sec_auth::user::User;

fn received(m: Incoming) -> Event {
    Event::Received(m)
}

fn text(s: &str) -> Event {
    received(Incoming::Text(s.to_string()))
}

fn alice(is_2fa: bool, yubikey: Vec<u8>) -> User {
    User {
        email: "alice@example.com".to_string(),
        salt: vec![7u8; 16],
        pwd_hash: vec![42u8; 32],
        yubikey,
        is_2fa,
    }
}

struct Signer {
    pair: EcdsaKeyPair,
    rng: SystemRandom,
}

impl Signer {
    fn new() -> Signer {
        let rng = SystemRandom::new();
        let pkcs8 = EcdsaKeyPair::generate_pkcs8(&ECDSA_P256_SHA256_ASN1_SIGNING, &rng).unwrap();
        let pair = EcdsaKeyPair::from_pkcs8(&ECDSA_P256_SHA256_ASN1_SIGNING, pkcs8.as_ref()).unwrap();
        Signer { pair, rng }
    }

    fn public_key(&self) -> Vec<u8> {
        self.pair.public_key().as_ref().to_vec()
    }

    fn sign(&self, msg: &[u8]) -> Vec<u8> {
        self.pair.sign(&self.rng, msg).unwrap().as_ref().to_vec()
    }
}

/// Runs the login request up to the challenge for an account found as `found`.
fn challenged(found: Option<User>) -> (Reaction, Vec<u8>) {
    let r = step(ServerState::Choosing, received(Incoming::Choice(Authenticate::Authenticate)));
    assert_eq!(r.state, ServerState::AuthWaitEmail);
    assert!(r.sends.is_empty());
    assert_eq!(r.wait, Wait::Receive(Expect::Text));
    let r = step(r.state, text("alice@example.com"));
    assert_eq!(r.wait, Wait::FindUser("alice@example.com".to_string()));
    let decoy_salt = match &r.state {
        ServerState::AuthWaitLookup { decoy_salt, .. } => decoy_salt.clone(),
        other => panic!("unexpected state {:?}", other),
    };
    assert_eq!(decoy_salt.len(), 16);
    let r = step(r.state, Event::Found(found));
    assert_eq!(r.wait, Wait::Receive(Expect::Bytes));
    let chal = match &r.state {
        ServerState::AuthWaitMac { challenge, .. } => challenge.clone(),
        other => panic!("unexpected state {:?}", other),
    };
    assert_eq!(chal.len(), 16);
    (r, decoy_salt)
}

#[test]
fn login_without_second_factor() {
    let user = alice(false, vec![]);
    let (r, _) = challenged(Some(user.clone()));
    let chal = match &r.sends[..] {
        [Outgoing::Chal(Challenge { salt, chal })] => {
            assert_eq!(salt, &user.salt);
            chal.clone()
        },
        other => panic!("unexpected sends {:?}", other),
    };
    let mac = get_mac(&user.pwd_hash, &chal);
    let r = step(r.state, received(Incoming::Bytes(mac)));
    assert_eq!(r.state, ServerState::LoggedIn { user });
    assert_eq!(r.sends, vec![Outgoing::Reply(Response::Success), Outgoing::Flag(false)]);
    assert_eq!(r.wait, Wait::Receive(Expect::Act));
}

#[test]
fn wrong_mac_is_refused() {
    let user = alice(false, vec![]);
    let (r, _) = challenged(Some(user.clone()));
    let r = step(r.state, received(Incoming::Bytes(vec![0u8; 32])));
    assert_eq!(r.state, ServerState::Choosing);
    assert_eq!(r.sends, vec![Outgoing::Reply(Response::Error)]);
    assert_eq!(r.wait, Wait::Receive(Expect::Choice));
}

#[test]
fn login_with_second_factor() {
    let signer = Signer::new();
    let user = alice(true, signer.public_key());
    let (r, _) = challenged(Some(user.clone()));
    let chal = match &r.state {
        ServerState::AuthWaitMac { challenge, .. } => challenge.clone(),
        other => panic!("unexpected state {:?}", other),
    };
    let mac = get_mac(&user.pwd_hash, &chal);
    let r = step(r.state, received(Incoming::Bytes(mac)));
    assert_eq!(r.sends, vec![Outgoing::Reply(Response::Success), Outgoing::Flag(true)]);
    assert_eq!(r.state, ServerState::AuthWaitSignature { user: user.clone(), challenge: chal.clone() });
    let r = step(r.state, received(Incoming::Bytes(signer.sign(&chal))));
    assert_eq!(r.state, ServerState::LoggedIn { user });
    assert_eq!(r.sends, vec![Outgoing::Reply(Response::Success)]);
}

#[test]
fn bad_second_factor_is_refused() {
    let signer = Signer::new();
    let other = Signer::new();
    let user = alice(true, signer.public_key());
    let (r, _) = challenged(Some(user.clone()));
    let chal = match &r.state {
        ServerState::AuthWaitMac { challenge, .. } => challenge.clone(),
        other => panic!("unexpected state {:?}", other),
    };
    let r = step(r.state, received(Incoming::Bytes(get_mac(&user.pwd_hash, &chal))));
    let r = step(r.state, received(Incoming::Bytes(other.sign(&chal))));
    assert_eq!(r.state, ServerState::Choosing);
    assert_eq!(r.sends, vec![Outgoing::Reply(Response::Error)]);
}

#[test]
fn unknown_address_gets_a_decoy_challenge() {
    let (r, decoy_salt) = challenged(None);
    match &r.sends[..] {
        [Outgoing::Chal(Challenge { salt, chal })] => {
            assert_eq!(salt, &decoy_salt);
            assert_eq!(chal.len(), 16);
        },
        other => panic!("unexpected sends {:?}", other),
    }
    let r = step(r.state, received(Incoming::Bytes(vec![1u8; 32])));
    assert_eq!(r.state, ServerState::Choosing);
    assert_eq!(r.sends, vec![Outgoing::Reply(Response::Error)]);
}

#[test]
fn unknown_address_answered_under_the_empty_key_is_refused() {
    // The stand-in account has an empty password hash, but no answer logs it in.
    let (r, _) = challenged(None);
    let chal = match &r.state {
        ServerState::AuthWaitMac { challenge, found, .. } => {
            assert!(!found);
            challenge.clone()
        },
        other => panic!("unexpected state {:?}", other),
    };
    let r = step(r.state, received(Incoming::Bytes(get_mac(&vec![], &chal))));
    assert_eq!(r.state, ServerState::Choosing);
    assert_eq!(r.sends, vec![Outgoing::Reply(Response::Error)]);
}

#[test]
fn unknown_address_is_answered_like_a_wrong_password() {
    let (unknown, _) = challenged(None);
    let (known, _) = challenged(Some(alice(false, vec![])));
    assert!(matches!(&unknown.sends[..], [Outgoing::Chal(Challenge { salt, chal })] if salt.len() == 16 && chal.len() == 16));
    assert!(matches!(&known.sends[..], [Outgoing::Chal(Challenge { chal, .. })] if chal.len() == 16));
    let a = step(unknown.state, received(Incoming::Bytes(vec![7u8; 32])));
    let b = step(known.state, received(Incoming::Bytes(vec![7u8; 32])));
    assert_eq!((a.state, a.sends, a.wait), (b.state, b.sends, b.wait));
}

fn form(email: &str) -> RegisterForm {
    RegisterForm {
        email: email.to_string(),
        salt: vec![1u8; 16],
        pwd_hash: vec![2u8; 32],
        yubikey: vec![3u8; 65],
    }
}

#[test]
fn registration_creates_an_account_with_second_factor() {
    let r = step(ServerState::Choosing, received(Incoming::Choice(Authenticate::Register)));
    assert_eq!(r.state, ServerState::RegisterWaitForm);
    assert_eq!(r.wait, Wait::Receive(Expect::Registration));
    let r = step(r.state, received(Incoming::Registration(form("bob@example.com"))));
    assert_eq!(r.wait, Wait::FindUser("bob@example.com".to_string()));
    let r = step(r.state, Event::Found(None));
    let expected = User {
        email: "bob@example.com".to_string(),
        salt: vec![1u8; 16],
        pwd_hash: vec![2u8; 32],
        yubikey: vec![3u8; 65],
        is_2fa: true,
    };
    assert_eq!(r.wait, Wait::StoreUser(expected.clone()));
    assert!(r.sends.is_empty());
    let r = step(r.state, Event::Stored(true));
    assert_eq!(r.state, ServerState::LoggedIn { user: expected });
    assert_eq!(r.sends, vec![Outgoing::Reply(Response::Success)]);
}

#[test]
fn registration_refuses_invalid_or_taken_address() {
    let r = step(ServerState::RegisterWaitForm, received(Incoming::Registration(form("bob.example.com"))));
    let r = step(r.state, Event::Found(None));
    assert_eq!(r.state, ServerState::RegisterWaitForm);
    assert_eq!(r.sends, vec![Outgoing::Reply(Response::Error)]);
    assert_eq!(r.wait, Wait::Receive(Expect::Registration));

    let r = step(r.state, received(Incoming::Registration(form("alice@example.com"))));
    let r = step(r.state, Event::Found(Some(alice(false, vec![]))));
    assert_eq!(r.state, ServerState::RegisterWaitForm);
    assert_eq!(r.sends, vec![Outgoing::Reply(Response::Error)]);
}

#[test]
fn registration_store_failure_closes() {
    let r = step(ServerState::RegisterWaitStore { user: alice(true, vec![]) }, Event::Stored(false));
    assert_eq!(r.state, ServerState::Closed);
    assert_eq!(r.wait, Wait::Close);
}

/// Runs a reset for `user` up to the token check; returns the reaction and the token.
fn reset_mailed(user: User) -> (Reaction, String) {
    let r = step(ServerState::Choosing, received(Incoming::Choice(Authenticate::Reset)));
    assert_eq!(r.state, ServerState::ResetWaitEmail);
    let r = step(r.state, text("alice@example.com"));
    assert_eq!(r.wait, Wait::FindUser("alice@example.com".to_string()));
    let r = step(r.state, Event::Found(Some(user)));
    let token = match &r.state {
        ServerState::ResetWaitMail { token, .. } => token.clone(),
        other => panic!("unexpected state {:?}", other),
    };
    assert_eq!(token.len(), 8);
    assert!(token.chars().all(|c| "0123456789ABCDEF".contains(c)));
    assert_eq!(
        r.wait,
        Wait::Mail {
            to: "alice@example.com <alice@example.com>".to_string(),
            subject: "Reset your password!".to_string(),
            body: format!("Your reset token is: {}", token),
        }
    );
    let r = step(r.state, Event::Mailed);
    assert_eq!(r.wait, Wait::Receive(Expect::Text));
    (r, token)
}

#[test]
fn reset_without_second_factor() {
    let user = alice(false, vec![]);
    let (r, token) = reset_mailed(user.clone());
    let r = step(r.state, text(&token));
    assert_eq!(r.sends, vec![Outgoing::Reply(Response::Success), Outgoing::Flag(false)]);
    assert_eq!(r.wait, Wait::Receive(Expect::NewPassword));
    let r = step(r.state, received(Incoming::NewPassword(ResetForm { salt: vec![9u8; 16], pwd_hash: vec![8u8; 32] })));
    let updated = User { salt: vec![9u8; 16], pwd_hash: vec![8u8; 32], ..user };
    assert_eq!(r.wait, Wait::StoreUser(updated.clone()));
    let r = step(r.state, Event::Stored(true));
    assert_eq!(r.state, ServerState::LoggedIn { user: updated });
    assert_eq!(r.sends, vec![Outgoing::Reply(Response::Success)]);
}

#[test]
fn reset_store_failure_still_logs_in() {
    let user = alice(false, vec![]);
    let r = step(ServerState::ResetWaitStore { user: user.clone() }, Event::Stored(false));
    assert_eq!(r.state, ServerState::LoggedIn { user });
    assert_eq!(r.sends, vec![Outgoing::Reply(Response::Error)]);
}

#[test]
fn reset_with_second_factor() {
    let signer = Signer::new();
    let user = alice(true, signer.public_key());
    let (r, token) = reset_mailed(user.clone());
    let r = step(r.state, text(&token));
    assert_eq!(r.sends, vec![Outgoing::Reply(Response::Success), Outgoing::Flag(true)]);
    assert_eq!(r.wait, Wait::Receive(Expect::Bytes));
    let r = step(r.state, received(Incoming::Bytes(signer.sign(token.as_bytes()))));
    assert_eq!(r.sends, vec![Outgoing::Reply(Response::Success)]);
    assert_eq!(r.state, ServerState::ResetWaitForm { user });
}

#[test]
fn reset_with_bad_signature_is_refused() {
    let signer = Signer::new();
    let user = alice(true, signer.public_key());
    let (r, token) = reset_mailed(user);
    let r = step(r.state, text(&token));
    let r = step(r.state, received(Incoming::Bytes(signer.sign(b"another message"))));
    assert_eq!(r.state, ServerState::Choosing);
    assert_eq!(r.sends, vec![Outgoing::Reply(Response::Error)]);
}

#[test]
fn reset_with_wrong_token_is_refused() {
    let (r, token) = reset_mailed(alice(false, vec![]));
    let wrong = if token == "00000000" { "11111111" } else { "00000000" };
    let r = step(r.state, text(wrong));
    assert_eq!(r.state, ServerState::Choosing);
    assert_eq!(r.sends, vec![Outgoing::Reply(Response::Error)]);
}

#[test]
fn reset_of_unknown_address_is_refused() {
    let r = step(ServerState::ResetWaitLookup { email: "nobody@example.com".to_string() }, Event::Found(None));
    assert_eq!(r.state, ServerState::ResetWaitDecoy);
    assert!(r.sends.is_empty());
    assert_eq!(r.wait, Wait::Receive(Expect::Text));
    let r = step(r.state, text("ABCDEF01"));
    assert_eq!(r.state, ServerState::Choosing);
    assert_eq!(r.sends, vec![Outgoing::Reply(Response::Error)]);
}

#[test]
fn switching_second_factor_twice_restores_it() {
    let user = alice(true, vec![]);
    let r = step(ServerState::LoggedIn { user: user.clone() }, received(Incoming::Act(Action::Switch2FA)));
    let off = User { is_2fa: false, ..user.clone() };
    assert_eq!(r.wait, Wait::StoreUser(off.clone()));
    let r = step(r.state, Event::Stored(true));
    assert_eq!(r.sends, vec![Outgoing::Flag(false)]);
    assert_eq!(r.state, ServerState::LoggedIn { user: off });
    let r = step(r.state, received(Incoming::Act(Action::Switch2FA)));
    let r = step(r.state, Event::Stored(false));
    assert_eq!(r.sends, vec![Outgoing::Flag(true)]);
    assert_eq!(r.state, ServerState::LoggedIn { user });
}

#[test]
fn logout_and_exit() {
    let r = step(ServerState::LoggedIn { user: alice(false, vec![]) }, received(Incoming::Act(Action::Logout)));
    assert_eq!(r.state, ServerState::Choosing);
    assert!(r.sends.is_empty());
    let r = step(r.state, received(Incoming::Choice(Authenticate::Exit)));
    assert_eq!(r.state, ServerState::Closed);
    assert_eq!(r.wait, Wait::Close);
    let r = step(r.state, Event::Mailed);
    assert_eq!(r.state, ServerState::Closed);
}

#[test]
fn unexpected_message_closes() {
    let r = step(ServerState::AuthWaitEmail, received(Incoming::Bytes(vec![1, 2, 3])));
    assert_eq!(r.state, ServerState::Closed);
    assert!(r.sends.is_empty());
}

#[test]
fn action_perform_and_switch() {
    let mut user = alice(false, vec![]);
    assert!(Action::perform(&mut user, Action::Switch2FA));
    assert!(user.is_2fa);
    assert!(!Action::perform(&mut user, Action::Logout));
    assert!(user.is_2fa);
    assert!(Action::perform(&mut user, Action::Switch2FA));
    assert_eq!(user, alice(false, vec![]));
}

#[test]
fn token_is_the_hex_text_of_the_drawn_bytes() {
    let user = alice(false, vec![]);
    let (state, sends) = transition(
        ServerState::ResetWaitLookup { email: "alice@example.com".to_string() },
        Event::Found(Some(user.clone())),
        vec![0xde, 0xad, 0xbe, 0xef],
    );
    assert!(sends.is_empty());
    assert_eq!(state, ServerState::ResetWaitMail { user, token: "DEADBEEF".to_string() });
}

#[test]
fn challenge_uses_the_drawn_bytes() {
    let (state, sends) = transition(
        ServerState::AuthWaitLookup { email: "x@y".to_string(), decoy_salt: vec![1; 16] },
        Event::Found(None),
        vec![2; 16],
    );
    assert_eq!(sends, vec![Outgoing::Chal(Challenge { salt: vec![1; 16], chal: vec![2; 16] })]);
    assert_eq!(
        state,
        ServerState::AuthWaitMac {
            user: User { email: "x@y".to_string(), salt: vec![1; 16], pwd_hash: vec![], yubikey: vec![], is_2fa: false },
            challenge: vec![2; 16],
            found: false,
        }
    );
}

#[test]
fn duplicate_copies_every_field() {
    let user = alice(true, vec![1, 2, 3]);
    assert_eq!(user.duplicate(), user);
}
