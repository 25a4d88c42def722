//! Properties of the protocol that span several steps or both parties.

use vstd::prelude::*;
use crate::action::Action;
use crate::client::{
    challenge_answer, client_expected_wait, client_next, password_bytes, ClientEventView,
    ClientOutView, ClientStateView, ClientWaitView, Note,
};
use crate::communication_types::{
    ChallengeView, IncomingView, OutgoingView, RegisterFormView, ResetFormView, Response,
};
use crate::crypto::{argon2id_interactive, sha256, ecdsa_p256_sha256_valid, hex_digits_upper, hex_upper, hmac_sha256};
use crate::server::{
    closed, decoy_user, expected_wait, fresh_len, mac_accepted, mail_recipient, next, refused,
    registered_user, with_password, EventView, ServerStateView, WaitView,
};
use crate::user::UserView;
use crate::validations::{spec_is_valid_email, spec_is_valid_password};

verus! {

/// A connection gets logged in only by a MAC that answers the challenge under the password
/// hash of a stored account (for an account without second factor), by a valid Yubikey signature of
/// the challenge (for an account with it), by storing a new account or a new password, or by
/// storing the account after a switch of its second factor; the account logged in is the one
/// that the connection was handling.
pub proof fn law_login_needs_credentials(s: ServerStateView, e: EventView, fresh: Seq<u8>)
    ensures
        next(s, e, fresh).0 matches ServerStateView::LoggedIn { user } ==> {
            ||| s matches ServerStateView::AuthWaitMac { user: u, challenge, found } && found && u == user
                && !u.is_2fa && (e matches EventView::Received(IncomingView::Bytes(mac))
                && mac_accepted(u, challenge, mac))
            ||| s matches ServerStateView::AuthWaitSignature { user: u, challenge } && u == user
                && (e matches EventView::Received(IncomingView::Bytes(sig))
                && ecdsa_p256_sha256_valid(u.yubikey, challenge, sig))
            ||| s matches ServerStateView::RegisterWaitStore { user: u } && u == user && e
                == EventView::Stored(true)
            ||| s matches ServerStateView::ResetWaitStore { user: u } && u == user && e is Stored
            ||| s matches ServerStateView::SwitchWaitStore { user: u } && u == user && e is Stored
        },
{
}

/// The account that a login handles is the one the lookup of its address returned: a
/// challenge is sent right after the lookup, and marks the account as stored exactly when
/// the lookup found one; the Yubikey signature is asked for only after a right MAC for a
/// stored account.
pub proof fn law_login_handles_the_stored_account(s: ServerStateView, e: EventView, fresh: Seq<u8>)
    ensures
        next(s, e, fresh).0 matches ServerStateView::AuthWaitMac { user, challenge, found } ==> (
        s is AuthWaitLookup && challenge == fresh && (e matches EventView::Found(f) && (found
            <==> f is Some) && (found ==> f == Some(user)))),
        next(s, e, fresh).0 matches ServerStateView::AuthWaitSignature { user, challenge } ==> (
        s matches ServerStateView::AuthWaitMac { user: u, challenge: c, found } && found && u
            == user && c == challenge && user.is_2fa && (e matches EventView::Received(
            IncomingView::Bytes(mac),
        ) && mac_accepted(u, c, mac))),
{
}

/// With the second factor on, a right MAC alone does not log in: the server asks for the
/// Yubikey signature of the same challenge.
pub proof fn law_second_factor_is_asked(user: UserView, challenge: Seq<u8>, e: EventView, fresh: Seq<u8>)
    requires
        user.is_2fa,
    ensures
        !(next(ServerStateView::AuthWaitMac { user, challenge, found: true }, e, fresh).0 is LoggedIn),
        e matches EventView::Received(IncomingView::Bytes(mac)) && mac_accepted(user, challenge, mac)
            ==> next(ServerStateView::AuthWaitMac { user, challenge, found: true }, e, fresh) == (
            ServerStateView::AuthWaitSignature { user, challenge },
            seq![OutgoingView::Reply(Response::Success), OutgoingView::Flag(true)],
        ),
{
}

/// A wrong MAC is refused: the client is told so and is back at the start menu.
pub proof fn law_wrong_mac_is_refused(
    user: UserView,
    challenge: Seq<u8>,
    found: bool,
    mac: Seq<u8>,
    fresh: Seq<u8>,
)
    requires
        mac != hmac_sha256(user.pwd_hash, challenge),
    ensures
        next(
            ServerStateView::AuthWaitMac { user, challenge, found },
            EventView::Received(IncomingView::Bytes(mac)),
            fresh,
        ) == refused(),
{
}

/// A new password is accepted only after the client sent back the token that the server
/// mailed and, for an account with the second factor, a valid Yubikey signature of that
/// token's UTF-8 bytes.
pub proof fn law_new_password_needs_token(s: ServerStateView, e: EventView, fresh: Seq<u8>)
    ensures
        next(s, e, fresh).0 matches ServerStateView::ResetWaitForm { user } ==> {
            ||| s matches ServerStateView::ResetWaitToken { user: u, token } && u == user
                && !u.is_2fa && e == EventView::Received(IncomingView::Text(token))
            ||| s matches ServerStateView::ResetWaitSignature { user: u, token } && u == user
                && (e matches EventView::Received(IncomingView::Bytes(sig))
                && ecdsa_p256_sha256_valid(u.yubikey, password_bytes(token), sig))
        },
        next(s, e, fresh).0 matches ServerStateView::ResetWaitSignature { user, token } ==> {
            &&& s matches ServerStateView::ResetWaitToken { user: u, token: t } && u == user && t
                == token && u.is_2fa
            &&& e == EventView::Received(IncomingView::Text(token))
        },
{
}

/// Upper-case hexadecimal takes two digits per byte, each a digit of `0123456789ABCDEF`.
pub proof fn lemma_hex_upper(data: Seq<u8>)
    ensures
        hex_upper(data).len() == 2 * data.len(),
        forall|i: int| 0 <= i < hex_upper(data).len() ==> hex_digits_upper().contains(#[trigger] hex_upper(data)[i]),
    decreases data.len(),
{
    if data.len() > 0 {
        lemma_hex_upper(data.drop_first());
        let head = seq![hex_digits_upper()[(data[0] / 16) as int], hex_digits_upper()[(data[0] % 16) as int]];
        assert forall|i: int| 0 <= i < hex_upper(data).len() implies hex_digits_upper().contains(
            #[trigger] hex_upper(data)[i],
        ) by {
            if i < 2 {
                assert(hex_upper(data)[i] == head[i]);
                if i == 0 {
                    assert(hex_digits_upper()[(data[0] / 16) as int] == head[0]);
                } else {
                    assert(hex_digits_upper()[(data[0] % 16) as int] == head[1]);
                }
            } else {
                assert(hex_upper(data)[i] == hex_upper(data.drop_first())[i - 2]);
            }
        }
    }
}

/// When a reset finds its account, the token is the upper-case hexadecimal text of the four
/// random bytes drawn, eight digits long, and it is mailed to the account's own address.
pub proof fn law_reset_token_is_mailed(email: Seq<char>, user: UserView, fresh: Seq<u8>)
    requires
        fresh.len() == 4,
    ensures
        ({
            let token = hex_upper(fresh);
            &&& next(ServerStateView::ResetWaitLookup { email }, EventView::Found(Some(user)), fresh)
                == (ServerStateView::ResetWaitMail { user, token }, Seq::<OutgoingView>::empty())
            &&& token.len() == 8
            &&& forall|i: int| 0 <= i < 8 ==> hex_digits_upper().contains(#[trigger] token[i])
            &&& expected_wait(ServerStateView::ResetWaitMail { user, token }) matches WaitView::Mail {
                to,
                ..
            } && to == mail_recipient(user.email)
        }),
{
    lemma_hex_upper(fresh);
}

/// A reset for an address without an account ends as a reset with a wrong token does: the
/// next message of the client is answered with an error and the client is back at the start
/// menu.
pub proof fn law_reset_of_unknown_address_is_refused(
    email: Seq<char>,
    user: UserView,
    token: Seq<char>,
    m: IncomingView,
    t: Seq<char>,
    fresh: Seq<u8>,
)
    requires
        t != token,
    ensures
        next(ServerStateView::ResetWaitLookup { email }, EventView::Found(None), fresh) == (
            ServerStateView::ResetWaitDecoy,
            Seq::<OutgoingView>::empty(),
        ),
        next(ServerStateView::ResetWaitDecoy, EventView::Received(m), fresh) == refused(),
        next(
            ServerStateView::ResetWaitToken { user, token },
            EventView::Received(IncomingView::Text(t)),
            fresh,
        ) == refused(),
{
}

/// An address without an account is challenged with the random salt drawn when the
/// address arrived, and no MAC logs it in: every answer is refused.
pub proof fn law_unknown_address_cannot_log_in(
    email: Seq<char>,
    decoy_salt: Seq<u8>,
    challenge: Seq<u8>,
    mac: Seq<u8>,
    fresh: Seq<u8>,
)
    ensures
        ({
            let user = decoy_user(email, decoy_salt);
            &&& next(
                ServerStateView::AuthWaitLookup { email, decoy_salt },
                EventView::Found(None),
                challenge,
            ) == (
                ServerStateView::AuthWaitMac { user, challenge, found: false },
                seq![OutgoingView::Chal(ChallengeView { salt: decoy_salt, chal: challenge })],
            )
            &&& next(
                ServerStateView::AuthWaitMac { user, challenge, found: false },
                EventView::Received(IncomingView::Bytes(mac)),
                fresh,
            ) == refused()
        }),
{
}

/// A login does not reveal whether the address has an account. A random salt of 16 bytes,
/// the length of the salts that passwords are hashed under, is drawn before the lookup; with
/// or without an account the server sends one challenge, with the fresh random bytes and a
/// salt (the account's, or the random one); and an address without an account is answered
/// as a wrong password of a stored account is.
pub proof fn law_login_does_not_reveal_accounts(
    email: Seq<char>,
    decoy_salt: Seq<u8>,
    stored: UserView,
    challenge: Seq<u8>,
    mac: Seq<u8>,
    wrong: Seq<u8>,
    fresh: Seq<u8>,
)
    requires
        wrong != hmac_sha256(stored.pwd_hash, challenge),
    ensures
        fresh_len(
            ServerStateView::AuthWaitEmail,
            EventView::Received(IncomingView::Text(email)),
        ) == 16,
        next(
            ServerStateView::AuthWaitLookup { email, decoy_salt },
            EventView::Found(None),
            challenge,
        ).1 == seq![OutgoingView::Chal(ChallengeView { salt: decoy_salt, chal: challenge })],
        next(
            ServerStateView::AuthWaitLookup { email, decoy_salt },
            EventView::Found(Some(stored)),
            challenge,
        ).1 == seq![OutgoingView::Chal(ChallengeView { salt: stored.salt, chal: challenge })],
        next(
            ServerStateView::AuthWaitMac {
                user: decoy_user(email, decoy_salt),
                challenge,
                found: false,
            },
            EventView::Received(IncomingView::Bytes(mac)),
            fresh,
        ) == next(
            ServerStateView::AuthWaitMac { user: stored, challenge, found: true },
            EventView::Received(IncomingView::Bytes(wrong)),
            fresh,
        ),
{
}

/// An account is created only for a valid address that has no account yet, with the
/// form's salt, password hash and key, and with the second factor on.
pub proof fn law_registration(form: RegisterFormView, found: Option<UserView>, fresh: Seq<u8>)
    ensures
        next(ServerStateView::RegisterWaitLookup { form }, EventView::Found(found), fresh) == (if spec_is_valid_email(form.email) && found is None {
            (ServerStateView::RegisterWaitStore { user: registered_user(form) }, Seq::<OutgoingView>::empty())
        } else {
            (ServerStateView::RegisterWaitForm, seq![OutgoingView::Reply(Response::Error)])
        }),
        registered_user(form).is_2fa,
{
}

/// Switching the second factor twice gives back the account as it was: the session is
/// logged in again with the same account, after the server told the client the new setting
/// each time.
pub proof fn law_switch_twice_restores(user: UserView, ok1: bool, ok2: bool, fresh: Seq<u8>)
    ensures
        ({
            let switch = EventView::Received(IncomingView::Act(Action::Switch2FA));
            let s1 = next(ServerStateView::LoggedIn { user }, switch, fresh).0;
            let r2 = next(s1, EventView::Stored(ok1), fresh);
            let s3 = next(r2.0, switch, fresh).0;
            let r4 = next(s3, EventView::Stored(ok2), fresh);
            &&& r2.1 == seq![OutgoingView::Flag(!user.is_2fa)]
            &&& r4 == (ServerStateView::LoggedIn { user }, seq![OutgoingView::Flag(user.is_2fa)])
        }),
{
    assert(user.with_2fa(!user.is_2fa).with_2fa(!user.with_2fa(!user.is_2fa).is_2fa) =~= user);
}

/// Logging out leads back to the start menu without a word; leaving from the start menu
/// closes the connection, and a closed connection stays closed.
pub proof fn law_logout_and_exit(user: UserView, e: EventView, fresh: Seq<u8>)
    ensures
        next(
            ServerStateView::LoggedIn { user },
            EventView::Received(IncomingView::Act(Action::Logout)),
            fresh,
        ) == (ServerStateView::Choosing, Seq::<OutgoingView>::empty()),
        next(
            ServerStateView::Choosing,
            EventView::Received(IncomingView::Choice(crate::communication_types::Authenticate::Exit)),
            fresh,
        ) == closed(),
        next(ServerStateView::Closed, e, fresh) == closed(),
{
}

/// An error reply never logs a connection in, but for one case: after a reset, when the new
/// password could not be stored, the server reports the error and still logs the account in.
pub proof fn law_error_reply_does_not_log_in(s: ServerStateView, e: EventView, fresh: Seq<u8>)
    ensures
        next(s, e, fresh).1.contains(OutgoingView::Reply(Response::Error)) && next(s, e, fresh).0 is LoggedIn
            ==> s is ResetWaitStore && e == EventView::Stored(false),
{
    let r = next(s, e, fresh);
    if r.1.contains(OutgoingView::Reply(Response::Error)) && r.0 is LoggedIn {
        let i = choose|i: int| 0 <= i < r.1.len() && r.1[i] == OutgoingView::Reply(Response::Error);
    }
}

/// A client that registered with password `p` gets past the password check of the server
/// when it logs in with `p`: the form it sends holds the hash of `p` under the salt it drew,
/// the server challenges with that salt, and the client's answer is the MAC that the server
/// expects. The account has the second factor on, so the server then asks for the Yubikey.
pub proof fn law_registered_password_passes(
    email: Seq<char>,
    p: Seq<char>,
    salt: Seq<u8>,
    key: Seq<u8>,
    decoy_salt: Seq<u8>,
    challenge: Seq<u8>,
    any: Seq<u8>,
)
    requires
        spec_is_valid_password(p),
    ensures
        ({
            let form = RegisterFormView {
                email,
                salt,
                pwd_hash: argon2id_interactive(password_bytes(p), salt),
                yubikey: key,
            };
            let user = registered_user(form);
            let mac = challenge_answer(p, challenge, salt);
            let typed = client_next(
                ClientStateView::RegPassword { email },
                ClientEventView::Typed(p),
                salt,
            );
            &&& client_next(typed.0, ClientEventView::PublicKey(key), any).1 == seq![
                ClientOutView::Say(Note::KeyOk),
                ClientOutView::Send(IncomingView::Registration(form)),
            ]
            &&& next(
                ServerStateView::AuthWaitLookup { email, decoy_salt },
                EventView::Found(Some(user)),
                challenge,
            ) == (
                ServerStateView::AuthWaitMac { user, challenge, found: true },
                seq![OutgoingView::Chal(ChallengeView { salt, chal: challenge })],
            )
            &&& client_next(
                ClientStateView::AuthChallenge { password: p },
                ClientEventView::Received(OutgoingView::Chal(ChallengeView { salt, chal: challenge })),
                any,
            ).1 == seq![ClientOutView::Send(IncomingView::Bytes(mac))]
            &&& next(
                ServerStateView::AuthWaitMac { user, challenge, found: true },
                EventView::Received(IncomingView::Bytes(mac)),
                any,
            ).0 == (ServerStateView::AuthWaitSignature { user, challenge })
        }),
{
}

/// A client that reset its password to `p` gets past the password check when it logs in
/// with `p`: the form it sends holds the hash of `p` under the salt it drew, and the account
/// that the server stores with it accepts the client's answer to any challenge.
pub proof fn law_new_password_passes(
    user: UserView,
    p: Seq<char>,
    salt: Seq<u8>,
    challenge: Seq<u8>,
    any: Seq<u8>,
)
    requires
        spec_is_valid_password(p),
    ensures
        ({
            let form = ResetFormView {
                salt,
                pwd_hash: argon2id_interactive(password_bytes(p), salt),
            };
            let stored = with_password(user, form);
            &&& client_next(ClientStateView::ResetNewPassword, ClientEventView::Typed(p), salt)
                == (
                ClientStateView::ResetStored,
                seq![ClientOutView::Send(IncomingView::NewPassword(form))],
            )
            &&& next(
                ServerStateView::ResetWaitForm { user },
                EventView::Received(IncomingView::NewPassword(form)),
                any,
            ).0 == (ServerStateView::ResetWaitStore { user: stored })
            &&& stored.salt == salt
            &&& mac_accepted(stored, challenge, challenge_answer(p, challenge, salt))
        }),
{
}


/// The password never leaves the client in clear. Where a password is typed or kept, the
/// only text the client sends is the e-mail address typed before it; the password kept for
/// a login leaves only as the MAC of the challenge under its salted hash, and a password
/// typed for a registration or a reset is kept only as its salted hash.
pub proof fn law_password_is_not_sent(s: ClientStateView, e: ClientEventView, salt: Seq<u8>)
    ensures
        s is RegPassword || s is AuthPassword || s is AuthChallenge || s is ResetNewPassword
            ==> forall|i: int|
            0 <= i < client_next(s, e, salt).1.len() ==> (#[trigger] client_next(s, e, salt).1[i]
                matches ClientOutView::Send(IncomingView::Text(t)) ==> s matches ClientStateView::AuthPassword {
                email,
            } && t == email),
        s matches ClientStateView::AuthChallenge { password } ==> (e matches ClientEventView::Received(
            OutgoingView::Chal(c),
        ) ==> client_next(s, e, salt).1 == seq![
            ClientOutView::Send(IncomingView::Bytes(challenge_answer(password, c.chal, c.salt))),
        ]),
        e matches ClientEventView::Typed(p) ==> (s is RegPassword && spec_is_valid_password(p)
            ==> (client_next(s, e, salt).0 matches ClientStateView::RegKey { pwd_hash, .. }
            && pwd_hash == argon2id_interactive(password_bytes(p), salt))),
        e matches ClientEventView::Typed(p) ==> (s is ResetNewPassword && spec_is_valid_password(
            p,
        ) ==> client_next(s, e, salt).1 == seq![
            ClientOutView::Send(
                IncomingView::NewPassword(
                    ResetFormView { salt, pwd_hash: argon2id_interactive(password_bytes(p), salt) },
                ),
            ),
        ]),
{
}

/// The client asks the Yubikey for a key pair only while registering, after a valid
/// password was typed, and for a signature only when the server asked for the second
/// factor, at a login or at a reset.
pub proof fn law_yubikey_is_asked_when_needed(s: ClientStateView, e: ClientEventView, salt: Seq<u8>)
    ensures
        client_expected_wait(client_next(s, e, salt).0) is FetchPublicKey ==> s is RegPassword
            && (e matches ClientEventView::Typed(p) && spec_is_valid_password(p)),
        client_expected_wait(client_next(s, e, salt).0) is Sign ==> e
            == ClientEventView::Received(OutgoingView::Flag(true)) && (s is AuthFlag
            || s is ResetFlag),
{
}


/// At login the client recomputes exactly the hash it registered: the registration step
/// hashes the typed password under the salt it drew (with `hash_pwd`), and when the server
/// later challenges with that salt, the login step hashes the same password under it again
/// (with `hash_pwd_with_salt`) and answers with the MAC under the registered hash.
pub proof fn law_login_recomputes_the_registered_hash(
    email: Seq<char>,
    p: Seq<char>,
    salt: Seq<u8>,
    chal: Seq<u8>,
    any: Seq<u8>,
)
    requires
        spec_is_valid_password(p),
    ensures
        client_next(ClientStateView::RegPassword { email }, ClientEventView::Typed(p), salt).0
            matches ClientStateView::RegKey { salt: registered_salt, pwd_hash, .. } ==> (
        registered_salt == salt && client_next(
            ClientStateView::AuthChallenge { password: p },
            ClientEventView::Received(OutgoingView::Chal(ChallengeView { salt, chal })),
            any,
        ).1 == seq![ClientOutView::Send(IncomingView::Bytes(hmac_sha256(pwd_hash, chal)))]),
        client_next(ClientStateView::RegPassword { email }, ClientEventView::Typed(p), salt).0 is RegKey,
{
}


/// The Yubikey signs the SHA-256 digest of exactly the message that the server checks the
/// signature against: the challenge of a login, the UTF-8 bytes of the token of a reset. The
/// client sends the signature unchanged, and the server accepts it exactly when it is a
/// valid ECDSA P-256/SHA-256 signature of that message under the account's key.
pub proof fn law_yubikey_signs_what_the_server_checks(
    password: Seq<char>,
    c: ChallengeView,
    token: Seq<char>,
    user: UserView,
    sig: Seq<u8>,
    salt: Seq<u8>,
    fresh: Seq<u8>,
)
    ensures
        client_next(
            ClientStateView::AuthChallenge { password },
            ClientEventView::Received(OutgoingView::Chal(c)),
            salt,
        ).0 == (ClientStateView::AuthVerdict { challenge: c.chal }),
        client_next(
            ClientStateView::AuthVerdict { challenge: c.chal },
            ClientEventView::Received(OutgoingView::Reply(Response::Success)),
            salt,
        ).0 == (ClientStateView::AuthFlag { challenge: c.chal }),
        client_next(
            ClientStateView::AuthFlag { challenge: c.chal },
            ClientEventView::Received(OutgoingView::Flag(true)),
            salt,
        ).0 == (ClientStateView::AuthSigning { challenge: c.chal }),
        client_expected_wait(ClientStateView::AuthSigning { challenge: c.chal })
            == ClientWaitView::Sign(sha256(c.chal)),
        client_next(
            ClientStateView::AuthSigning { challenge: c.chal },
            ClientEventView::Signed(sig),
            salt,
        ).1 == seq![ClientOutView::Send(IncomingView::Bytes(sig))],
        next(
            ServerStateView::AuthWaitSignature { user, challenge: c.chal },
            EventView::Received(IncomingView::Bytes(sig)),
            fresh,
        ).0 is LoggedIn <==> ecdsa_p256_sha256_valid(user.yubikey, c.chal, sig),
        client_expected_wait(ClientStateView::ResetSigning { token }) == ClientWaitView::Sign(
            sha256(password_bytes(token)),
        ),
        client_next(ClientStateView::ResetSigning { token }, ClientEventView::Signed(sig), salt).1
            == seq![ClientOutView::Send(IncomingView::Bytes(sig))],
        next(
            ServerStateView::ResetWaitSignature { user, token },
            EventView::Received(IncomingView::Bytes(sig)),
            fresh,
        ).0 is ResetWaitForm <==> ecdsa_p256_sha256_valid(user.yubikey, password_bytes(token), sig),
{
}


/// Each character takes one to four bytes in UTF-8, and a character below 0x80 exactly one.
proof fn lemma_utf8_len_bounds(s: Seq<char>)
    ensures
        s.len() <= vstd::utf8::encode_utf8(s).len() <= 4 * s.len(),
        (forall|i: int| 0 <= i < s.len() ==> (s[i] as u32) < 0x80) ==> vstd::utf8::encode_utf8(
            s,
        ).len() == s.len(),
    decreases s.len(),
{
    if s.len() > 0 {
        lemma_utf8_len_bounds(s.drop_first());
        if forall|i: int| 0 <= i < s.len() ==> (s[i] as u32) < 0x80 {
            assert forall|i: int| 0 <= i < s.drop_first().len() implies (s.drop_first()[i] as u32)
                < 0x80 by {
                assert(s.drop_first()[i] == s[i + 1]);
            }
            assert((s[0] as u32) < 0x80);
        }
    }
}

/// The UTF-8 encoding of two strings one after the other is the encoding of the first
/// followed by that of the second.
proof fn lemma_utf8_concat(a: Seq<char>, b: Seq<char>)
    ensures
        vstd::utf8::encode_utf8(a + b) == vstd::utf8::encode_utf8(a) + vstd::utf8::encode_utf8(b),
    decreases a.len(),
{
    if a.len() > 0 {
        lemma_utf8_concat(a.drop_first(), b);
        assert((a + b).drop_first() =~= a.drop_first() + b);
        assert((a + b)[0] == a[0]);
        assert(vstd::utf8::encode_utf8(a + b) =~= vstd::utf8::encode_scalar(a[0] as u32)
            + (vstd::utf8::encode_utf8(a.drop_first()) + vstd::utf8::encode_utf8(b)));
        assert(vstd::utf8::encode_utf8(a) + vstd::utf8::encode_utf8(b) =~= vstd::utf8::encode_scalar(a[0] as u32)
            + (vstd::utf8::encode_utf8(a.drop_first()) + vstd::utf8::encode_utf8(b)));
    } else {
        assert(a + b =~= b);
    }
}

/// An e-mail address is accepted exactly when one of its characters is an `@`, wherever it
/// stands and whatever the other characters are: putting an `@` anywhere makes any text
/// accepted, joining two texts gives an accepted one exactly when one of them is, and a
/// text without `@` is refused.
pub proof fn law_email_needs_only_an_at_sign(s: Seq<char>, a: Seq<char>, b: Seq<char>)
    ensures
        spec_is_valid_email(s) <==> exists|i: int| 0 <= i < s.len() && s[i] == '@',
        spec_is_valid_email(a + seq!['@'] + b),
        spec_is_valid_email(a + b) <==> (spec_is_valid_email(a) || spec_is_valid_email(b)),
        (forall|i: int| 0 <= i < s.len() ==> s[i] != '@') ==> !spec_is_valid_email(s),
{
    let t = a + seq!['@'] + b;
    assert(t[a.len() as int] == '@');
    let ab = a + b;
    if spec_is_valid_email(ab) {
        let i = choose|i: int| 0 <= i < ab.len() && ab[i] == '@';
        if i < a.len() {
            assert(a[i] == '@');
        } else {
            assert(b[i - a.len()] == '@');
        }
    }
    if spec_is_valid_email(a) {
        let i = choose|i: int| 0 <= i < a.len() && a[i] == '@';
        assert(ab[i] == '@');
    }
    if spec_is_valid_email(b) {
        let i = choose|i: int| 0 <= i < b.len() && b[i] == '@';
        assert(ab[a.len() + i] == '@');
    }
}

/// A password is accepted exactly when its UTF-8 encoding has at least 8 bytes, whatever its
/// characters: every text of at least 8 characters is accepted, none of fewer than 2 is, a
/// text of characters below 0x80 is accepted exactly when it has at least 8 of them, and
/// adding characters before or after an accepted password keeps it accepted.
pub proof fn law_password_needs_only_eight_bytes(p: Seq<char>, q: Seq<char>)
    ensures
        spec_is_valid_password(p) <==> vstd::utf8::encode_utf8(p).len() >= 8,
        p.len() >= 8 ==> spec_is_valid_password(p),
        p.len() < 2 ==> !spec_is_valid_password(p),
        (forall|i: int| 0 <= i < p.len() ==> (p[i] as u32) < 0x80) ==> (spec_is_valid_password(p)
            <==> p.len() >= 8),
        spec_is_valid_password(p) ==> spec_is_valid_password(p + q) && spec_is_valid_password(
            q + p,
        ),
{
    lemma_utf8_len_bounds(p);
    lemma_utf8_concat(p, q);
    lemma_utf8_concat(q, p);
}


/// The address that arrives for a login or a reset is looked up exactly as it arrived, and
/// the account that the lookup returns is the one challenged: its own salt goes out with
/// the fresh random bytes.
pub proof fn law_lookup_uses_the_address_sent(
    e: Seq<char>,
    decoy_salt: Seq<u8>,
    stored: UserView,
    fresh: Seq<u8>,
)
    ensures
        next(ServerStateView::AuthWaitEmail, EventView::Received(IncomingView::Text(e)), fresh)
            == (ServerStateView::AuthWaitLookup { email: e, decoy_salt: fresh }, Seq::<
            OutgoingView,
        >::empty()),
        expected_wait(ServerStateView::AuthWaitLookup { email: e, decoy_salt: fresh })
            == WaitView::FindUser(e),
        next(ServerStateView::ResetWaitEmail, EventView::Received(IncomingView::Text(e)), fresh)
            == (ServerStateView::ResetWaitLookup { email: e }, Seq::<OutgoingView>::empty()),
        expected_wait(ServerStateView::ResetWaitLookup { email: e }) == WaitView::FindUser(e),
        next(
            ServerStateView::AuthWaitLookup { email: e, decoy_salt },
            EventView::Found(Some(stored)),
            fresh,
        ) == (
            ServerStateView::AuthWaitMac { user: stored, challenge: fresh, found: true },
            seq![OutgoingView::Chal(ChallengeView { salt: stored.salt, chal: fresh })],
        ),
{
}

/// A registration stores, for a valid address without an account, an account under the
/// address of the form, with the form's salt, password hash and Yubikey key and the second
/// factor on; once stored, the connection is logged in as that account. An address that
/// looks up to an account with the same e-mail address is refused.
pub proof fn law_registration_stores_the_form(
    form: RegisterFormView,
    other: UserView,
    fresh: Seq<u8>,
)
    requires
        spec_is_valid_email(form.email),
    ensures
        next(ServerStateView::RegisterWaitLookup { form }, EventView::Found(None), fresh).0 matches ServerStateView::RegisterWaitStore {
            user,
        } && user.email == form.email && user.salt == form.salt && user.pwd_hash == form.pwd_hash
            && user.yubikey == form.yubikey && user.is_2fa && expected_wait(
            ServerStateView::RegisterWaitStore { user },
        ) == WaitView::StoreUser(user) && next(
            ServerStateView::RegisterWaitStore { user },
            EventView::Stored(true),
            fresh,
        ).0 == (ServerStateView::LoggedIn { user }),
        next(ServerStateView::RegisterWaitLookup { form }, EventView::Found(Some(other)), fresh).0
            == ServerStateView::RegisterWaitForm,
{
}

/// A reset changes only the password: the account stored afterwards has the salt and
/// password hash of the reset form, and keeps its e-mail address, its Yubikey key and its
/// second-factor setting; the connection is then logged in as that account.
pub proof fn law_reset_changes_only_the_password(
    user: UserView,
    form: ResetFormView,
    ok: bool,
    fresh: Seq<u8>,
)
    ensures
        next(ServerStateView::ResetWaitForm { user }, EventView::Received(IncomingView::NewPassword(form)), fresh).0 matches ServerStateView::ResetWaitStore {
            user: stored,
        } && stored.email == user.email && stored.yubikey == user.yubikey && stored.is_2fa
            == user.is_2fa && stored.salt == form.salt && stored.pwd_hash == form.pwd_hash
            && expected_wait(ServerStateView::ResetWaitStore { user: stored })
            == WaitView::StoreUser(stored) && next(
            ServerStateView::ResetWaitStore { user: stored },
            EventView::Stored(ok),
            fresh,
        ).0 == (ServerStateView::LoggedIn { user: stored }),
{
}

} // verus!
