# sec_auth

Challenge-response authentication with an optional Yubikey second factor, and password
reset by a token sent by mail. The protocol logic is written in Verus and proved against
its specifications; the programs around it are ordinary Rust.

## Layout

- `src/validations.rs`: the checks on e-mail addresses and passwords.
- `src/crypto.rs`: HMAC-SHA256, SHA-256 digests, ECDSA P-256 signature checks, Argon2id password hashing,
  random bytes and hexadecimal text, each a call into its crate behind a small trusted
  function whose contract names or states the result.
- `src/server.rs`: the server as a state machine. `next` is the protocol as a spec
  function; `transition` computes it exactly, and `step` draws the random bytes the
  protocol needs and says what to wait for next (a message, an account lookup or write,
  a mail).
- `src/client.rs`: the client as a state machine in the same style (`client_next`,
  `client_step`), including the texts it prints.
- `src/action.rs`, `src/user.rs`, `src/communication_types.rs`: accounts, logged-in
  actions and the messages on the wire.
- `src/laws.rs`: properties of the protocol proved over `next` and `client_next`: who can
  get logged in, what a reset needs, that a registered or reset password is accepted at
  the next login, and more.
- `app/`: the client and server programs: terminal input, TCP with JSON messages, the
  account file, the mailer and the Yubikey. They run the machines of `src/`.
- `tests/`: tests of the library, including whole sessions between the two machines.
