# inqo

A client library for Pluggable Authentication Modules (PAM), verified with
Verus.

- `src/` is the verified library: PAM status codes and errors (`error`),
  the PAM constants and the plain values of conversation messages and
  responses (`ffi`, `raw`), C-style text (`text`), message styles, message
  parsing and the conversation step that answers a batch of messages
  (`converse`), and the decisions of a client session (`client`).
- `app/` is the thin layer that talks to the PAM C library: the C
  structures and functions, the C conversation callback, and the `Client`
  that owns a PAM handle. It moves values between C and the library and
  leaves every decision to it.
- `tests/` exercises the library on concrete values.
