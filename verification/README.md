# clavis

A self-service password change service for Active Directory and Samba AD,
written as a Verus-verified library (`src/`) and a thin web server (`app/`).

- `src/password.rs` — the password policy (at least 8 characters, an
  uppercase letter, a lowercase letter, a number and a special character),
  the order in which its rules are reported, and their messages.
- `src/auth.rs` — the login, logout and password change endpoints as state
  machines: given what happened, they say what to do next and what to reply.
- `src/ldap.rs` — the directory procedures (authentication, password change
  through `unicodePwd` with a `sambaNTPassword` fallback, mail lookup) as
  state machines over directory operations, and their settings.
- `src/encoding.rs` — the UTF-16LE `unicodePwd` value and the MD4 NT hash.
- `src/notification.rs` — SMTP settings and the notification message.
- `src/api.rs`, `src/text.rs` — reply values and string helpers.

`app/` reads the environment, serves HTTP with axum, keeps sessions, talks
to the directory with `ldap3` and sends mail with `lettre`, performing the
operations that the library's state machines ask for.
