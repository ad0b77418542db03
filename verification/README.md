# zero2prod

The rules of a newsletter service, verified with Verus, and a small web
server around them.

- `src/` is the verified library: subscriber name and email validation
  (`domain`), the error type (`errors`), the email service request
  (`email_client`), and the subscription workflow as a state machine with its
  confirmation email (`routes`). Every function there is proved against its
  contract; the laws of the workflow (only valid subscribers are stored, the
  email goes out once and only after a successful insert, success only after
  the email) are public proof functions in `routes/subscriptions.rs`.
- Trusted, not proved: three wrappers, each stating what its callee's source
  or documentation shows. `validator::validate_email` (its verdict is the
  named `email_is_valid`; a few rejections are stated),
  `UnicodeSegmentation::graphemes(..).count()` (the named `grapheme_count`,
  at most the number of characters) and `String::as_mut_str`; besides them, vstd's own
  specifications of `str` and `String`.
- `app/` is ordinary Rust: configuration, the axum routes, the database
  insert and the HTTP email client. It runs `subscribe_step` in a loop and
  performs the actions it returns.
- `tests/` runs the library against the real outside crates.
