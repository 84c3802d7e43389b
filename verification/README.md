# Patine

An SMTP server (RFC 5321) whose protocol logic is verified with Verus.

- `src/` is the verified library: command parsing, the server and client wire
  formats, the session state machine with one handler per command, the client's
  delivery dialogue, the settings, and Maildir file names. Each public function has
  a contract over a mathematical model of its values; properties that span several
  functions are stated and proved as `law_*` proof functions.
- `app/` is the program around it: reading the environment, listening on the
  submission and relay ports, TLS (certificates in `certs/` beside the program), DNS,
  writing mail under `MAILDIR_ROOT`, and checking AUTH credentials by running the PAM
  helper at `PAM_HELPER_PATH` (the same program, started under the name `pam_helper`).
  It hands the library plain values and performs what the library decides.
- `tests/` runs the library on concrete inputs.

Required environment variables: `MAILDIR_ROOT`, `DOMAIN`, `RELAY_PORT`,
`SUBMISSION_PORT`, `PAM_HELPER_PATH`.
