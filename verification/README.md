# cheime_tip

The platform-independent core of the CheIME text input processor for
Windows, written in Verus: every function in `src/` carries a contract that
the verifier checks, and the laws that hold across calls are stated and
proved as public proof functions.

- `src/` — the verified library: key admission and key handling
  (`key_handler`, `key_events`), activation, focus and deactivation state
  (`runtime`, `activation_flow`, `rollback_guard`), edit sessions
  (`edit_plan`), the I/O loop's decisions (`io_loop`), pipe framing and the
  session handshake (`framing`, `session`, `error`, `channel`), the
  candidate window's layout, hit testing and colours (`candidate_rows`,
  `row_text`, `candidate_window`, `colors`, `shapes`, `layout`), the UI
  configuration and its colour schemes (`ui_config`, `schemes`),
  registration plans and COM decisions (`registration`, `exports`, `com`,
  `display_attribute`, `language_bar`, `tip`), command lines (`cli`), the
  configuration studio's requests (`studio`) and file fingerprints
  (`fingerprint`).
- `tests/` — tests of the library on concrete values.
- `app/` — what the verifier does not take: file and pipe I/O, the clock,
  YAML and JSON files through serde, and the installer's status report.

Calls into `sha2` and `serde_json` stand behind small trusted wrappers whose
contracts are stated in their doc comments.
