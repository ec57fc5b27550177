# ai_butler

A terminal butler that chats with the Gemini API and may run shell commands once the
user allows them.

- `src/` is the verified library: the conversation and its token and request
  allowances (`client.rs`), the interface state, key handling and status line
  (`app.rs`), the configuration (`config.rs`), the wire data and a JSON model
  (`models.rs`, `json.rs`), number formatting (`text.rs`), the palette (`theme.rs`),
  the channel ends it carries (`channels.rs`), and laws that span functions (`laws.rs`).
- `app/` is the program around it: terminal drawing, the HTTP client, the
  configuration file, the shell, and serde forms of the wire data.
- `tests/` runs the library on concrete values.
