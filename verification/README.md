# reflex

A Wayland proxy engine, verified with Verus.

- `src/` is the verified library: the wire format (`wire`, `message`),
  framing of client requests (`codec`), events and their encoding (`event`,
  `protocol`), the per-connection session that decides what answers a request
  and what is relayed to the compositor (`session`, `interface`, `resource`),
  the outgoing event queue (`sink`), the reading of the compositor's messages
  (`upstream`), and a small standalone server that answers clients on its own
  (`server`). Calls into `byteorder` and `bytes`, `format!` for error
  texts and `String::from_utf8` for decoded strings sit behind trusted
  wrappers (`wire`, `buffer`, `text`, `message`).
- `app/` is the program around it: sockets, file-descriptor passing and the
  tokio event loop.
- `tests/` runs the library on concrete values.
