# ruma_rtc

Event contents of MatrixRTC (MSC4143) and the sticky object of sticky events (MSC4354), with
their JSON encodings, verified with Verus.

- `src/json.rs`: the JSON layer. A JSON object is a `serde_json::Map`; the few calls into
  `serde_json` are trusted and stated over two names, the entries of an object and the
  outermost layer of a value. Field readers for the formats below are verified on top.
- `src/identifiers.rs`: the sigil and delimiter forms of room IDs and user IDs, checked when
  an encryption key content or a member is read from JSON.
- `src/application.rs`, `src/slot.rs`, `src/encryption_key.rs`, `src/transport.rs`,
  `src/member.rs`, `src/sticky.rs`: the content types, their constructors, and for each a
  `to_json_object` / `from_json_object` pair. Each encoder is specified by a relation between
  a value and JSON entries, each decoder by a function on JSON entries, and round-trip lemmas
  prove what decoding an encoding gives back, under the premises each lemma states (for
  example, a custom application whose data holds its own `type` entry does not read back as
  itself).
- `app/lib.rs`: serde `Serialize`/`Deserialize` through a `Json<T>` wrapper that delegates to
  the verified encoders and decoders.
- `tests/`: the scenarios of the event contents and further cases on concrete values.
