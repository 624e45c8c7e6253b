# m3ua

An M3UA (RFC 4666) codec and SG-side ASP state machine, written in Verus with
every function of the library proved against its contract.

- `src/wire.rs`: big-endian fields and byte-buffer helpers.
- `src/text.rs`: decimal and hexadecimal rendering for the descriptions.
- `src/header.rs`: the 8-octet common header, message classes and types.
- `src/parameter.rs` (+ `parameter/tags.rs`): TLV parameters and well-known tags.
- `src/protocol_data.rs`: the Protocol Data payload of DATA messages.
- `src/message.rs`: whole messages, builders and accessors.
- `src/asp.rs`: the SG-side ASP state machine.
- `src/error.rs`: decode errors.

Each codec has a spec function for its wire form and for what decoding yields;
the round-trip and accessor laws are proof functions beside them.

`app/` holds what needs outside crates: the error type with its
`std::error::Error` impl (thiserror) and the Python bindings (PyO3).
