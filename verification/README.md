# brt-can-protocol

A verified codec for the BRT draw-wire displacement sensor CAN protocol
(manual version 2.7). Messages are `[LEN, DEVICE_ID, FUNC, DATA...]`; the
library turns requests and responses into Classic CAN data frames and reads
them back, and leaves sending, timing, retries and device control to the
caller.

Layout:

- `src/frame.rs`: identifiers, borrowed decoder input and the fixed-capacity
  encoded frame, with their mathematical views.
- `src/wire.rs`: byte order of the multi-byte fields.
- `src/protocol.rs`: addresses, requests, responses, errors, the wire-level
  specification and the four codec entry points, each proved against it.
- `src/laws.rs`: round trips in both directions, one-to-one wire values, and
  what the decoders do with frames for other identifiers, remote and CAN FD
  frames.
- `src/compat/`: conversions to and from `embedded-can` identifiers and
  Embassy STM32 frames.
- `app/`: adapters that call through the `embedded_can::Frame` trait for any
  frame type, and error types with `Display`.
- `tests/`: the byte-level protocol tests, adapter tests and checks of the
  laws on concrete values.
