# oto

A voice transport for encoded Opus: the voice gateway session, UDP discovery, RTP packets
with transport encryption, DAVE media encryption and a paced sender.

`src/` is the library. It holds the decisions as state machines, with contracts that Verus
proves: what a message means, what is sent next, when a session resumes or ends, which
packet leaves when. It does no I/O. A caller hands in what arrived and the time, and does
what the result says.

- `model`, `error`, `config`: identities, snapshots, errors and resource bounds.
- `wire`, `text`, `json`, `address`: bytes, numbers in text, JSON values, IP addresses.
- `discovery`, `rtp`, `aead`, `transport`: discovery packets and encrypted media packets.
- `roster`, `mls`, `dave`, `owner`: the DAVE lifecycle around an MLS session.
- `gateway`: decoding, payloads, the steps of a session; `gateway::conversation` is one
  session as a whole, `gateway::course` the connection across sessions.
- `pacer`, `audio`: the 20 ms timeline and the sender that follows it.
- `ring`, `frame_channel`, `send_trace`: a one-frame channel and a bounded trace.
- `connection`: the durable state of a connection and the admission of its users.
- `testkit`: deterministic peers and packet oracles. `fuzzing`: entry points on raw bytes.

`app/` runs the library on Tokio: sockets, TLS, timers, tasks and queues.

The functions of other crates that the library calls stand behind wrappers in `aead`,
`discovery`, `transport`, `mls`, `ring`, `send_trace` and `text`; the comment above each
says what is taken for granted of it.
