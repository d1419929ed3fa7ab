# canton_sequencer_client

Client-side logic for Canton sequencers: member identifiers, protocol versions,
Ed25519 signing, the topology transactions of participant onboarding, and the
requests of the connect, authentication and sequencer services. The library in
`src/` is written in Verus and carries its contracts; `app/` holds the gRPC
clients that carry its requests over tonic channels.

- `src/member.rs`: `PAR::`/`MED::`/`SEQ::` member IDs, unique identifiers and
  namespaces, with their validation, parsing and round-trip laws.
- `src/protocol.rs`: protocol versions and their wire numbers.
- `src/sha256.rs`: SHA-256, proved against a functional definition of the hash.
- `src/signing.rs`: the Ed25519 signer (through `ed25519-dalek`) and key
  fingerprints.
- `src/wire.rs`, `src/topology.rs`: protobuf encoding of topology transactions,
  and the builders that make and sign them.
- `src/client.rs`, `src/proto/`: service messages and the requests built from them.
- `app/`: the three gRPC clients and the protobuf wire forms of the messages.
