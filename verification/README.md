# lcp

A verified core of the LCP modules, written in Verus.

- `src/proto.rs`: the protobuf wire format as the library writes it
  (varints coded by prost, length-delimited and `uint64` fields), and
  prost's decoding of a `google.protobuf.Any`.
- `src/consensus_state.rs`: the LCP client's consensus state, its raw message
  `ibc.lightclients.lcp.v1.ConsensusState`, its exact encoding, its packing
  into an `Any`, and its reading out of one (which, as the value is read as a
  nested `Any`, always ends in an error that is stated exactly).
- `src/mock_client.rs`, `src/ibc_client.rs`: the mock light client's
  create-client and update-client logic. ibc (0.15, `mocks`) reads client
  states, consensus states and headers out of `Any`s and packs new states;
  the host's client store and commitment scheme stay outside, and the update
  runs in steps around the host's reads. Laws: creation is deterministic
  (but for the text of ibc's errors); each commitment continues from the
  height the one before reached, and from its state id where the host
  computes state ids with one scheme of the stored states; and an update's
  result re-creates the client.
- `src/host_api.rs`: the decisions of the enclave's command ocall.
- `app/`: the glue: ibc's `ClientReader` driving an update, the serde copy of
  the consensus state, and the ocall itself.
