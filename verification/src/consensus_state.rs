//! The consensus state of the LCP light client, its raw protobuf message
//! (`ibc.lightclients.lcp.v1.ConsensusState`: `bytes state_id = 1;
//! uint64 timestamp = 2;`), its packing into an `Any`, and its reading out of
//! one.

use vstd::prelude::*;
use crate::ibc_types::{Any, Timestamp};
use crate::proto::{decode_any, encode_varint, lemma_varint_bytes, prost_any_decode, varint_bytes, varint_value};

verus! {

/// The type URL under which a consensus state travels in an `Any`.
pub const LCP_CONSENSUS_STATE_TYPE_URL: &'static str = "/ibc.lightclients.lcp.v1.ConsensusState";

/// The length in bytes of a state id.
pub const STATE_ID_LEN: usize = 32;

/// The consensus state of the LCP client: the id of the upstream state it
/// commits to, and the upstream's timestamp.
#[derive(Clone, Debug, Eq)]
pub struct ConsensusState {
    pub state_id: [u8; 32],
    /// The upstream's timestamp.
    pub timestamp: u128,
}

impl View for ConsensusState {
    type V = (Seq<u8>, u128);

    open spec fn view(&self) -> (Seq<u8>, u128) {
        (self.state_id@, self.timestamp)
    }
}

/// The raw protobuf message of a consensus state.
pub struct RawConsensusState {
    pub state_id: Vec<u8>,
    pub timestamp: u64,
}

impl View for RawConsensusState {
    type V = (Seq<u8>, u64);

    open spec fn view(&self) -> (Seq<u8>, u64) {
        (self.state_id@, self.timestamp)
    }
}

/// Why an `Any` could not be read as a consensus state.
pub enum ConsensusStateError {
    /// The `Any` names no type.
    EmptyClientStateResponse,
    /// The `Any` names a consensus state, and reading its value failed.
    DecodeRawClientState(DecodeVecError),
    /// The `Any` names another type.
    UnknownConsensusStateType(String),
}

/// Why reading the value of an `Any` named a consensus state failed. The
/// value is read as a protobuf `Any` in turn, and that one as a consensus
/// state.
pub enum DecodeVecError {
    /// prost could not decode the value as an `Any`.
    DecodeMessage(prost::DecodeError),
    /// The `Any` that the value holds is no consensus state.
    TryFrom(Box<ConsensusStateError>),
}

/// All bytes of a state id are zero.
pub open spec fn state_id_is_zero(id: Seq<u8>) -> bool {
    forall|i: int| 0 <= i < id.len() ==> id[i] == 0
}

/// A consensus state is empty when its state id is all zeros and its
/// timestamp is 0.
pub open spec fn spec_is_empty(cs: (Seq<u8>, u128)) -> bool {
    state_id_is_zero(cs.0) && cs.1 == 0
}

/// The raw message of a consensus state: its state id, and its timestamp cut
/// to the low 64 bits.
pub open spec fn spec_to_raw(cs: (Seq<u8>, u128)) -> (Seq<u8>, u64) {
    (cs.0, cs.1 as u64)
}

/// The consensus state that a raw message stands for.
pub open spec fn spec_from_raw(raw: (Seq<u8>, u64)) -> (Seq<u8>, u128) {
    (raw.0, raw.1 as u128)
}

/// The protobuf bytes of a raw message: each field whose value is not the
/// default, in field order, as key, (length,) value.
pub open spec fn spec_encode_raw(raw: (Seq<u8>, u64)) -> Seq<u8> {
    (if raw.0.len() > 0 {
        varint_bytes(10) + varint_bytes(raw.0.len()) + raw.0
    } else {
        Seq::empty()
    }) + (if raw.1 != 0 {
        varint_bytes(16) + varint_bytes(raw.1 as nat)
    } else {
        Seq::empty()
    })
}

/// The bytes that the `Any` of a consensus state carries as its value.
pub open spec fn spec_encode_consensus_state(cs: (Seq<u8>, u128)) -> Seq<u8> {
    spec_encode_raw(spec_to_raw(cs))
}

/// `e` is the error of reading an `Any` with this type URL and value as a
/// consensus state: an empty type URL and another type's URL give their
/// errors; under the consensus state's own URL the value is decoded by
/// prost as an `Any`, and that `Any` is read as a consensus state in turn.
/// So no `Any` is ever read as a consensus state: every chain of `Any`s so
/// nested ends in an empty or foreign type URL, or in bytes that do not
/// decode.
pub open spec fn try_from_any_error(e: ConsensusStateError, type_url: Seq<char>, value: Seq<u8>) -> bool
    decreases value.len(),
{
    if type_url.len() == 0 {
        e is EmptyClientStateResponse
    } else if type_url == LCP_CONSENSUS_STATE_TYPE_URL@ {
        match prost_any_decode(value) {
            None => e matches ConsensusStateError::DecodeRawClientState(DecodeVecError::DecodeMessage(_)),
            Some((inner_url, inner_value)) => {
                &&& e matches ConsensusStateError::DecodeRawClientState(DecodeVecError::TryFrom(inner))
                &&& if inner_url.len() == 0 {
                    *inner is EmptyClientStateResponse
                } else if inner_value.len() < value.len() {
                    try_from_any_error(*inner, inner_url, inner_value)
                } else {
                    false
                }
            },
        }
    } else {
        e matches ConsensusStateError::UnknownConsensusStateType(url) && url@ == type_url
    }
}

fn copy_bytes(s: &[u8]) -> (v: Vec<u8>)
    ensures
        v@ == s@,
{
    let mut v: Vec<u8> = Vec::new();
    let mut i: usize = 0;
    while i < s.len()
        invariant
            i <= s.len(),
            v@ == s@.take(i as int),
        decreases s.len() - i,
    {
        v.push(s[i]);
        i += 1;
        assert(v@ =~= s@.take(i as int));
    }
    assert(s@.take(i as int) =~= s@);
    v
}

/// Appends `bytes` to `buf`.
fn append_bytes(buf: &mut Vec<u8>, bytes: &[u8])
    ensures
        final(buf)@ == old(buf)@ + bytes@,
{
    let ghost start = buf@;
    let mut i: usize = 0;
    while i < bytes.len()
        invariant
            i <= bytes.len(),
            buf@ == start + bytes@.take(i as int),
        decreases bytes.len() - i,
    {
        buf.push(bytes[i]);
        i += 1;
        assert(buf@ =~= start + bytes@.take(i as int));
    }
    assert(bytes@.take(i as int) =~= bytes@);
}

/// The protobuf bytes of the raw message, as `spec_encode_raw` describes
/// them (prost's `encode_to_vec` on the message).
pub fn encode_raw(raw: &RawConsensusState) -> (r: Vec<u8>)
    ensures
        r@ == spec_encode_raw(raw@),
{
    let mut buf: Vec<u8> = Vec::new();
    if raw.state_id.len() > 0 {
        encode_varint(10, &mut buf);
        encode_varint(raw.state_id.len() as u64, &mut buf);
        append_bytes(&mut buf, raw.state_id.as_slice());
    }
    if raw.timestamp != 0 {
        encode_varint(16, &mut buf);
        encode_varint(raw.timestamp, &mut buf);
    }
    assert(buf@ =~= spec_encode_raw(raw@));
    buf
}

/// The raw message keeps the consensus state's state id byte for byte and
/// its timestamp's low 64 bits; reading it back gives the consensus state
/// again when the timestamp fits in 64 bits.
pub proof fn lemma_raw_roundtrip(cs: (Seq<u8>, u128))
    ensures
        spec_to_raw(cs).0 == cs.0,
        spec_to_raw(cs).1 as int == cs.1 as int % 0x1_0000_0000_0000_0000,
        spec_from_raw(spec_to_raw(cs)).0 == cs.0,
        cs.1 < 0x1_0000_0000_0000_0000 ==> spec_from_raw(spec_to_raw(cs)) == cs,
{
    let t: u128 = cs.1;
    assert(t as u64 as int == t as int % 0x1_0000_0000_0000_0000) by (bit_vector);
}

/// Reading a raw message keeps its state id byte for byte and its
/// timestamp; writing it again gives the raw message back.
pub proof fn lemma_raw_read_keeps_fields(raw: (Seq<u8>, u64))
    ensures
        spec_from_raw(raw).0 == raw.0,
        spec_from_raw(raw).1 == raw.1 as u128,
        spec_to_raw(spec_from_raw(raw)) == raw,
{
}

/// The encoding of a consensus state with a 32-byte state id: the state id
/// field (key 0x0a, length 0x20, the bytes in order), then, unless its low
/// 64 bits are 0, the timestamp field (key 0x10, those bits as a varint).
pub proof fn lemma_encoding_layout(cs: (Seq<u8>, u128))
    requires
        cs.0.len() == 32,
    ensures
        cs.1 as u64 != 0 ==> spec_encode_consensus_state(cs) == seq![0x0au8, 0x20u8] + cs.0
            + seq![0x10u8] + varint_bytes((cs.1 as u64) as nat),
        cs.1 as u64 == 0 ==> spec_encode_consensus_state(cs) == seq![0x0au8, 0x20u8] + cs.0,
        cs.1 as u64 != 0 ==> varint_value(spec_encode_consensus_state(cs).subrange(
            34,
            spec_encode_consensus_state(cs).len() as int,
        ).drop_first()) == (cs.1 as u64) as nat,
{
    reveal_with_fuel(varint_bytes, 2);
    assert(varint_bytes(10) == seq![0x0au8]);
    assert(varint_bytes(16) == seq![0x10u8]);
    assert(varint_bytes(32) == seq![0x20u8]);
    let e = spec_encode_consensus_state(cs);
    if cs.1 as u64 != 0 {
        assert(e =~= seq![0x0au8, 0x20u8] + cs.0 + seq![0x10u8] + varint_bytes((cs.1 as u64) as nat));
        assert(e.subrange(34, e.len() as int).drop_first() =~= varint_bytes((cs.1 as u64) as nat));
        lemma_varint_bytes((cs.1 as u64) as nat);
    } else {
        assert(e =~= seq![0x0au8, 0x20u8] + cs.0);
    }
}

/// The layout of a raw message's encoding: the state id field, when the
/// state id is not empty, is key 0x0a, the state id's length as a varint,
/// then its bytes in order; the timestamp field, when the timestamp is not
/// 0, ends the encoding as key 0x10 and the timestamp as a varint.
pub proof fn lemma_raw_encoding_layout(raw: (Seq<u8>, u64))
    ensures
        raw.0.len() > 0 ==> {
            let k = varint_bytes(raw.0.len()).len() as int;
            let e = spec_encode_raw(raw);
            &&& e[0] == 0x0au8
            &&& e.subrange(1, 1 + k) == varint_bytes(raw.0.len())
            &&& varint_value(e.subrange(1, 1 + k)) == raw.0.len()
            &&& e.subrange(1 + k, 1 + k + raw.0.len()) == raw.0
        },
        raw.1 != 0 ==> {
            let m = varint_bytes(raw.1 as nat).len() as int;
            let e = spec_encode_raw(raw);
            &&& e.subrange(e.len() - m - 1, e.len() as int) == seq![0x10u8] + varint_bytes(
                raw.1 as nat,
            )
            &&& varint_value(e.subrange(e.len() - m, e.len() as int)) == raw.1
        },
        raw.0.len() == 0 && raw.1 == 0 ==> spec_encode_raw(raw).len() == 0,
{
    reveal_with_fuel(varint_bytes, 2);
    assert(varint_bytes(10) == seq![0x0au8]);
    assert(varint_bytes(16) == seq![0x10u8]);
    lemma_varint_bytes(raw.0.len());
    lemma_varint_bytes(raw.1 as nat);
    let e = spec_encode_raw(raw);
    let a = if raw.0.len() > 0 {
        seq![0x0au8] + varint_bytes(raw.0.len()) + raw.0
    } else {
        Seq::<u8>::empty()
    };
    let b = if raw.1 != 0 {
        seq![0x10u8] + varint_bytes(raw.1 as nat)
    } else {
        Seq::<u8>::empty()
    };
    assert(e =~= a + b);
    if raw.0.len() > 0 {
        let k = varint_bytes(raw.0.len()).len() as int;
        assert(e.subrange(1, 1 + k) =~= varint_bytes(raw.0.len()));
        assert(e.subrange(1 + k, 1 + k + raw.0.len()) =~= raw.0);
    }
    if raw.1 != 0 {
        let m = varint_bytes(raw.1 as nat).len() as int;
        assert(e.subrange(e.len() - m - 1, e.len() as int) =~= b);
        assert(e.subrange(e.len() - m, e.len() as int) =~= varint_bytes(raw.1 as nat));
    }
}

/// The empty raw message encodes to no bytes.
pub proof fn lemma_default_raw_encodes_empty(raw: (Seq<u8>, u64))
    requires
        raw.0.len() == 0,
        raw.1 == 0,
    ensures
        spec_encode_raw(raw).len() == 0,
{
}

impl ConsensusState {
    /// The state id is all zeros and the timestamp is 0.
    pub fn is_empty(&self) -> (r: bool)
        ensures
            r == spec_is_empty(self@),
            r <==> (self.timestamp == 0 && forall|i: int|
                0 <= i < 32 ==> #[trigger] self.state_id@[i] == 0u8),
    {
        let mut i: usize = 0;
        while i < STATE_ID_LEN
            invariant
                i <= STATE_ID_LEN,
                self.state_id@.len() == STATE_ID_LEN,
                forall|j: int| 0 <= j < i ==> self.state_id@[j] == 0,
            decreases STATE_ID_LEN - i,
        {
            if self.state_id[i] != 0 {
                return false;
            }
            i += 1;
        }
        self.timestamp == 0
    }

    /// The upstream's timestamp as an IBC timestamp: its low 64 bits, in
    /// nanoseconds (0 meaning that none is set).
    pub fn get_timestamp(&self) -> (t: Timestamp)
        ensures
            t.nanoseconds == self.timestamp as u64,
    {
        Timestamp { nanoseconds: self.timestamp as u64 }
    }

    /// The raw message: the state id's bytes and the timestamp's low 64 bits.
    pub fn to_raw(&self) -> (raw: RawConsensusState)
        ensures
            raw@ == spec_to_raw(self@),
            raw.state_id@ == self.state_id@,
            raw.timestamp == self.timestamp as u64,
    {
        RawConsensusState {
            state_id: copy_bytes(self.state_id.as_slice()),
            timestamp: self.timestamp as u64,
        }
    }

    /// The consensus state of a raw message whose state id has
    /// `STATE_ID_LEN` bytes (turning a state id of another length into a
    /// fixed-size array panics).
    pub fn try_from_raw(raw: RawConsensusState) -> (cs: ConsensusState)
        requires
            raw.state_id@.len() == STATE_ID_LEN,
        ensures
            cs@ == spec_from_raw(raw@),
            cs.state_id@ == raw.state_id@,
            cs.timestamp == raw.timestamp as u128,
    {
        let mut state_id = [0u8; 32];
        let mut i: usize = 0;
        while i < STATE_ID_LEN
            invariant
                i <= STATE_ID_LEN,
                raw.state_id@.len() == STATE_ID_LEN,
                state_id@.len() == STATE_ID_LEN,
                forall|j: int| 0 <= j < i ==> state_id@[j] == raw.state_id@[j],
            decreases STATE_ID_LEN - i,
        {
            state_id[i] = raw.state_id[i];
            i += 1;
        }
        assert(state_id@ =~= raw.state_id@);
        ConsensusState { state_id, timestamp: raw.timestamp as u128 }
    }

    /// Packs the consensus state into an `Any` under its type URL.
    pub fn to_any(&self) -> (any: Any)
        ensures
            any.type_url@ == LCP_CONSENSUS_STATE_TYPE_URL@,
            any.value@ == spec_encode_consensus_state(self@),
            any.value@ == spec_encode_raw((self.state_id@, self.timestamp as u64)),
    {
        let raw = self.to_raw();
        Any { type_url: LCP_CONSENSUS_STATE_TYPE_URL.to_owned(), value: encode_raw(&raw) }
    }

    /// Reads a consensus state out of an `Any`, as `try_from_any_error`
    /// describes it: it always fails, with the error that the nesting of
    /// `Any`s in the value leads to.
    pub fn try_from_any(raw: Any) -> (r: Result<ConsensusState, ConsensusStateError>)
        ensures
            r matches Err(e) && try_from_any_error(e, raw.type_url@, raw.value@),
            raw.type_url@.len() == 0 ==> r matches Err(ConsensusStateError::EmptyClientStateResponse),
            raw.type_url@.len() != 0 && raw.type_url@ != LCP_CONSENSUS_STATE_TYPE_URL@ ==> (r matches Err(
                ConsensusStateError::UnknownConsensusStateType(u),
            ) && u@ == raw.type_url@),
            raw.type_url@ == LCP_CONSENSUS_STATE_TYPE_URL@ ==> r matches Err(
                ConsensusStateError::DecodeRawClientState(_),
            ),
            raw.type_url@ == LCP_CONSENSUS_STATE_TYPE_URL@ ==> match prost_any_decode(raw.value@) {
                None => r matches Err(
                    ConsensusStateError::DecodeRawClientState(DecodeVecError::DecodeMessage(_)),
                ),
                Some((iu, _)) => r matches Err(
                    ConsensusStateError::DecodeRawClientState(DecodeVecError::TryFrom(e)),
                ) && (iu.len() == 0 ==> *e is EmptyClientStateResponse) && ((iu.len() != 0 && iu
                    != LCP_CONSENSUS_STATE_TYPE_URL@) ==> (*e matches ConsensusStateError::UnknownConsensusStateType(
                    u,
                ) && u@ == iu)),
            },
        decreases raw.value@.len(),
    {
        proof {
            reveal_strlit("/ibc.lightclients.lcp.v1.ConsensusState");
        }
        assert(LCP_CONSENSUS_STATE_TYPE_URL@.len() > 0);
        if raw.type_url.as_str().is_empty() {
            return Err(ConsensusStateError::EmptyClientStateResponse);
        }
        let url = LCP_CONSENSUS_STATE_TYPE_URL.to_owned();
        if raw.type_url == url {
            match decode_any(raw.value.as_slice()) {
                Err(e) => Err(ConsensusStateError::DecodeRawClientState(DecodeVecError::DecodeMessage(e))),
                Ok((inner_url, inner_value)) => {
                    let inner = Any { type_url: inner_url, value: inner_value };
                    if inner.type_url.as_str().is_empty() {
                        return Err(
                            ConsensusStateError::DecodeRawClientState(
                                DecodeVecError::TryFrom(Box::new(ConsensusStateError::EmptyClientStateResponse)),
                            ),
                        );
                    }
                    match ConsensusState::try_from_any(inner) {
                        Ok(cs) => Ok(cs),
                        Err(e) => Err(ConsensusStateError::DecodeRawClientState(DecodeVecError::TryFrom(Box::new(e)))),
                    }
                },
            }
        } else {
            Err(ConsensusStateError::UnknownConsensusStateType(raw.type_url))
        }
    }
}

impl PartialEq for ConsensusState {
    /// The same state id, byte for byte, and the same timestamp.
    fn eq(&self, other: &ConsensusState) -> (r: bool) {
        let mut i: usize = 0;
        while i < STATE_ID_LEN
            invariant
                i <= STATE_ID_LEN,
                self.state_id@.len() == STATE_ID_LEN,
                other.state_id@.len() == STATE_ID_LEN,
                forall|j: int| 0 <= j < i ==> self.state_id@[j] == other.state_id@[j],
            decreases STATE_ID_LEN - i,
        {
            if self.state_id[i] != other.state_id[i] {
                return false;
            }
            i += 1;
        }
        assert(self.state_id@ =~= other.state_id@);
        self.timestamp == other.timestamp
    }
}

impl vstd::std_specs::cmp::PartialEqSpecImpl for ConsensusState {
    open spec fn obeys_eq_spec() -> bool {
        true
    }

    open spec fn eq_spec(&self, other: &ConsensusState) -> bool {
        self@ == other@
    }
}

impl Default for ConsensusState {
    /// A zero state id and timestamp 0: the empty consensus state.
    fn default() -> (cs: ConsensusState)
        ensures
            spec_is_empty(cs@),
            cs.state_id@.len() == STATE_ID_LEN,
    {
        let cs = ConsensusState { state_id: [0u8; 32], timestamp: 0 };
        assert(cs.state_id@.len() == STATE_ID_LEN);
        cs
    }
}

} // verus!
