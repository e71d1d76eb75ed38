//! The calls into ibc (0.15, with its mock client) that the mock light client
//! makes: reading client states, consensus states and headers out of an
//! `Any`, and packing the mock client's new states into one.

use vstd::prelude::*;
use crate::ibc_types::{Any, Height, Timestamp};
use crate::proto::{delimited_field, uint64_field};
use ibc::mock::client_state::{MockClientState as IbcMockClientState, MockConsensusState as IbcMockConsensusState};
use ibc::mock::header::MockHeader as IbcMockHeader;
use ibc_proto::google::protobuf::Any as ProtoAny;

verus! {

/// The type URL of the mock client's client state.
pub const MOCK_CLIENT_STATE_TYPE_URL: &'static str = "/ibc.mock.ClientState";

/// The type URL of the mock client's consensus state.
pub const MOCK_CONSENSUS_STATE_TYPE_URL: &'static str = "/ibc.mock.ConsensusState";

/// The type URL of a Tendermint client state.
pub const TENDERMINT_CLIENT_STATE_TYPE_URL: &'static str = "/ibc.lightclients.tendermint.v1.ClientState";

/// The type URL of a Tendermint header.
pub const TENDERMINT_HEADER_TYPE_URL: &'static str = "/ibc.lightclients.tendermint.v1.Header";

/// The identifier of the mock client type.
pub const MOCK_CLIENT_TYPE: &'static str = "9999-mock";

/// What prost's decoding of `value` as an `ibc.mock.ClientState` gives:
/// `None` where it fails, else whether the message holds a header.
pub uninterp spec fn ibc_raw_mock_client_state_has_header(value: Seq<u8>) -> Option<bool>;

/// What `AnyClientState::try_from` makes of an `Any`: the latest height of a
/// mock client state, `None` for a client state of another kind, or an
/// error.
pub uninterp spec fn ibc_client_state_from_any(type_url: Seq<char>, value: Seq<u8>) -> Result<
    Option<Height>,
    (),
>;

/// What `AnyConsensusState::try_from` makes of an `Any`: the timestamp of a
/// mock consensus state, `None` for a consensus state of another kind, or an
/// error.
pub uninterp spec fn ibc_consensus_state_from_any(type_url: Seq<char>, value: Seq<u8>) -> Result<
    Option<u64>,
    (),
>;

/// What `AnyHeader::try_from` makes of an `Any`: the height and timestamp of
/// a mock header, `None` for a header of another kind, or an error.
pub uninterp spec fn ibc_header_from_any(type_url: Seq<char>, value: Seq<u8>) -> Result<
    Option<(Height, u64)>,
    (),
>;

/// The protobuf bytes of an `ibc.core.client.v1.Height`
/// (`uint64 revision_number = 1; uint64 revision_height = 2;`).
pub open spec fn height_message_bytes(height: Height) -> Seq<u8> {
    uint64_field(0x08, height.revision_number) + uint64_field(0x10, height.revision_height)
}

/// The protobuf bytes of an `ibc.mock.Header`
/// (`Height height = 1; uint64 timestamp = 2;`), its height always present.
pub open spec fn mock_header_message_bytes(height: Height, timestamp: u64) -> Seq<u8> {
    delimited_field(0x0a, height_message_bytes(height)) + uint64_field(0x10, timestamp)
}

/// The protobuf bytes of an `ibc.mock.ClientState` or
/// `ibc.mock.ConsensusState` (`Header header = 1;`) with the header present.
pub open spec fn mock_state_message_bytes(height: Height, timestamp: u64) -> Seq<u8> {
    delimited_field(0x0a, mock_header_message_bytes(height, timestamp))
}

/// What ibc reads out of a mock client state at this height.
pub open spec fn mock_client_state_read(height: Height) -> Result<Option<Height>, ()> {
    Ok(Some(height))
}

/// What ibc reads out of a mock consensus state with this timestamp.
pub open spec fn mock_consensus_state_read(timestamp: u64) -> Result<Option<u64>, ()> {
    Ok(Some(timestamp))
}

/// The result of a trusted ibc call with its error text dropped: ibc's error
/// texts pass through a report that may append a backtrace, so only whether
/// the call failed is a function of its arguments.
pub open spec fn reported<T>(r: Result<T, String>) -> Result<T, ()> {
    match r {
        Ok(v) => Ok(v),
        Err(_) => Err(()),
    }
}

/// Whether ibc would panic decoding `value` under `type_url` as a client
/// state: `MockClientState::try_from` unwraps the header of the raw message.
pub open spec fn client_state_decoding_panics(type_url: Seq<char>, value: Seq<u8>) -> bool {
    type_url == MOCK_CLIENT_STATE_TYPE_URL@ && ibc_raw_mock_client_state_has_header(value) == Some(
        false,
    )
}

/// The client states that `client_state_from_any` takes: not a Tendermint
/// one (whose trusting period ibc-proto negates, overflowing on
/// `i64::MIN` seconds), nor a mock one without a header.
pub open spec fn client_state_decodable(type_url: Seq<char>, value: Seq<u8>) -> bool {
    type_url != TENDERMINT_CLIENT_STATE_TYPE_URL@ && !client_state_decoding_panics(type_url, value)
}

/// prost's `Message::decode` of `value` as `ibc_proto::ibc::mock::ClientState`:
/// `None` where decoding fails, else whether the message has a header.
#[verifier::external_body]
pub(crate) fn raw_mock_client_state_has_header(value: &[u8]) -> (r: Option<bool>)
    ensures
        r == ibc_raw_mock_client_state_has_header(value@),
{
    match <ibc_proto::ibc::mock::ClientState as prost::Message>::decode(value) {
        Ok(raw) => Some(raw.header.is_some()),
        Err(_) => None,
    }
}

/// ibc's `AnyClientState::try_from` on the `Any` of `type_url` and `value`:
/// the latest height of a mock client state, `None` for a client state of
/// another kind, or ibc's error, whose text is not stated (it may carry a
/// backtrace). Left out: Tendermint client states, and mock ones without a
/// header, on some of which ibc panics.
#[verifier::external_body]
pub(crate) fn client_state_from_any(type_url: &str, value: &[u8]) -> (r: Result<Option<Height>, String>)
    requires
        client_state_decodable(type_url@, value@),
    ensures
        reported(r) == ibc_client_state_from_any(type_url@, value@),
{
    let any = ProtoAny { type_url: type_url.to_string(), value: value.to_vec() };
    match ibc::core::ics02_client::client_state::AnyClientState::try_from(any) {
        Ok(ibc::core::ics02_client::client_state::AnyClientState::Mock(s)) => Ok(Some(Height {
            revision_number: s.header.height.revision_number,
            revision_height: s.header.height.revision_height,
        })),
        Ok(_) => Ok(None),
        Err(e) => Err(e.to_string()),
    }
}

/// ibc's `AnyConsensusState::try_from` on the `Any` of `type_url` and
/// `value`: the timestamp (in nanoseconds) of a mock consensus state, `None`
/// for a Tendermint one, or ibc's error, whose text is not stated.
#[verifier::external_body]
pub(crate) fn consensus_state_from_any(type_url: &str, value: &[u8]) -> (r: Result<Option<u64>, String>)
    ensures
        reported(r) == ibc_consensus_state_from_any(type_url@, value@),
{
    let any = ProtoAny { type_url: type_url.to_string(), value: value.to_vec() };
    match ibc::core::ics02_client::client_consensus::AnyConsensusState::try_from(any) {
        Ok(ibc::core::ics02_client::client_consensus::AnyConsensusState::Mock(s)) => Ok(Some(s.header.timestamp.nanoseconds())),
        Ok(_) => Ok(None),
        Err(e) => Err(e.to_string()),
    }
}

/// ibc's `AnyHeader::try_from` on the `Any` of `type_url` and `value`: the
/// height and timestamp (in nanoseconds) of a mock header, `None` for a
/// header of another kind, or ibc's error, whose text is not stated. Left
/// out: Tendermint headers, whose decoding panics in tendermint's
/// `validator::Set::new` when the voting powers of a validator set add up
/// past `i64::MAX`.
#[verifier::external_body]
pub(crate) fn header_from_any(type_url: &str, value: &[u8]) -> (r: Result<Option<(Height, u64)>, String>)
    requires
        type_url@ != TENDERMINT_HEADER_TYPE_URL@,
    ensures
        reported(r) == ibc_header_from_any(type_url@, value@),
{
    let any = ProtoAny { type_url: type_url.to_string(), value: value.to_vec() };
    match ibc::core::ics02_client::header::AnyHeader::try_from(any) {
        Ok(ibc::core::ics02_client::header::AnyHeader::Mock(h)) => Ok(Some((Height {
            revision_number: h.height.revision_number,
            revision_height: h.height.revision_height,
        }, h.timestamp.nanoseconds()))),
        Ok(_) => Ok(None),
        Err(e) => Err(e.to_string()),
    }
}

/// ibc's `Any::from(AnyClientState::Mock(MockClientState::new(header)))` for
/// the mock header of the given height and timestamp: an `Any` under
/// `/ibc.mock.ClientState` whose value is the raw message with the header
/// present (its height, and the timestamp in nanoseconds). ibc reads it back
/// (`Timestamp::from_nanoseconds` undoes `nanoseconds`) as a mock client
/// state with a header, at the given height.
#[verifier::external_body]
pub(crate) fn mock_client_state_any(height: Height, timestamp: Timestamp) -> (any: Any)
    ensures
        any.type_url@ == MOCK_CLIENT_STATE_TYPE_URL@,
        any.value@ == mock_state_message_bytes(height, timestamp.nanoseconds),
        ibc_raw_mock_client_state_has_header(any.value@) == Some(true),
        ibc_client_state_from_any(any.type_url@, any.value@) == mock_client_state_read(height),
{
    let header = IbcMockHeader {
        height: ibc::Height::new(height.revision_number, height.revision_height),
        timestamp: ibc::timestamp::Timestamp::from_nanoseconds(timestamp.nanoseconds).unwrap(),
    };
    let any: ProtoAny = ibc::core::ics02_client::client_state::AnyClientState::Mock(IbcMockClientState::new(header)).into();
    Any { type_url: any.type_url, value: any.value }
}

/// ibc's `Any::from(AnyConsensusState::Mock(MockConsensusState::new(header)))`
/// for the mock header of the given height and timestamp: an `Any` under
/// `/ibc.mock.ConsensusState` whose value is the raw message with the header
/// present. ibc reads it back as a mock consensus state with the given
/// timestamp.
#[verifier::external_body]
pub(crate) fn mock_consensus_state_any(height: Height, timestamp: Timestamp) -> (any: Any)
    ensures
        any.type_url@ == MOCK_CONSENSUS_STATE_TYPE_URL@,
        any.value@ == mock_state_message_bytes(height, timestamp.nanoseconds),
        ibc_consensus_state_from_any(any.type_url@, any.value@) == mock_consensus_state_read(
            timestamp.nanoseconds,
        ),
{
    let header = IbcMockHeader {
        height: ibc::Height::new(height.revision_number, height.revision_height),
        timestamp: ibc::timestamp::Timestamp::from_nanoseconds(timestamp.nanoseconds).unwrap(),
    };
    let any: ProtoAny = ibc::core::ics02_client::client_consensus::AnyConsensusState::Mock(IbcMockConsensusState::new(header)).into();
    Any { type_url: any.type_url, value: any.value }
}

/// ibc's `ClientType::Mock.as_str()`: the identifier `9999-mock`.
#[verifier::external_body]
pub(crate) fn mock_client_type_str() -> (s: String)
    ensures
        s@ == MOCK_CLIENT_TYPE@,
{
    ibc::core::ics02_client::client_type::ClientType::Mock.as_str().to_owned()
}

} // verus!
