//! The mock light client: how it creates a client from a client state and a
//! consensus state, and how it updates one with a new header.
//!
//! Updating reads the host's client store between its decisions, each read
//! depending on what came before; so the update runs in steps, and the host
//! performs one read (or computes the state ids, which its commitment scheme
//! defines) between two of them:
//! `update_client_begin` (the header read out of its `Any`, before any read
//! of the store), `update_client_read_client_type` (the client type read),
//! `update_client_read_client_state` (the client state read),
//! `update_client_check_header` (the consensus state at the client's latest
//! height looked up), `update_client_finish` (the state ids computed).
//! `update_client_outcome` is the whole update.

use vstd::prelude::*;
use crate::ibc_client::{
    client_state_decodable, client_state_from_any, consensus_state_from_any,
    header_from_any, ibc_client_state_from_any, ibc_consensus_state_from_any,
    ibc_header_from_any, mock_client_state_any, mock_client_type_str, mock_consensus_state_any,
    mock_state_message_bytes, ibc_raw_mock_client_state_has_header,
    raw_mock_client_state_has_header, reported, MOCK_CLIENT_STATE_TYPE_URL, MOCK_CLIENT_TYPE,
    MOCK_CONSENSUS_STATE_TYPE_URL, TENDERMINT_CLIENT_STATE_TYPE_URL, TENDERMINT_HEADER_TYPE_URL,
};
use crate::ibc_types::{height_lt, Any, ClientType, Height, StateId, Timestamp};

verus! {

/// The mock light client.
#[derive(Default)]
pub struct MockLightClient;

/// A header of the mock client: the height and time it stands for.
#[derive(Clone, Copy, Debug, PartialEq, Eq, Structural)]
pub struct MockHeader {
    pub height: Height,
    pub timestamp: Timestamp,
}

/// A client state of the mock client: the header it was made from (its
/// height is the client's latest height) and the height at which the client
/// was frozen, if it was.
#[derive(Clone, Copy, Debug, PartialEq, Eq, Structural)]
pub struct MockClientState {
    pub header: MockHeader,
    pub frozen_height: Option<Height>,
}

/// A consensus state of the mock client: the header it was made from.
#[derive(Clone, Copy, Debug, PartialEq, Eq, Structural)]
pub struct MockConsensusState {
    pub header: MockHeader,
}

/// What the update reads of a client state in the host's store.
#[derive(Clone, Copy, Debug, PartialEq, Eq, Structural)]
pub struct ClientStateInfo {
    pub client_type: ClientType,
    pub latest_height: Height,
    pub frozen_height: Option<Height>,
}

/// Why checking a header against a client state failed.
#[derive(Clone, Copy, Debug, PartialEq, Eq, Structural)]
pub enum HeaderError {
    /// The client state or the header is not of the client's type.
    ClientArgsTypeMismatch(ClientType),
    /// The header is not above the client's latest height.
    LowHeaderHeight { header_height: Height, latest_height: Height },
}

/// The errors of ICS-02 (client semantics) that the mock client meets.
pub enum Ics02Error {
    /// An error that ibc or the host's client store reported, by its text.
    Reported(String),
    /// The client is frozen.
    ClientFrozen { client_id: String },
    /// The host holds no consensus state of the client at this height.
    ConsensusStateNotFound { client_id: String, height: Height },
    /// The header did not pass the client's check.
    HeaderVerificationFailure { reason: HeaderError },
}

/// The errors of the mock light client.
pub enum MockLcError {
    /// The commitment scheme failed to compute a state id.
    Commitment(String),
    /// A client state, consensus state or header of another client type.
    UnexpectedClientType(ClientType),
    Ics02(Ics02Error),
}

/// The parameters under which a commitment was validated; the mock client
/// has none.
#[derive(Clone, Copy, Debug, PartialEq, Eq, Structural)]
pub enum ValidationParams {
    Empty,
}

/// What a client update commits to: the states before and after, by id and
/// height, the new client state, and the time of the update.
pub struct UpdateClientCommitment {
    pub prev_state_id: Option<StateId>,
    pub new_state_id: StateId,
    pub new_state: Option<Any>,
    pub prev_height: Option<Height>,
    pub new_height: Height,
    pub timestamp: Timestamp,
    pub validation_params: ValidationParams,
}

/// The outcome of creating a client.
pub struct CreateClientResult {
    pub height: Height,
    pub commitment: UpdateClientCommitment,
    pub prove: bool,
}

/// The outcome of updating a client.
pub struct UpdateClientResult {
    pub new_any_client_state: Any,
    pub new_any_consensus_state: Any,
    pub height: Height,
    pub commitment: UpdateClientCommitment,
    pub prove: bool,
}

/// An update that has passed its first step: the client, its header, and
/// what was read of it.
pub struct UpdateCheck {
    pub client_id: String,
    pub header: MockHeader,
    /// The client's type, as the host's store records it.
    pub client_type: ClientType,
    pub client_state: ClientStateInfo,
}

/// The new states that a checked header gives the client.
pub struct UpdatedStates {
    pub client_state: MockClientState,
    pub consensus_state: MockConsensusState,
}

/// A mock header from what ibc read of one.
pub open spec fn mock_header_of(h: (Height, u64)) -> MockHeader {
    MockHeader { height: h.0, timestamp: Timestamp { nanoseconds: h.1 } }
}

/// The outcome of creating a client from a state id (or the commitment
/// scheme's error), the client state's `Any`, and what ibc read out of the
/// client state and the consensus state. The state id is checked first, then
/// the client state, then the consensus state; each must be the mock
/// client's.
pub open spec fn spec_create_client(
    state_id: Result<StateId, String>,
    any_client_state: Any,
    client_state: Result<Option<Height>, String>,
    consensus_state: Result<Option<u64>, String>,
) -> Result<CreateClientResult, MockLcError> {
    match state_id {
        Err(e) => Err(MockLcError::Commitment(e)),
        Ok(id) => match client_state {
            Err(e) => Err(MockLcError::Ics02(Ics02Error::Reported(e))),
            Ok(None) => Err(MockLcError::UnexpectedClientType(ClientType::Tendermint)),
            Ok(Some(height)) => match consensus_state {
                Err(e) => Err(MockLcError::Ics02(Ics02Error::Reported(e))),
                Ok(None) => Err(MockLcError::UnexpectedClientType(ClientType::Tendermint)),
                Ok(Some(t)) => Ok(
                    CreateClientResult {
                        height,
                        commitment: UpdateClientCommitment {
                            prev_state_id: None,
                            new_state_id: id,
                            new_state: Some(any_client_state),
                            prev_height: None,
                            new_height: height,
                            timestamp: Timestamp { nanoseconds: t },
                            validation_params: ValidationParams::Empty,
                        },
                        prove: false,
                    },
                ),
            },
        },
    }
}

/// The first step of an update, from what ibc read out of the header's
/// `Any`: it must be a mock header.
pub open spec fn spec_update_header(header: Result<Option<(Height, u64)>, String>) -> Result<
    MockHeader,
    MockLcError,
> {
    match header {
        Err(e) => Err(MockLcError::Ics02(Ics02Error::Reported(e))),
        Ok(None) => Err(MockLcError::UnexpectedClientType(ClientType::Tendermint)),
        Ok(Some(h)) => Ok(mock_header_of(h)),
    }
}

/// The second step of an update, from the client type that the host's store
/// gave (or its error).
pub open spec fn spec_update_read_client_type(client_type: Result<ClientType, Ics02Error>) -> Result<
    ClientType,
    MockLcError,
> {
    match client_type {
        Err(e) => Err(MockLcError::Ics02(e)),
        Ok(ct) => Ok(ct),
    }
}

/// The third step of an update, from the client state that the host's store
/// gave (or its error): the read must have succeeded and the client must
/// not be frozen.
pub open spec fn spec_update_read_client_state(
    client_id: String,
    header: MockHeader,
    client_type: ClientType,
    client_state: Result<ClientStateInfo, Ics02Error>,
) -> Result<UpdateCheck, MockLcError> {
    match client_state {
        Err(e) => Err(MockLcError::Ics02(e)),
        Ok(cs) => if cs.frozen_height is Some {
            Err(MockLcError::Ics02(Ics02Error::ClientFrozen { client_id }))
        } else {
            Ok(UpdateCheck { client_id, header, client_type, client_state: cs })
        },
    }
}

/// How ibc's client of the given type checks a mock header against a client
/// state: client state and header must both be the mock client's, and the
/// header must be above the client's latest height; the new client and
/// consensus states are made from the header.
pub open spec fn spec_check_header(
    client_type: ClientType,
    client_state: ClientStateInfo,
    header: MockHeader,
) -> Result<(MockClientState, MockConsensusState), HeaderError> {
    match client_type {
        ClientType::Tendermint => Err(HeaderError::ClientArgsTypeMismatch(ClientType::Tendermint)),
        ClientType::Mock => if client_state.client_type != ClientType::Mock {
            Err(HeaderError::ClientArgsTypeMismatch(ClientType::Mock))
        } else if !height_lt(client_state.latest_height, header.height) {
            Err(
                HeaderError::LowHeaderHeight {
                    header_height: header.height,
                    latest_height: client_state.latest_height,
                },
            )
        } else {
            Ok((MockClientState { header, frozen_height: None }, MockConsensusState { header }))
        },
    }
}

/// The fourth step of an update, from whether the host holds a consensus
/// state of the client at its latest height.
pub open spec fn spec_update_client_check_header(check: UpdateCheck, consensus_state_found: bool) -> Result<
    UpdatedStates,
    MockLcError,
> {
    if !consensus_state_found {
        Err(
            MockLcError::Ics02(
                Ics02Error::ConsensusStateNotFound {
                    client_id: check.client_id,
                    height: check.client_state.latest_height,
                },
            ),
        )
    } else {
        match spec_check_header(check.client_type, check.client_state, check.header) {
            Ok((client_state, consensus_state)) => Ok(UpdatedStates { client_state, consensus_state }),
            Err(reason) => Err(
                MockLcError::Ics02(Ics02Error::HeaderVerificationFailure { reason }),
            ),
        }
    }
}

/// `r` is the outcome of the last step of an update: the state ids (or the
/// commitment scheme's errors, the previous one first), then the client's
/// new states packed into `Any`s by ibc, the result committing to the move
/// from the client's latest height to the header's.
pub open spec fn update_client_finished(
    r: Result<UpdateClientResult, MockLcError>,
    check: UpdateCheck,
    new_states: UpdatedStates,
    prev_state_id: Result<StateId, String>,
    new_state_id: Result<StateId, String>,
) -> bool {
    match prev_state_id {
        Err(e) => r == Err::<UpdateClientResult, MockLcError>(MockLcError::Commitment(e)),
        Ok(prev) => match new_state_id {
            Err(e) => r == Err::<UpdateClientResult, MockLcError>(MockLcError::Commitment(e)),
            Ok(new) => {
                let h = new_states.client_state.header;
                let c = new_states.consensus_state.header;
                &&& r matches Ok(u)
                &&& u.new_any_client_state@ == (
                    MOCK_CLIENT_STATE_TYPE_URL@,
                    mock_state_message_bytes(h.height, h.timestamp.nanoseconds),
                )
                &&& u.new_any_consensus_state@ == (
                    MOCK_CONSENSUS_STATE_TYPE_URL@,
                    mock_state_message_bytes(c.height, c.timestamp.nanoseconds),
                )
                &&& u.height == check.header.height
                &&& u.commitment.prev_state_id == Some(prev)
                &&& u.commitment.new_state_id == new
                &&& u.commitment.new_state matches Some(a)
                &&& a@ == u.new_any_client_state@
                &&& u.commitment.prev_height == Some(check.client_state.latest_height)
                &&& u.commitment.new_height == check.header.height
                &&& u.commitment.timestamp == check.header.timestamp
                &&& u.commitment.validation_params == ValidationParams::Empty
                &&& u.prove
                &&& ibc_raw_mock_client_state_has_header(u.new_any_client_state.value@) == Some(true)
                &&& ibc_client_state_from_any(
                    u.new_any_client_state.type_url@,
                    u.new_any_client_state.value@,
                ) == Ok::<Option<Height>, ()>(Some(h.height))
                &&& ibc_consensus_state_from_any(
                    u.new_any_consensus_state.type_url@,
                    u.new_any_consensus_state.value@,
                ) == Ok::<Option<u64>, ()>(Some(c.timestamp.nanoseconds))
            },
        },
    }
}

/// A header that passes the mock client's check raises the client's latest
/// height, and both new states are made from the header.
pub proof fn lemma_check_header_raises_height(
    client_type: ClientType,
    client_state: ClientStateInfo,
    header: MockHeader,
)
    ensures
        spec_check_header(client_type, client_state, header) matches Ok((cs, cons)) ==> {
            &&& height_lt(client_state.latest_height, cs.header.height)
            &&& cs.header == header
            &&& cs.frozen_height is None
            &&& cons.header == header
        },
        spec_check_header(client_type, client_state, header) is Ok <==> (client_type
            == ClientType::Mock && client_state.client_type == ClientType::Mock && height_lt(
            client_state.latest_height,
            header.height,
        )),
{
}

/// `r` is an outcome of a whole update of the client `client_id`, from what
/// ibc read out of the header, the host's reads of the client type and the
/// client state, whether the host holds a consensus state at the client's
/// latest height, and the state ids: the steps in their order, the first
/// that fails deciding the error.
pub open spec fn update_client_outcome(
    r: Result<UpdateClientResult, MockLcError>,
    client_id: String,
    header: Result<Option<(Height, u64)>, String>,
    client_type: Result<ClientType, Ics02Error>,
    client_state: Result<ClientStateInfo, Ics02Error>,
    consensus_state_found: bool,
    prev_state_id: Result<StateId, String>,
    new_state_id: Result<StateId, String>,
) -> bool {
    match spec_update_header(header) {
        Err(e) => r == Err::<UpdateClientResult, MockLcError>(e),
        Ok(h) => match spec_update_read_client_type(client_type) {
            Err(e) => r == Err::<UpdateClientResult, MockLcError>(e),
            Ok(ct) => match spec_update_read_client_state(client_id, h, ct, client_state) {
                Err(e) => r == Err::<UpdateClientResult, MockLcError>(e),
                Ok(check) => match spec_update_client_check_header(check, consensus_state_found) {
                    Err(e) => r == Err::<UpdateClientResult, MockLcError>(e),
                    Ok(states) => update_client_finished(
                        r,
                        check,
                        states,
                        prev_state_id,
                        new_state_id,
                    ),
                },
            },
        },
    }
}

/// `r` is an outcome of creating a client from the state id (or the
/// commitment scheme's error) and the `Any`s of a client state and a
/// consensus state: `spec_create_client` of what ibc read out of the client
/// state and (once that was a mock client state) of the consensus state,
/// the text of ibc's errors not being fixed.
pub open spec fn create_client_outcome(
    r: Result<CreateClientResult, MockLcError>,
    state_id: Result<StateId, String>,
    any_client_state: Any,
    any_consensus_state: Any,
) -> bool {
    exists|cs: Result<Option<Height>, String>, cons: Result<Option<u64>, String>|
        {
            &&& state_id is Ok ==> reported(cs) == ibc_client_state_from_any(
                any_client_state.type_url@,
                any_client_state.value@,
            )
            &&& (state_id is Ok && cs matches Ok(Some(_))) ==> reported(cons)
                == ibc_consensus_state_from_any(
                any_consensus_state.type_url@,
                any_consensus_state.value@,
            )
            &&& r == spec_create_client(state_id, any_client_state, cs, cons)
        }
}

/// The latest height of a client, from its client state in the host's store
/// (or the store's error).
pub open spec fn spec_latest_height(client_state: Result<ClientStateInfo, Ics02Error>) -> Result<
    Height,
    MockLcError,
> {
    match client_state {
        Ok(cs) => Ok(cs.latest_height),
        Err(e) => Err(MockLcError::Ics02(e)),
    }
}

/// A commitment whose new client state ibc reads back as a mock client
/// state at the commitment's new height.
pub open spec fn commits_to_readable_state(c: UpdateClientCommitment) -> bool {
    &&& c.new_state matches Some(a)
    &&& ibc_client_state_from_any(a.type_url@, a.value@) == Ok::<Option<Height>, ()>(
        Some(c.new_height),
    )
}

/// An `Any` by its view: its type URL and value.
pub type AnyView = (Seq<char>, Seq<u8>);

/// A commitment whose state id is what the commitment scheme `scheme` gives
/// its new client state beside the consensus state `cons`.
pub open spec fn commits_state_id(
    c: UpdateClientCommitment,
    cons: AnyView,
    scheme: spec_fn(AnyView, AnyView) -> StateId,
) -> bool {
    &&& c.new_state matches Some(a)
    &&& c.new_state_id == scheme(a@, cons)
}

/// Two outcomes of creating a client that agree in everything but the text
/// of ibc's errors: the same result, or the same error.
pub open spec fn same_create_outcome(
    r1: Result<CreateClientResult, MockLcError>,
    r2: Result<CreateClientResult, MockLcError>,
) -> bool {
    match r1 {
        Ok(c) => r2 == Ok::<CreateClientResult, MockLcError>(c),
        Err(MockLcError::Commitment(e)) => r2 == Err::<CreateClientResult, MockLcError>(
            MockLcError::Commitment(e),
        ),
        Err(MockLcError::UnexpectedClientType(t)) => r2 == Err::<CreateClientResult, MockLcError>(
            MockLcError::UnexpectedClientType(t),
        ),
        Err(MockLcError::Ics02(Ics02Error::Reported(_))) => r2 matches Err(
            MockLcError::Ics02(Ics02Error::Reported(_)),
        ),
        Err(_) => false,
    }
}

/// Creating a client commits to the client state it was given, which ibc
/// reads back at the height that the creation reports; where the host's
/// commitment scheme computed the state id of the two states it was given,
/// the commitment's state id is that of its client state and the consensus
/// state beside it.
pub proof fn lemma_create_commits_to_readable_state(
    c: CreateClientResult,
    state_id: Result<StateId, String>,
    any_client_state: Any,
    any_consensus_state: Any,
    scheme: spec_fn(AnyView, AnyView) -> StateId,
)
    requires
        create_client_outcome(Ok(c), state_id, any_client_state, any_consensus_state),
    ensures
        commits_to_readable_state(c.commitment),
        state_id == Ok::<StateId, String>(scheme(any_client_state@, any_consensus_state@))
            ==> commits_state_id(c.commitment, any_consensus_state@, scheme),
        c.commitment.new_state == Some(any_client_state),
        c.height == c.commitment.new_height,
        c.commitment.prev_state_id is None,
        c.commitment.prev_height is None,
{
    let (cs, cons) = choose|cs: Result<Option<Height>, String>, cons: Result<Option<u64>, String>|
        {
            &&& state_id is Ok ==> reported(cs) == ibc_client_state_from_any(
                any_client_state.type_url@,
                any_client_state.value@,
            )
            &&& (state_id is Ok && cs matches Ok(Some(_))) ==> reported(cons)
                == ibc_consensus_state_from_any(
                any_consensus_state.type_url@,
                any_consensus_state.value@,
            )
            &&& spec_create_client(state_id, any_client_state, cs, cons) == Ok::<CreateClientResult, MockLcError>(c)
        };
}

/// An update commits to the client state it made, which ibc reads back at
/// the height that the update reports; where the host's commitment scheme
/// computed the new state id of the two states the update made, the
/// commitment's state id is that of its client state and the new consensus
/// state.
pub proof fn lemma_update_commits_to_readable_state(
    u: UpdateClientResult,
    client_id: String,
    header: Result<Option<(Height, u64)>, String>,
    client_type: Result<ClientType, Ics02Error>,
    client_state: Result<ClientStateInfo, Ics02Error>,
    consensus_state_found: bool,
    prev_state_id: Result<StateId, String>,
    new_state_id: Result<StateId, String>,
    scheme: spec_fn(AnyView, AnyView) -> StateId,
)
    requires
        update_client_outcome(
            Ok(u),
            client_id,
            header,
            client_type,
            client_state,
            consensus_state_found,
            prev_state_id,
            new_state_id,
        ),
    ensures
        commits_to_readable_state(u.commitment),
        u.height == u.commitment.new_height,
        u.commitment.new_state matches Some(a) && a@ == u.new_any_client_state@,
        new_state_id == Ok::<StateId, String>(
            scheme(u.new_any_client_state@, u.new_any_consensus_state@),
        ) ==> commits_state_id(u.commitment, u.new_any_consensus_state@, scheme),
{
}

/// Each commitment continues from the state that the one before produced:
/// once the host holds the client state that a create or an update
/// committed to (read through ibc) and the consensus state beside it, the
/// client's latest height is the height that commitment reached, and a
/// successful update from there starts at that height and, where the host
/// computes state ids with the same scheme as before, at that commitment's
/// state id.
pub proof fn lemma_next_update_continues(
    prev: UpdateClientCommitment,
    stored_consensus_state: AnyView,
    scheme: spec_fn(AnyView, AnyView) -> StateId,
    r: Result<UpdateClientResult, MockLcError>,
    client_id: String,
    header: Result<Option<(Height, u64)>, String>,
    client_type: Result<ClientType, Ics02Error>,
    stored: ClientStateInfo,
    consensus_state_found: bool,
    prev_state_id: Result<StateId, String>,
    new_state_id: Result<StateId, String>,
)
    requires
        commits_to_readable_state(prev),
        commits_state_id(prev, stored_consensus_state, scheme),
        prev_state_id == Ok::<StateId, String>(
            scheme(prev.new_state->Some_0@, stored_consensus_state),
        ),
        ibc_client_state_from_any(prev.new_state->Some_0.type_url@, prev.new_state->Some_0.value@)
            == Ok::<Option<Height>, ()>(Some(stored.latest_height)),
        update_client_outcome(
            r,
            client_id,
            header,
            client_type,
            Ok(stored),
            consensus_state_found,
            prev_state_id,
            new_state_id,
        ),
    ensures
        spec_latest_height(Ok(stored)) == Ok::<Height, MockLcError>(prev.new_height),
        r matches Ok(u) ==> u.commitment.prev_height == Some(prev.new_height),
        r matches Ok(u) ==> u.commitment.prev_state_id == Some(prev.new_state_id),
{
}

/// Creating a client depends on its arguments alone (it reads no store):
/// two creations from the same state id and states give the same outcome,
/// but for the text of an error that ibc reported.
pub proof fn lemma_create_client_deterministic(
    r1: Result<CreateClientResult, MockLcError>,
    r2: Result<CreateClientResult, MockLcError>,
    state_id: Result<StateId, String>,
    any_client_state: Any,
    any_consensus_state: Any,
)
    requires
        create_client_outcome(r1, state_id, any_client_state, any_consensus_state),
        create_client_outcome(r2, state_id, any_client_state, any_consensus_state),
    ensures
        same_create_outcome(r1, r2),
        r1 is Ok <==> r2 is Ok,
        r1 is Ok ==> r1 == r2,
{
    let (cs1, cons1) = choose|cs: Result<Option<Height>, String>, cons: Result<Option<u64>, String>|
        {
            &&& state_id is Ok ==> reported(cs) == ibc_client_state_from_any(
                any_client_state.type_url@,
                any_client_state.value@,
            )
            &&& (state_id is Ok && cs matches Ok(Some(_))) ==> reported(cons)
                == ibc_consensus_state_from_any(
                any_consensus_state.type_url@,
                any_consensus_state.value@,
            )
            &&& r1 == spec_create_client(state_id, any_client_state, cs, cons)
        };
    let (cs2, cons2) = choose|cs: Result<Option<Height>, String>, cons: Result<Option<u64>, String>|
        {
            &&& state_id is Ok ==> reported(cs) == ibc_client_state_from_any(
                any_client_state.type_url@,
                any_client_state.value@,
            )
            &&& (state_id is Ok && cs matches Ok(Some(_))) ==> reported(cons)
                == ibc_consensus_state_from_any(
                any_consensus_state.type_url@,
                any_consensus_state.value@,
            )
            &&& r2 == spec_create_client(state_id, any_client_state, cs, cons)
        };
    if state_id is Ok {
        assert(reported(cs1) == reported(cs2));
        if cs1 matches Ok(Some(_)) {
            assert(cs1 == cs2);
            assert(reported(cons1) == reported(cons2));
        }
    }
}

/// A successful update took everything from its inputs: the header that ibc
/// read (its height is the new height, its time the commitment's time), a
/// mock client that is not frozen and whose latest height lies below the
/// header's (the commitment's previous height), the consensus state at that
/// height, and both state ids; its new states are the mock states of the
/// header, as ibc encodes them.
pub proof fn lemma_update_success_reads_its_inputs(
    u: UpdateClientResult,
    client_id: String,
    header: Result<Option<(Height, u64)>, String>,
    client_type: Result<ClientType, Ics02Error>,
    client_state: Result<ClientStateInfo, Ics02Error>,
    consensus_state_found: bool,
    prev_state_id: Result<StateId, String>,
    new_state_id: Result<StateId, String>,
)
    requires
        update_client_outcome(
            Ok(u),
            client_id,
            header,
            client_type,
            client_state,
            consensus_state_found,
            prev_state_id,
            new_state_id,
        ),
    ensures
        header == Ok::<Option<(Height, u64)>, String>(
            Some((u.height, u.commitment.timestamp.nanoseconds)),
        ),
        client_type == Ok::<ClientType, Ics02Error>(ClientType::Mock),
        client_state matches Ok(cs) && {
            &&& cs.frozen_height is None
            &&& cs.client_type == ClientType::Mock
            &&& height_lt(cs.latest_height, u.height)
            &&& u.commitment.prev_height == Some(cs.latest_height)
        },
        consensus_state_found,
        u.commitment.prev_state_id matches Some(p) && prev_state_id == Ok::<StateId, String>(p),
        new_state_id == Ok::<StateId, String>(u.commitment.new_state_id),
        u.commitment.new_height == u.height,
        u.new_any_client_state@ == (
            MOCK_CLIENT_STATE_TYPE_URL@,
            mock_state_message_bytes(u.height, u.commitment.timestamp.nanoseconds),
        ),
        u.new_any_consensus_state@ == (
            MOCK_CONSENSUS_STATE_TYPE_URL@,
            mock_state_message_bytes(u.height, u.commitment.timestamp.nanoseconds),
        ),
        u.commitment.new_state matches Some(a) && a@ == u.new_any_client_state@,
        u.prove,
{
}

/// A frozen client takes no update, whatever the header; the update fails
/// with `ClientFrozen` once the header and the client type were read.
pub proof fn lemma_frozen_client_takes_no_update(
    r: Result<UpdateClientResult, MockLcError>,
    client_id: String,
    header: Result<Option<(Height, u64)>, String>,
    client_type: Result<ClientType, Ics02Error>,
    cs: ClientStateInfo,
    consensus_state_found: bool,
    prev_state_id: Result<StateId, String>,
    new_state_id: Result<StateId, String>,
)
    requires
        cs.frozen_height is Some,
        update_client_outcome(
            r,
            client_id,
            header,
            client_type,
            Ok(cs),
            consensus_state_found,
            prev_state_id,
            new_state_id,
        ),
    ensures
        r is Err,
        header matches Ok(Some(_)) && client_type is Ok ==> r == Err::<UpdateClientResult, MockLcError>(
            MockLcError::Ics02(Ics02Error::ClientFrozen { client_id }),
        ),
{
}

/// The header is checked before anything the host's store holds: a header
/// that ibc could not read, or one of another client type, decides the
/// update's error whatever the store gave.
pub proof fn lemma_header_checked_first(
    r: Result<UpdateClientResult, MockLcError>,
    client_id: String,
    header: Result<Option<(Height, u64)>, String>,
    client_type: Result<ClientType, Ics02Error>,
    client_state: Result<ClientStateInfo, Ics02Error>,
    consensus_state_found: bool,
    prev_state_id: Result<StateId, String>,
    new_state_id: Result<StateId, String>,
)
    requires
        update_client_outcome(
            r,
            client_id,
            header,
            client_type,
            client_state,
            consensus_state_found,
            prev_state_id,
            new_state_id,
        ),
    ensures
        header matches Err(e) ==> r == Err::<UpdateClientResult, MockLcError>(
            MockLcError::Ics02(Ics02Error::Reported(e)),
        ),
        header == Ok::<Option<(Height, u64)>, String>(None) ==> r
            == Err::<UpdateClientResult, MockLcError>(
            MockLcError::UnexpectedClientType(ClientType::Tendermint),
        ),
        (header matches Ok(Some(_))) ==> (client_type matches Err(e) ==> r
            == Err::<UpdateClientResult, MockLcError>(MockLcError::Ics02(e))),
{
}

/// A successful creation took its height from a mock client state, its
/// time from a mock consensus state, and its state id from the commitment
/// scheme; a consensus state of another kind, or a client state of another
/// kind, makes it fail.
pub proof fn lemma_create_success_reads_its_inputs(
    r: Result<CreateClientResult, MockLcError>,
    state_id: Result<StateId, String>,
    any_client_state: Any,
    client_state: Result<Option<Height>, String>,
    consensus_state: Result<Option<u64>, String>,
)
    requires
        r == spec_create_client(state_id, any_client_state, client_state, consensus_state),
    ensures
        r matches Ok(c) ==> {
            &&& state_id == Ok::<StateId, String>(c.commitment.new_state_id)
            &&& client_state == Ok::<Option<Height>, String>(Some(c.height))
            &&& consensus_state == Ok::<Option<u64>, String>(
                Some(c.commitment.timestamp.nanoseconds),
            )
            &&& c.commitment.new_height == c.height
            &&& c.commitment.new_state == Some(any_client_state)
        },
        client_state == Ok::<Option<Height>, String>(None) ==> r is Err,
        consensus_state == Ok::<Option<u64>, String>(None) ==> r is Err,
        client_state is Err || consensus_state is Err || state_id is Err ==> r is Err,
        (state_id is Ok && (client_state matches Ok(Some(_))) && (consensus_state matches Ok(
            Some(_),
        ))) ==> r is Ok,
{
}

/// Creating from the `Any`s: a success means ibc read the client state as a
/// mock one at the reported height and the consensus state as a mock one
/// at the commitment's time; if ibc reads the consensus state as one of
/// another kind, creation fails.
pub proof fn lemma_create_from_any_reads_its_inputs(
    r: Result<CreateClientResult, MockLcError>,
    state_id: Result<StateId, String>,
    any_client_state: Any,
    any_consensus_state: Any,
)
    requires
        create_client_outcome(r, state_id, any_client_state, any_consensus_state),
    ensures
        r matches Ok(c) ==> {
            &&& state_id == Ok::<StateId, String>(c.commitment.new_state_id)
            &&& ibc_client_state_from_any(any_client_state.type_url@, any_client_state.value@)
                == Ok::<Option<Height>, ()>(Some(c.height))
            &&& ibc_consensus_state_from_any(
                any_consensus_state.type_url@,
                any_consensus_state.value@,
            ) == Ok::<Option<u64>, ()>(Some(c.commitment.timestamp.nanoseconds))
        },
        ibc_consensus_state_from_any(any_consensus_state.type_url@, any_consensus_state.value@)
            == Ok::<Option<u64>, ()>(None) ==> r is Err,
        ibc_client_state_from_any(any_client_state.type_url@, any_client_state.value@)
            == Ok::<Option<Height>, ()>(None) ==> r is Err,
{
    let (cs, cons) = choose|cs: Result<Option<Height>, String>, cons: Result<Option<u64>, String>|
        {
            &&& state_id is Ok ==> reported(cs) == ibc_client_state_from_any(
                any_client_state.type_url@,
                any_client_state.value@,
            )
            &&& (state_id is Ok && cs matches Ok(Some(_))) ==> reported(cons)
                == ibc_consensus_state_from_any(
                any_consensus_state.type_url@,
                any_consensus_state.value@,
            )
            &&& r == spec_create_client(state_id, any_client_state, cs, cons)
        };
    lemma_create_success_reads_its_inputs(r, state_id, any_client_state, cs, cons);
}

fn clone_any(a: &Any) -> (b: Any)
    ensures
        b@ == a@,
{
    Any { type_url: a.type_url.clone(), value: a.value.clone() }
}

/// What an update commits to is a state from which the mock client can be
/// created again: ibc reads the update's new client state back as a mock
/// client state (one that it decodes without panicking) and its new
/// consensus state as a mock consensus state, so that creating a client
/// from the two, under any state id, starts at the height that the update
/// reached and at the header's time.
pub proof fn lemma_update_result_recreates_client(
    r: Result<UpdateClientResult, MockLcError>,
    check: UpdateCheck,
    new_states: UpdatedStates,
    prev_state_id: Result<StateId, String>,
    new_state_id: Result<StateId, String>,
    state_id: StateId,
    cs: Result<Option<Height>, String>,
    cons: Result<Option<u64>, String>,
)
    requires
        spec_update_client_check_header(check, true) == Ok::<UpdatedStates, MockLcError>(new_states),
        update_client_finished(r, check, new_states, prev_state_id, new_state_id),
        r is Ok,
        reported(cs) == ibc_client_state_from_any(
            r->Ok_0.new_any_client_state.type_url@,
            r->Ok_0.new_any_client_state.value@,
        ),
        reported(cons) == ibc_consensus_state_from_any(
            r->Ok_0.new_any_consensus_state.type_url@,
            r->Ok_0.new_any_consensus_state.value@,
        ),
    ensures
        client_state_decodable(
            r->Ok_0.new_any_client_state.type_url@,
            r->Ok_0.new_any_client_state.value@,
        ),
        spec_create_client(Ok(state_id), r->Ok_0.new_any_client_state, cs, cons) matches Ok(c) && c.height
            == r->Ok_0.commitment.new_height && c.commitment.timestamp == r->Ok_0.commitment.timestamp,
{
    reveal_strlit("/ibc.mock.ClientState");
    reveal_strlit("/ibc.lightclients.tendermint.v1.ClientState");
    assert(MOCK_CLIENT_STATE_TYPE_URL@.len() != TENDERMINT_CLIENT_STATE_TYPE_URL@.len());
}

impl MockLightClient {
    /// The client type that this light client serves: `9999-mock`.
    pub fn client_type(&self) -> (s: String)
        ensures
            s@ == MOCK_CLIENT_TYPE@,
    {
        mock_client_type_str()
    }

    /// Creates a client from what ibc read out of its client state and
    /// consensus state, as `spec_create_client` describes it.
    pub fn create_client_from_parts(
        &self,
        state_id: Result<StateId, String>,
        any_client_state: Any,
        client_state: Result<Option<Height>, String>,
        consensus_state: Result<Option<u64>, String>,
    ) -> (r: Result<CreateClientResult, MockLcError>)
        ensures
            r == spec_create_client(state_id, any_client_state, client_state, consensus_state),
            r matches Ok(c) ==> {
                &&& state_id == Ok::<StateId, String>(c.commitment.new_state_id)
                &&& client_state == Ok::<Option<Height>, String>(Some(c.height))
                &&& consensus_state == Ok::<Option<u64>, String>(
                    Some(c.commitment.timestamp.nanoseconds),
                )
                &&& c.commitment.new_height == c.height
                &&& c.commitment.new_state == Some(any_client_state)
                &&& c.commitment.prev_state_id is None
                &&& c.commitment.prev_height is None
                &&& !c.prove
            },
            state_id matches Err(e) ==> r == Err::<CreateClientResult, MockLcError>(
                MockLcError::Commitment(e),
            ),
            state_id is Ok && client_state == Ok::<Option<Height>, String>(None) ==> r
                == Err::<CreateClientResult, MockLcError>(
                MockLcError::UnexpectedClientType(ClientType::Tendermint),
            ),
            state_id is Ok && client_state is Ok && consensus_state == Ok::<Option<u64>, String>(
                None,
            ) ==> r is Err,
    {
        let state_id = match state_id {
            Ok(id) => id,
            Err(e) => {
                return Err(MockLcError::Commitment(e));
            },
        };
        let height = match client_state {
            Ok(Some(h)) => h,
            Ok(None) => {
                return Err(MockLcError::UnexpectedClientType(ClientType::Tendermint));
            },
            Err(e) => {
                return Err(MockLcError::Ics02(Ics02Error::Reported(e)));
            },
        };
        let timestamp = match consensus_state {
            Ok(Some(t)) => Timestamp { nanoseconds: t },
            Ok(None) => {
                return Err(MockLcError::UnexpectedClientType(ClientType::Tendermint));
            },
            Err(e) => {
                return Err(MockLcError::Ics02(Ics02Error::Reported(e)));
            },
        };
        Ok(
            CreateClientResult {
                height,
                commitment: UpdateClientCommitment {
                    prev_state_id: None,
                    new_state_id: state_id,
                    new_state: Some(any_client_state),
                    prev_height: None,
                    new_height: height,
                    timestamp,
                    validation_params: ValidationParams::Empty,
                },
                prove: false,
            },
        )
    }

    /// Creates a client from its client state and consensus state, given the
    /// state id that the commitment scheme computed of the two (or its
    /// error): ibc reads the client state, then (if it is the mock client's)
    /// the consensus state, as `create_client_outcome` describes it. Left
    /// out: the client states on which ibc's decoding may panic (see
    /// `client_state_decodable`); `try_create_client` takes every input.
    pub fn create_client(
        &self,
        state_id: Result<StateId, String>,
        any_client_state: Any,
        any_consensus_state: Any,
    ) -> (r: Result<CreateClientResult, MockLcError>)
        requires
            state_id is Ok ==> client_state_decodable(
                any_client_state.type_url@,
                any_client_state.value@,
            ),
        ensures
            create_client_outcome(r, state_id, any_client_state, any_consensus_state),
            r matches Ok(c) ==> {
                &&& state_id == Ok::<StateId, String>(c.commitment.new_state_id)
                &&& ibc_client_state_from_any(any_client_state.type_url@, any_client_state.value@)
                    == Ok::<Option<Height>, ()>(Some(c.height))
                &&& ibc_consensus_state_from_any(
                    any_consensus_state.type_url@,
                    any_consensus_state.value@,
                ) == Ok::<Option<u64>, ()>(Some(c.commitment.timestamp.nanoseconds))
                &&& c.commitment.new_state == Some(any_client_state)
                &&& c.commitment.new_height == c.height
            },
            state_id matches Err(e) ==> r == Err::<CreateClientResult, MockLcError>(
                MockLcError::Commitment(e),
            ),
            state_id is Ok && ibc_client_state_from_any(
                any_client_state.type_url@,
                any_client_state.value@,
            ) is Err ==> r matches Err(MockLcError::Ics02(Ics02Error::Reported(_))),
            state_id is Ok && ibc_client_state_from_any(
                any_client_state.type_url@,
                any_client_state.value@,
            ) == Ok::<Option<Height>, ()>(None) ==> r == Err::<CreateClientResult, MockLcError>(
                MockLcError::UnexpectedClientType(ClientType::Tendermint),
            ),
            ibc_consensus_state_from_any(any_consensus_state.type_url@, any_consensus_state.value@)
                == Ok::<Option<u64>, ()>(None) ==> r is Err,
    {
        let ghost a = any_client_state;
        let ghost b = any_consensus_state;
        let state_id = match state_id {
            Ok(id) => id,
            Err(e) => {
                let r = Err(MockLcError::Commitment(e));
                assert(r == spec_create_client(Err(e), any_client_state, Ok(None), Ok(None)));
                return r;
            },
        };
        let client_state = client_state_from_any(
            any_client_state.type_url.as_str(),
            any_client_state.value.as_slice(),
        );
        let consensus_state = match client_state {
            Ok(Some(_)) => consensus_state_from_any(
                any_consensus_state.type_url.as_str(),
                any_consensus_state.value.as_slice(),
            ),
            _ => Ok(None),
        };
        let ghost cs = client_state;
        let ghost cons = consensus_state;
        let r = self.create_client_from_parts(
            Ok(state_id),
            any_client_state,
            client_state,
            consensus_state,
        );
        assert(reported(cs) == ibc_client_state_from_any(a.type_url@, a.value@));
        assert((cs matches Ok(Some(_))) ==> reported(cons) == ibc_consensus_state_from_any(
            b.type_url@,
            b.value@,
        ));
        r
    }

    /// `create_client` on every input: `None` for a client state on which
    /// ibc's decoding may panic, which the host decodes itself and hands to
    /// `create_client_from_parts`.
    pub fn try_create_client(
        &self,
        state_id: Result<StateId, String>,
        any_client_state: Any,
        any_consensus_state: Any,
    ) -> (r: Option<Result<CreateClientResult, MockLcError>>)
        ensures
            r is None <==> (state_id is Ok && !client_state_decodable(
                any_client_state.type_url@,
                any_client_state.value@,
            )),
            r matches Some(res) ==> create_client_outcome(
                res,
                state_id,
                any_client_state,
                any_consensus_state,
            ),
            r matches Some(Ok(c)) ==> {
                &&& state_id == Ok::<StateId, String>(c.commitment.new_state_id)
                &&& ibc_client_state_from_any(any_client_state.type_url@, any_client_state.value@)
                    == Ok::<Option<Height>, ()>(Some(c.height))
                &&& ibc_consensus_state_from_any(
                    any_consensus_state.type_url@,
                    any_consensus_state.value@,
                ) == Ok::<Option<u64>, ()>(Some(c.commitment.timestamp.nanoseconds))
                &&& c.commitment.new_state == Some(any_client_state)
                &&& c.commitment.new_height == c.height
            },
    {
        if state_id.is_ok() {
            let tm = TENDERMINT_CLIENT_STATE_TYPE_URL.to_owned();
            if any_client_state.type_url == tm {
                return None;
            }
            let mock = MOCK_CLIENT_STATE_TYPE_URL.to_owned();
            if any_client_state.type_url == mock {
                if raw_mock_client_state_has_header(any_client_state.value.as_slice()) == Some(
                    false,
                ) {
                    return None;
                }
            }
        }
        Some(self.create_client(state_id, any_client_state, any_consensus_state))
    }

    /// The first step of an update, from what ibc read out of the header, as
    /// `spec_update_header` describes it.
    pub fn update_client_begin_from_parts(&self, header: Result<Option<(Height, u64)>, String>) -> (r:
        Result<MockHeader, MockLcError>)
        ensures
            r == spec_update_header(header),
            header matches Ok(Some(p)) ==> r == Ok::<MockHeader, MockLcError>(
                (MockHeader { height: p.0, timestamp: Timestamp { nanoseconds: p.1 } }),
            ),
            header == Ok::<Option<(Height, u64)>, String>(None) ==> r
                == Err::<MockHeader, MockLcError>(
                MockLcError::UnexpectedClientType(ClientType::Tendermint),
            ),
            header matches Err(e) ==> r == Err::<MockHeader, MockLcError>(
                MockLcError::Ics02(Ics02Error::Reported(e)),
            ),
    {
        match header {
            Ok(Some((height, t))) => Ok(MockHeader { height, timestamp: Timestamp { nanoseconds: t } }),
            Ok(None) => Err(MockLcError::UnexpectedClientType(ClientType::Tendermint)),
            Err(e) => Err(MockLcError::Ics02(Ics02Error::Reported(e))),
        }
    }

    /// The first step of an update with the header in `any_header`, before
    /// any read of the host's store: ibc reads the header, and the outcome
    /// is `spec_update_header` of what it read. On success the host reads
    /// the client's type. A Tendermint header, whose decoding in ibc may
    /// panic, goes through `update_client_begin_from_parts` instead.
    pub fn update_client_begin(&self, any_header: Any) -> (r: Result<MockHeader, MockLcError>)
        requires
            any_header.type_url@ != TENDERMINT_HEADER_TYPE_URL@,
        ensures
            exists|h: Result<Option<(Height, u64)>, String>|
                {
                    &&& reported(h) == ibc_header_from_any(any_header.type_url@, any_header.value@)
                    &&& r == spec_update_header(h)
                },
            r matches Ok(h) ==> ibc_header_from_any(any_header.type_url@, any_header.value@) == Ok::<
                Option<(Height, u64)>,
                (),
            >(Some((h.height, h.timestamp.nanoseconds))),
            ibc_header_from_any(any_header.type_url@, any_header.value@) matches Ok(Some(p)) ==> r
                == Ok::<MockHeader, MockLcError>(
                (MockHeader { height: p.0, timestamp: Timestamp { nanoseconds: p.1 } }),
            ),
            ibc_header_from_any(any_header.type_url@, any_header.value@) == Ok::<
                Option<(Height, u64)>,
                (),
            >(None) ==> r == Err::<MockHeader, MockLcError>(
                MockLcError::UnexpectedClientType(ClientType::Tendermint),
            ),
            ibc_header_from_any(any_header.type_url@, any_header.value@) is Err ==> r matches Err(
                MockLcError::Ics02(Ics02Error::Reported(_)),
            ),
    {
        let header = header_from_any(any_header.type_url.as_str(), any_header.value.as_slice());
        let ghost h = header;
        let r = self.update_client_begin_from_parts(header);
        assert(reported(h) == ibc_header_from_any(any_header.type_url@, any_header.value@));
        r
    }

    /// The second step of an update: the client type that the host's store
    /// gave (or its error). On success the host reads the client state.
    pub fn update_client_read_client_type(&self, client_type: Result<ClientType, Ics02Error>) -> (r:
        Result<ClientType, MockLcError>)
        ensures
            r == spec_update_read_client_type(client_type),
            client_type matches Ok(ct) ==> r == Ok::<ClientType, MockLcError>(ct),
            client_type matches Err(e) ==> r == Err::<ClientType, MockLcError>(MockLcError::Ics02(e)),
    {
        match client_type {
            Ok(ct) => Ok(ct),
            Err(e) => Err(MockLcError::Ics02(e)),
        }
    }

    /// The third step of an update: the client state that the host's store
    /// gave (or its error), as `spec_update_read_client_state` describes it.
    /// On success the host looks up the client's consensus state at
    /// `check.client_state.latest_height`.
    pub fn update_client_read_client_state(
        &self,
        client_id: String,
        header: MockHeader,
        client_type: ClientType,
        client_state: Result<ClientStateInfo, Ics02Error>,
    ) -> (r: Result<UpdateCheck, MockLcError>)
        ensures
            r == spec_update_read_client_state(client_id, header, client_type, client_state),
            client_state matches Ok(cs) && cs.frozen_height is Some ==> r
                == Err::<UpdateCheck, MockLcError>(
                MockLcError::Ics02(Ics02Error::ClientFrozen { client_id }),
            ),
            client_state matches Err(e) ==> r == Err::<UpdateCheck, MockLcError>(
                MockLcError::Ics02(e),
            ),
            r matches Ok(chk) ==> {
                &&& client_state == Ok::<ClientStateInfo, Ics02Error>(chk.client_state)
                &&& chk.client_state.frozen_height is None
                &&& chk.header == header
                &&& chk.client_type == client_type
                &&& chk.client_id == client_id
            },
            client_state matches Ok(cs) && cs.frozen_height is None ==> r is Ok,
    {
        let client_state = match client_state {
            Ok(cs) => cs,
            Err(e) => {
                return Err(MockLcError::Ics02(e));
            },
        };
        if client_state.frozen_height.is_some() {
            return Err(MockLcError::Ics02(Ics02Error::ClientFrozen { client_id }));
        }
        Ok(UpdateCheck { client_id, header, client_type, client_state })
    }

    /// The fourth step of an update: the consensus state at the client's
    /// latest height must exist, and the header must pass the client's
    /// check, as `spec_update_client_check_header` describes it.
    pub fn update_client_check_header(&self, check: &UpdateCheck, consensus_state_found: bool) -> (r:
        Result<UpdatedStates, MockLcError>)
        ensures
            r == spec_update_client_check_header(*check, consensus_state_found),
            !consensus_state_found ==> r == Err::<UpdatedStates, MockLcError>(
                MockLcError::Ics02(
                    Ics02Error::ConsensusStateNotFound {
                        client_id: check.client_id,
                        height: check.client_state.latest_height,
                    },
                ),
            ),
            r matches Ok(st) ==> {
                &&& consensus_state_found
                &&& check.client_type == ClientType::Mock
                &&& check.client_state.client_type == ClientType::Mock
                &&& height_lt(check.client_state.latest_height, check.header.height)
                &&& st.client_state.header == check.header
                &&& st.client_state.frozen_height is None
                &&& st.consensus_state.header == check.header
            },
            consensus_state_found && check.client_type == ClientType::Mock
                && check.client_state.client_type == ClientType::Mock && height_lt(
                check.client_state.latest_height,
                check.header.height,
            ) ==> r is Ok,
            consensus_state_found && check.client_type == ClientType::Mock
                && check.client_state.client_type == ClientType::Mock && !height_lt(
                check.client_state.latest_height,
                check.header.height,
            ) ==> r == Err::<UpdatedStates, MockLcError>(
                MockLcError::Ics02(
                    Ics02Error::HeaderVerificationFailure {
                        reason: HeaderError::LowHeaderHeight {
                            header_height: check.header.height,
                            latest_height: check.client_state.latest_height,
                        },
                    },
                ),
            ),
    {
        if !consensus_state_found {
            return Err(
                MockLcError::Ics02(
                    Ics02Error::ConsensusStateNotFound {
                        client_id: check.client_id.clone(),
                        height: check.client_state.latest_height,
                    },
                ),
            );
        }
        let header = check.header;
        let result = match check.client_type {
            ClientType::Tendermint => Err(HeaderError::ClientArgsTypeMismatch(ClientType::Tendermint)),
            ClientType::Mock => {
                if check.client_state.client_type != ClientType::Mock {
                    Err(HeaderError::ClientArgsTypeMismatch(ClientType::Mock))
                } else if check.client_state.latest_height.ge(&header.height) {
                    Err(
                        HeaderError::LowHeaderHeight {
                            header_height: header.height,
                            latest_height: check.client_state.latest_height,
                        },
                    )
                } else {
                    Ok(
                        UpdatedStates {
                            client_state: MockClientState { header, frozen_height: None },
                            consensus_state: MockConsensusState { header },
                        },
                    )
                }
            },
        };
        match result {
            Ok(states) => Ok(states),
            Err(reason) => Err(MockLcError::Ics02(Ics02Error::HeaderVerificationFailure { reason })),
        }
    }

    /// The last step of an update, given the state ids that the commitment
    /// scheme computed of the client's states before and after (or its
    /// errors), as `update_client_finished` describes it.
    pub fn update_client_finish(
        &self,
        check: UpdateCheck,
        new_states: UpdatedStates,
        prev_state_id: Result<StateId, String>,
        new_state_id: Result<StateId, String>,
    ) -> (r: Result<UpdateClientResult, MockLcError>)
        ensures
            update_client_finished(r, check, new_states, prev_state_id, new_state_id),
            r is Ok <==> (prev_state_id is Ok && new_state_id is Ok),
            prev_state_id matches Err(e) ==> r == Err::<UpdateClientResult, MockLcError>(
                MockLcError::Commitment(e),
            ),
            r matches Ok(u) ==> {
                &&& u.height == check.header.height
                &&& u.commitment.new_height == check.header.height
                &&& u.commitment.timestamp == check.header.timestamp
                &&& u.commitment.prev_height == Some(check.client_state.latest_height)
                &&& prev_state_id == Ok::<StateId, String>(u.commitment.prev_state_id->Some_0)
                &&& u.commitment.prev_state_id is Some
                &&& new_state_id == Ok::<StateId, String>(u.commitment.new_state_id)
                &&& u.new_any_client_state@ == (
                    MOCK_CLIENT_STATE_TYPE_URL@,
                    mock_state_message_bytes(
                        new_states.client_state.header.height,
                        new_states.client_state.header.timestamp.nanoseconds,
                    ),
                )
                &&& u.new_any_consensus_state@ == (
                    MOCK_CONSENSUS_STATE_TYPE_URL@,
                    mock_state_message_bytes(
                        new_states.consensus_state.header.height,
                        new_states.consensus_state.header.timestamp.nanoseconds,
                    ),
                )
                &&& u.prove
            },
    {
        let prev = match prev_state_id {
            Ok(id) => id,
            Err(e) => {
                return Err(MockLcError::Commitment(e));
            },
        };
        let new = match new_state_id {
            Ok(id) => id,
            Err(e) => {
                return Err(MockLcError::Commitment(e));
            },
        };
        let h = new_states.client_state.header;
        let c = new_states.consensus_state.header;
        let new_any_client_state = mock_client_state_any(h.height, h.timestamp);
        let new_any_consensus_state = mock_consensus_state_any(c.height, c.timestamp);
        let new_state = clone_any(&new_any_client_state);
        Ok(
            UpdateClientResult {
                new_any_client_state,
                new_any_consensus_state,
                height: check.header.height,
                commitment: UpdateClientCommitment {
                    prev_state_id: Some(prev),
                    new_state_id: new,
                    new_state: Some(new_state),
                    prev_height: Some(check.client_state.latest_height),
                    new_height: check.header.height,
                    timestamp: check.header.timestamp,
                    validation_params: ValidationParams::Empty,
                },
                prove: true,
            },
        )
    }

    /// The latest height of the client, from its client state in the host's
    /// store (or the store's error).
    pub fn latest_height(&self, client_state: Result<ClientStateInfo, Ics02Error>) -> (r: Result<
        Height,
        MockLcError,
    >)
        ensures
            r == spec_latest_height(client_state),
            client_state matches Ok(cs) ==> r == Ok::<Height, MockLcError>(cs.latest_height),
            client_state matches Err(e) ==> r == Err::<Height, MockLcError>(MockLcError::Ics02(e)),
    {
        match client_state {
            Ok(cs) => Ok(cs.latest_height),
            Err(e) => Err(MockLcError::Ics02(e)),
        }
    }
}

} // verus!
