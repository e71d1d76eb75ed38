use ibc::mock::client_state::{MockClientState as IbcMockClientState, MockConsensusState as IbcMockConsensusState};
use ibc::mock::header::MockHeader as IbcMockHeader;
use ibc::timestamp::Timestamp as IbcTimestamp;
use ibc_proto::google::protobuf::Any as ProtoAny;
use lcp::ibc_types::{Any, ClientType, Height, Timestamp};
use lcp::mock_client::{
    ClientStateInfo, HeaderError, Ics02Error, MockHeader, MockLcError, MockLightClient, UpdateCheck,
    ValidationParams,
};

fn height(n: u64, h: u64) -> Height {
    Height { revision_number: n, revision_height: h }
}

fn ibc_header(n: u64, h: u64, ts: u64) -> IbcMockHeader {
    IbcMockHeader::new(ibc::Height::new(n, h)).with_timestamp(IbcTimestamp::from_nanoseconds(ts).unwrap())
}

fn to_any(a: ProtoAny) -> Any {
    Any { type_url: a.type_url, value: a.value }
}

fn mock_client_state_any(n: u64, h: u64, ts: u64) -> Any {
    to_any(ibc::core::ics02_client::client_state::AnyClientState::Mock(IbcMockClientState::new(ibc_header(n, h, ts))).into())
}

fn mock_consensus_state_any(n: u64, h: u64, ts: u64) -> Any {
    to_any(ibc::core::ics02_client::client_consensus::AnyConsensusState::Mock(IbcMockConsensusState::new(ibc_header(n, h, ts))).into())
}

fn mock_header_any(n: u64, h: u64, ts: u64) -> Any {
    to_any(ibc::core::ics02_client::header::AnyHeader::Mock(ibc_header(n, h, ts)).into())
}

fn mock_info(n: u64, h: u64) -> ClientStateInfo {
    ClientStateInfo { client_type: ClientType::Mock, latest_height: height(n, h), frozen_height: None }
}

fn check(latest: Height, header: Height, client_type: ClientType, state_type: ClientType) -> UpdateCheck {
    UpdateCheck {
        client_id: "9999-mock-0".to_string(),
        header: MockHeader { height: header, timestamp: Timestamp { nanoseconds: 77 } },
        client_type,
        client_state: ClientStateInfo { client_type: state_type, latest_height: latest, frozen_height: None },
    }
}

#[test]
fn client_type_is_mock() {
    assert_eq!(MockLightClient.client_type(), "9999-mock");
}

#[test]
fn create_client_commits_to_the_initial_state() {
    let cs = mock_client_state_any(1, 10, 5);
    let res = MockLightClient
        .create_client(Ok([3u8; 32]), Any { type_url: cs.type_url.clone(), value: cs.value.clone() }, mock_consensus_state_any(1, 10, 1234))
        .ok()
        .unwrap();
    assert_eq!(res.height, height(1, 10));
    assert!(!res.prove);
    let c = res.commitment;
    assert_eq!(c.prev_state_id, None);
    assert_eq!(c.new_state_id, [3u8; 32]);
    let new_state = c.new_state.unwrap();
    assert_eq!(new_state.type_url, cs.type_url);
    assert_eq!(new_state.value, cs.value);
    assert_eq!(c.prev_height, None);
    assert_eq!(c.new_height, height(1, 10));
    assert_eq!(c.timestamp, Timestamp { nanoseconds: 1234 });
    assert_eq!(c.validation_params, ValidationParams::Empty);
}

#[test]
fn create_client_reports_the_commitment_error_first() {
    let r = MockLightClient.create_client(
        Err("no state id".to_string()),
        Any { type_url: String::new(), value: vec![] },
        Any { type_url: String::new(), value: vec![] },
    );
    assert!(matches!(r, Err(MockLcError::Commitment(e)) if e == "no state id"));
}

#[test]
fn create_client_rejects_an_unknown_client_state() {
    let r = MockLightClient.create_client(
        Ok([0u8; 32]),
        Any { type_url: "/unknown".to_string(), value: vec![] },
        mock_consensus_state_any(1, 1, 1),
    );
    assert!(matches!(r, Err(MockLcError::Ics02(Ics02Error::Reported(_)))));
}

#[test]
fn create_client_rejects_an_undecodable_consensus_state() {
    let r = MockLightClient.create_client(
        Ok([0u8; 32]),
        mock_client_state_any(1, 1, 1),
        Any { type_url: String::new(), value: vec![] },
    );
    assert!(matches!(r, Err(MockLcError::Ics02(Ics02Error::Reported(_)))));
}

#[test]
fn try_create_client_refuses_a_mock_client_state_without_header() {
    let r = MockLightClient.try_create_client(
        Ok([0u8; 32]),
        Any { type_url: "/ibc.mock.ClientState".to_string(), value: vec![] },
        mock_consensus_state_any(1, 1, 1),
    );
    assert!(r.is_none());
    let r = MockLightClient.try_create_client(
        Err("x".to_string()),
        Any { type_url: "/ibc.mock.ClientState".to_string(), value: vec![] },
        mock_consensus_state_any(1, 1, 1),
    );
    assert!(matches!(r, Some(Err(MockLcError::Commitment(_)))));
}

#[test]
fn try_create_client_creates_from_mock_states() {
    let r = MockLightClient.try_create_client(Ok([1u8; 32]), mock_client_state_any(2, 4, 9), mock_consensus_state_any(2, 4, 9));
    let res = r.unwrap().ok().unwrap();
    assert_eq!(res.height, height(2, 4));
    assert_eq!(res.commitment.timestamp, Timestamp { nanoseconds: 9 });
}

fn begin_check(lc: &MockLightClient, header: Any, info: ClientStateInfo) -> UpdateCheck {
    let h = lc.update_client_begin(header).ok().unwrap();
    let ct = lc.update_client_read_client_type(Ok(ClientType::Mock)).ok().unwrap();
    lc.update_client_read_client_state("9999-mock-0".to_string(), h, ct, Ok(info)).ok().unwrap()
}

#[test]
fn update_client_runs_through_its_steps() {
    let lc = MockLightClient;
    let chk = begin_check(&lc, mock_header_any(1, 11, 500), mock_info(1, 10));
    assert_eq!(chk.header.height, height(1, 11));
    assert_eq!(chk.header.timestamp, Timestamp { nanoseconds: 500 });
    assert_eq!(chk.client_type, ClientType::Mock);
    assert_eq!(chk.client_state.latest_height, height(1, 10));
    let states = lc.update_client_check_header(&chk, true).ok().unwrap();
    assert_eq!(states.client_state.header, chk.header);
    assert_eq!(states.client_state.frozen_height, None);
    assert_eq!(states.consensus_state.header, chk.header);
    let res = lc.update_client_finish(chk, states, Ok([1u8; 32]), Ok([2u8; 32])).ok().unwrap();
    let expected_cs = mock_client_state_any(1, 11, 500);
    let expected_cons = mock_consensus_state_any(1, 11, 500);
    assert_eq!(res.new_any_client_state.type_url, expected_cs.type_url);
    assert_eq!(res.new_any_client_state.value, expected_cs.value);
    assert_eq!(res.new_any_consensus_state.type_url, expected_cons.type_url);
    assert_eq!(res.new_any_consensus_state.value, expected_cons.value);
    assert_eq!(res.height, height(1, 11));
    assert!(res.prove);
    let c = res.commitment;
    assert_eq!(c.prev_state_id, Some([1u8; 32]));
    assert_eq!(c.new_state_id, [2u8; 32]);
    assert_eq!(c.new_state.unwrap().value, expected_cs.value);
    assert_eq!(c.prev_height, Some(height(1, 10)));
    assert_eq!(c.new_height, height(1, 11));
    assert_eq!(c.timestamp, Timestamp { nanoseconds: 500 });
}

#[test]
fn updated_states_have_the_exact_protobuf_bytes() {
    let lc = MockLightClient;
    let chk = check(height(1, 10), height(1, 11), ClientType::Mock, ClientType::Mock);
    let chk = UpdateCheck { header: MockHeader { height: height(1, 11), timestamp: Timestamp { nanoseconds: 500 } }, ..chk };
    let states = lc.update_client_check_header(&chk, true).ok().unwrap();
    let res = lc.update_client_finish(chk, states, Ok([1u8; 32]), Ok([2u8; 32])).ok().unwrap();
    let bytes = vec![0x0a, 0x09, 0x0a, 0x04, 0x08, 0x01, 0x10, 0x0b, 0x10, 0xf4, 0x03];
    assert_eq!(res.new_any_client_state.type_url, "/ibc.mock.ClientState");
    assert_eq!(res.new_any_client_state.value, bytes);
    assert_eq!(res.new_any_consensus_state.type_url, "/ibc.mock.ConsensusState");
    assert_eq!(res.new_any_consensus_state.value, bytes);
}

#[test]
fn update_client_rejects_a_frozen_client() {
    let mut info = mock_info(1, 10);
    info.frozen_height = Some(height(1, 9));
    let h = MockHeader { height: height(1, 11), timestamp: Timestamp { nanoseconds: 1 } };
    let r = MockLightClient.update_client_read_client_state("c".to_string(), h, ClientType::Mock, Ok(info));
    assert!(matches!(r, Err(MockLcError::Ics02(Ics02Error::ClientFrozen { client_id })) if client_id == "c"));
}

#[test]
fn update_client_passes_on_store_errors() {
    let r = MockLightClient.update_client_read_client_type(Err(Ics02Error::Reported("no type".to_string())));
    assert!(matches!(r, Err(MockLcError::Ics02(Ics02Error::Reported(e))) if e == "no type"));
    let h = MockHeader { height: height(1, 11), timestamp: Timestamp { nanoseconds: 1 } };
    let r = MockLightClient.update_client_read_client_state(
        "c".to_string(),
        h,
        ClientType::Mock,
        Err(Ics02Error::Reported("no state".to_string())),
    );
    assert!(matches!(r, Err(MockLcError::Ics02(Ics02Error::Reported(e))) if e == "no state"));
}

#[test]
fn update_client_rejects_an_undecodable_header() {
    let r = MockLightClient.update_client_begin(Any { type_url: "/ibc.mock.Header".to_string(), value: vec![0xff] });
    assert!(matches!(r, Err(MockLcError::Ics02(Ics02Error::Reported(_)))));
}

#[test]
fn update_client_rejects_a_header_of_unknown_type() {
    let r = MockLightClient.update_client_begin(Any { type_url: "/unknown.Header".to_string(), value: vec![] });
    assert!(matches!(r, Err(MockLcError::Ics02(Ics02Error::Reported(_)))));
}

#[test]
fn update_client_begin_reads_the_header() {
    let h = MockLightClient.update_client_begin(mock_header_any(4, 2, 99)).ok().unwrap();
    assert_eq!(h, MockHeader { height: height(4, 2), timestamp: Timestamp { nanoseconds: 99 } });
}

#[test]
fn update_client_needs_the_latest_consensus_state() {
    let chk = check(height(1, 10), height(1, 11), ClientType::Mock, ClientType::Mock);
    let r = MockLightClient.update_client_check_header(&chk, false);
    assert!(matches!(
        r,
        Err(MockLcError::Ics02(Ics02Error::ConsensusStateNotFound { client_id, height: h }))
            if client_id == "9999-mock-0" && h == height(1, 10)
    ));
}

#[test]
fn update_client_rejects_a_header_not_above_the_latest_height() {
    for header in [height(1, 10), height(1, 9), height(0, 50)] {
        let chk = check(height(1, 10), header, ClientType::Mock, ClientType::Mock);
        let r = MockLightClient.update_client_check_header(&chk, true);
        assert!(matches!(
            r,
            Err(MockLcError::Ics02(Ics02Error::HeaderVerificationFailure {
                reason: HeaderError::LowHeaderHeight { header_height, latest_height }
            })) if header_height == header && latest_height == height(1, 10)
        ));
    }
}

#[test]
fn update_client_accepts_a_header_of_a_later_revision() {
    let chk = check(height(1, 10), height(2, 1), ClientType::Mock, ClientType::Mock);
    assert!(MockLightClient.update_client_check_header(&chk, true).is_ok());
}

#[test]
fn update_client_rejects_mismatched_client_types() {
    let chk = check(height(1, 10), height(1, 11), ClientType::Tendermint, ClientType::Mock);
    let r = MockLightClient.update_client_check_header(&chk, true);
    assert!(matches!(
        r,
        Err(MockLcError::Ics02(Ics02Error::HeaderVerificationFailure {
            reason: HeaderError::ClientArgsTypeMismatch(ClientType::Tendermint)
        }))
    ));
    let chk = check(height(1, 10), height(1, 11), ClientType::Mock, ClientType::Tendermint);
    let r = MockLightClient.update_client_check_header(&chk, true);
    assert!(matches!(
        r,
        Err(MockLcError::Ics02(Ics02Error::HeaderVerificationFailure {
            reason: HeaderError::ClientArgsTypeMismatch(ClientType::Mock)
        }))
    ));
}

#[test]
fn update_client_reports_commitment_errors_in_order() {
    let lc = MockLightClient;
    let chk = check(height(1, 10), height(1, 11), ClientType::Mock, ClientType::Mock);
    let states = lc.update_client_check_header(&chk, true).ok().unwrap();
    let r = lc.update_client_finish(chk, states, Err("prev".to_string()), Err("new".to_string()));
    assert!(matches!(r, Err(MockLcError::Commitment(e)) if e == "prev"));
    let chk = check(height(1, 10), height(1, 11), ClientType::Mock, ClientType::Mock);
    let states = lc.update_client_check_header(&chk, true).ok().unwrap();
    let r = lc.update_client_finish(chk, states, Ok([0u8; 32]), Err("new".to_string()));
    assert!(matches!(r, Err(MockLcError::Commitment(e)) if e == "new"));
}

#[test]
fn latest_height_reads_the_client_state() {
    assert_eq!(MockLightClient.latest_height(Ok(mock_info(3, 8))).ok().unwrap(), height(3, 8));
    let r = MockLightClient.latest_height(Err(Ics02Error::Reported("gone".to_string())));
    assert!(matches!(r, Err(MockLcError::Ics02(Ics02Error::Reported(e))) if e == "gone"));
}

#[test]
fn tendermint_header_is_an_unexpected_client_type() {
    let r = MockLightClient.update_client_begin_from_parts(Ok(None));
    assert!(matches!(r, Err(MockLcError::UnexpectedClientType(ClientType::Tendermint))));
    let r = MockLightClient.update_client_begin_from_parts(Err("bad".to_string()));
    assert!(matches!(r, Err(MockLcError::Ics02(Ics02Error::Reported(e))) if e == "bad"));
}

#[test]
fn try_create_client_leaves_tendermint_client_states_to_the_host() {
    let r = MockLightClient.try_create_client(
        Ok([0u8; 32]),
        Any { type_url: "/ibc.lightclients.tendermint.v1.ClientState".to_string(), value: vec![] },
        mock_consensus_state_any(1, 1, 1),
    );
    assert!(r.is_none());
    let r = MockLightClient.create_client_from_parts(Ok([0u8; 32]), Any { type_url: String::new(), value: vec![] }, Ok(None), Ok(Some(1)));
    assert!(matches!(r, Err(MockLcError::UnexpectedClientType(ClientType::Tendermint))));
}

#[test]
fn create_client_gives_the_same_result_twice() {
    let lc = MockLightClient;
    let a = lc.create_client(Ok([5u8; 32]), mock_client_state_any(1, 3, 7), mock_consensus_state_any(1, 3, 7)).ok().unwrap();
    let b = lc.create_client(Ok([5u8; 32]), mock_client_state_any(1, 3, 7), mock_consensus_state_any(1, 3, 7)).ok().unwrap();
    assert_eq!(a.height, b.height);
    assert_eq!(a.commitment.new_state_id, b.commitment.new_state_id);
    assert_eq!(a.commitment.new_height, b.commitment.new_height);
    assert_eq!(a.commitment.timestamp, b.commitment.timestamp);
    assert_eq!(a.commitment.new_state.unwrap().value, b.commitment.new_state.unwrap().value);
}

#[test]
fn next_update_continues_from_the_created_state() {
    let lc = MockLightClient;
    let created = lc.create_client(Ok([5u8; 32]), mock_client_state_any(1, 3, 7), mock_consensus_state_any(1, 3, 7)).ok().unwrap();
    let stored = mock_info(created.commitment.new_height.revision_number, created.commitment.new_height.revision_height);
    assert_eq!(lc.latest_height(Ok(stored)).ok().unwrap(), created.height);
    let chk = begin_check(&lc, mock_header_any(1, 4, 8), stored);
    let states = lc.update_client_check_header(&chk, true).ok().unwrap();
    let u = lc.update_client_finish(chk, states, Ok([5u8; 32]), Ok([6u8; 32])).ok().unwrap();
    assert_eq!(u.commitment.prev_height, Some(created.commitment.new_height));
    let stored = mock_info(u.commitment.new_height.revision_number, u.commitment.new_height.revision_height);
    assert_eq!(lc.latest_height(Ok(stored)).ok().unwrap(), u.height);
    let chk = begin_check(&lc, mock_header_any(1, 9, 9), stored);
    let states = lc.update_client_check_header(&chk, true).ok().unwrap();
    let v = lc.update_client_finish(chk, states, Ok([6u8; 32]), Ok([7u8; 32])).ok().unwrap();
    assert_eq!(v.commitment.prev_height, Some(u.commitment.new_height));
}

#[test]
fn updated_state_creates_a_client_at_the_new_height() {
    let lc = MockLightClient;
    let chk = check(height(1, 10), height(1, 15), ClientType::Mock, ClientType::Mock);
    let states = lc.update_client_check_header(&chk, true).ok().unwrap();
    let res = lc.update_client_finish(chk, states, Ok([1u8; 32]), Ok([2u8; 32])).ok().unwrap();
    let created = lc
        .try_create_client(Ok([9u8; 32]), res.new_any_client_state, res.new_any_consensus_state)
        .unwrap()
        .ok()
        .unwrap();
    assert_eq!(created.height, res.commitment.new_height);
    assert_eq!(created.commitment.timestamp, res.commitment.timestamp);
}

#[test]
fn create_client_fails_the_same_way_twice() {
    let lc = MockLightClient::default();
    for _ in 0..2 {
        let r = lc.create_client(
            Ok([0u8; 32]),
            Any { type_url: "/unknown".to_string(), value: vec![] },
            mock_consensus_state_any(1, 1, 1),
        );
        assert!(matches!(r, Err(MockLcError::Ics02(Ics02Error::Reported(_)))));
        let r = lc.create_client(Ok([0u8; 32]), mock_client_state_any(1, 1, 1), Any { type_url: "/unknown".to_string(), value: vec![] });
        assert!(matches!(r, Err(MockLcError::Ics02(Ics02Error::Reported(_)))));
    }
}
