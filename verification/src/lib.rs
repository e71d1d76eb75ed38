//! A verified core of the LCP modules: the consensus state of the LCP light
//! client and its protobuf form, the mock light client's create and update
//! logic, and the decisions of the enclave's command channel.

pub mod consensus_state;
pub mod host_api;
pub mod ibc_client;
pub mod ibc_types;
pub mod mock_client;
pub mod proto;
