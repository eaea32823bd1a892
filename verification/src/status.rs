//! What a node says of itself.
use crate::error::optional_text;
use crate::message::optional_array;
use vstd::prelude::*;

verus! {

/// The versions of the protocols that a node speaks.
#[derive(Clone, Copy, Debug, PartialEq, Eq)]
pub struct ProtocolVersion {
    pub p2p: u64,
    pub block: u64,
    pub app: u64,
}

/// The node itself.
#[derive(Clone, Debug, PartialEq, Eq)]
pub struct NodeInfo {
    pub protocol_version: ProtocolVersion,
    /// The bytes of its identifier.
    pub id: Vec<u8>,
    pub listen_addr: String,
    /// The name of the chain that it follows.
    pub network: String,
    /// The version that it runs.
    pub version: String,
    pub channels: String,
    pub moniker: String,
    /// Whether it indexes transactions.
    pub tx_index: bool,
    pub rpc_address: String,
}

/// What a [`NodeInfo`] says.
pub struct NodeInfoView {
    pub protocol_version: ProtocolVersion,
    pub id: Seq<u8>,
    pub listen_addr: Seq<char>,
    pub network: Seq<char>,
    pub version: Seq<char>,
    pub channels: Seq<char>,
    pub moniker: Seq<char>,
    pub tx_index: bool,
    pub rpc_address: Seq<char>,
}

impl View for NodeInfo {
    type V = NodeInfoView;

    open spec fn view(&self) -> NodeInfoView {
        NodeInfoView {
            protocol_version: self.protocol_version,
            id: self.id@,
            listen_addr: self.listen_addr@,
            network: self.network@,
            version: self.version@,
            channels: self.channels@,
            moniker: self.moniker@,
            tx_index: self.tx_index,
            rpc_address: self.rpc_address@,
        }
    }
}

/// The time of a block.
#[derive(Clone, Copy, Debug, PartialEq, Eq)]
pub struct BlockTime {
    /// Whole seconds since 1970.
    pub seconds: i64,
    /// Nanoseconds since the whole second.
    pub nanos: u32,
}

/// How far a node has followed its chain.
#[derive(Clone, Debug, PartialEq, Eq)]
pub struct SyncInfo {
    pub earliest_block_hash: Option<[u8; 32]>,
    pub earliest_app_hash: Vec<u8>,
    pub earliest_block_height: u64,
    pub earliest_block_time: BlockTime,
    pub latest_block_hash: Option<[u8; 32]>,
    pub latest_app_hash: Vec<u8>,
    pub latest_block_height: u64,
    pub latest_block_time: BlockTime,
    pub catching_up: bool,
}

/// What a [`SyncInfo`] says.
pub struct SyncInfoView {
    pub earliest_block_hash: Option<Seq<u8>>,
    pub earliest_app_hash: Seq<u8>,
    pub earliest_block_height: u64,
    pub earliest_block_time: BlockTime,
    pub latest_block_hash: Option<Seq<u8>>,
    pub latest_app_hash: Seq<u8>,
    pub latest_block_height: u64,
    pub latest_block_time: BlockTime,
    pub catching_up: bool,
}

impl View for SyncInfo {
    type V = SyncInfoView;

    open spec fn view(&self) -> SyncInfoView {
        SyncInfoView {
            earliest_block_hash: optional_array(self.earliest_block_hash),
            earliest_app_hash: self.earliest_app_hash@,
            earliest_block_height: self.earliest_block_height,
            earliest_block_time: self.earliest_block_time,
            latest_block_hash: optional_array(self.latest_block_hash),
            latest_app_hash: self.latest_app_hash@,
            latest_block_height: self.latest_block_height,
            latest_block_time: self.latest_block_time,
            catching_up: self.catching_up,
        }
    }
}

/// The validator that a node runs.
#[derive(Clone, Debug, PartialEq, Eq)]
pub struct ValidatorInfo {
    /// The bytes of its address.
    pub address: Vec<u8>,
    /// The name of the type of its public key.
    pub key_type: String,
    /// The bytes of its public key.
    pub key: Vec<u8>,
    pub power: u64,
    pub name: Option<String>,
    pub proposer_priority: i64,
}

/// What a [`ValidatorInfo`] says.
pub struct ValidatorInfoView {
    pub address: Seq<u8>,
    pub key_type: Seq<char>,
    pub key: Seq<u8>,
    pub power: u64,
    pub name: Option<Seq<char>>,
    pub proposer_priority: i64,
}

impl View for ValidatorInfo {
    type V = ValidatorInfoView;

    open spec fn view(&self) -> ValidatorInfoView {
        ValidatorInfoView {
            address: self.address@,
            key_type: self.key_type@,
            key: self.key@,
            power: self.power,
            name: optional_text(self.name),
            proposer_priority: self.proposer_priority,
        }
    }
}

/// What a node says of itself, of its chain and of its validator.
#[derive(Clone, Debug, PartialEq, Eq)]
pub struct NodeStatus {
    pub node_info: NodeInfo,
    pub sync_info: SyncInfo,
    pub validator_info: ValidatorInfo,
}

/// What a [`NodeStatus`] says.
pub struct NodeStatusView {
    pub node_info: NodeInfoView,
    pub sync_info: SyncInfoView,
    pub validator_info: ValidatorInfoView,
}

impl View for NodeStatus {
    type V = NodeStatusView;

    open spec fn view(&self) -> NodeStatusView {
        NodeStatusView {
            node_info: self.node_info@,
            sync_info: self.sync_info@,
            validator_info: self.validator_info@,
        }
    }
}

/// A status says all that it holds.
pub proof fn a_status_says_what_it_holds(status: NodeStatus)
    ensures
        status@.node_info.protocol_version == status.node_info.protocol_version,
        status@.node_info.id == status.node_info.id@,
        status@.node_info.listen_addr == status.node_info.listen_addr@,
        status@.node_info.network == status.node_info.network@,
        status@.node_info.version == status.node_info.version@,
        status@.node_info.channels == status.node_info.channels@,
        status@.node_info.moniker == status.node_info.moniker@,
        status@.node_info.tx_index == status.node_info.tx_index,
        status@.node_info.rpc_address == status.node_info.rpc_address@,
        status@.sync_info.earliest_block_hash == optional_array(
            status.sync_info.earliest_block_hash,
        ),
        status@.sync_info.earliest_app_hash == status.sync_info.earliest_app_hash@,
        status@.sync_info.earliest_block_height == status.sync_info.earliest_block_height,
        status@.sync_info.earliest_block_time == status.sync_info.earliest_block_time,
        status@.sync_info.latest_block_hash == optional_array(status.sync_info.latest_block_hash),
        status@.sync_info.latest_app_hash == status.sync_info.latest_app_hash@,
        status@.sync_info.latest_block_height == status.sync_info.latest_block_height,
        status@.sync_info.latest_block_time == status.sync_info.latest_block_time,
        status@.sync_info.catching_up == status.sync_info.catching_up,
        status@.validator_info.address == status.validator_info.address@,
        status@.validator_info.key_type == status.validator_info.key_type@,
        status@.validator_info.key == status.validator_info.key@,
        status@.validator_info.power == status.validator_info.power,
        status@.validator_info.name == optional_text(status.validator_info.name),
        status@.validator_info.proposer_priority == status.validator_info.proposer_priority,
{
}

} // verus!
