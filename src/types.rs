use vstd::prelude::*;

verus! {

/// The value type of free-form JSON fields.
#[verifier::external_type_specification]
#[verifier::external_body]
pub struct ExValue(serde_json::Value);

/// Relies on serde_json's derived `Clone` for `Value`, which the records' own
/// `Clone` calls; nothing is claimed of the copy.
pub assume_specification[ <serde_json::Value as Clone>::clone ](v: &serde_json::Value) -> serde_json::Value;

// Names of the transaction tags that Warp contracts use.
pub const APP_NAME: &'static str = "App-Name";
pub const SMARTWEAVE_ACTION: &'static str = "SmartWeaveAction";
pub const APP_VERSION: &'static str = "App-Version";
/// The tag that names the contract of an interaction.
pub const CONTRACT_TX_ID: &'static str = "Contract";
pub const INPUT: &'static str = "Input";
pub const CONTENT_TYPE: &'static str = "Content-Type";
/// The tag that names the source transaction of a contract.
pub const CONTRACT_SRC_TX_ID: &'static str = "Contract-Src";
pub const SDK: &'static str = "SDK";
pub const MIN_FEE: &'static str = "Min-Fee";
pub const INIT_STATE: &'static str = "Init-State";
pub const INIT_STATE_TX: &'static str = "Init-State-TX";
pub const INTERACT_WRITE: &'static str = "Interact-Write";
pub const WASM_META: &'static str = "Wasm-Meta";
pub const REQUEST_VRF: &'static str = "Request-Vrf";
pub const SIGNATURE_TYPE: &'static str = "Signature-Type";
pub const MANIFEST: &'static str = "Contract-Manifest";

/// What the sequencer answers to a registered interaction.
#[derive(Default, Debug, Clone, PartialEq)]
pub struct InteractionResponse {
    pub id: String,
    pub timestamp: i64,
    pub public: String,
    pub signature: String,
    pub block: i64,
    pub validator_signatures: Vec<serde_json::Value>,
}

/// The status report of a DRE node.
#[derive(Default, Debug, Clone, PartialEq)]
pub struct Status {
    pub manifest: Manifest,
    pub workers_config: WorkersConfig,
    pub queues_totals: QueuesTotals,
    pub queues_details: QueuesDetails,
}

/// The build and configuration of a DRE node.
#[derive(Default, Debug, Clone, PartialEq)]
pub struct Manifest {
    pub git_commit_hash: String,
    pub warp_sdk_config: WarpSdkConfig,
    pub evaluation_options: EvaluationOptions,
    pub owner: String,
    pub wallet_address: String,
}

/// The versions of the SDK packages that a node runs.
#[derive(Default, Debug, Clone, PartialEq)]
pub struct WarpSdkConfig {
    pub warp_contracts: String,
    pub warp_contracts_lmdb: String,
    pub warp_contracts_evaluation_progress_plugin: String,
    pub warp_contracts_plugin_nlp: String,
    pub warp_contracts_plugin_ethers: String,
    pub warp_contracts_plugin_signature: String,
}

/// The options with which a node evaluates contracts.
#[derive(Default, Debug, Clone, PartialEq)]
pub struct EvaluationOptions {
    pub use_vm2: Option<bool>,
    pub max_call_depth: i64,
    pub max_interaction_evaluation_time_seconds: i64,
    pub allow_big_int: bool,
    pub unsafe_client: String,
    pub internal_writes: bool,
}

/// The worker pool settings of a node.
#[derive(Default, Debug, Clone, PartialEq)]
pub struct WorkersConfig {
    pub register: i64,
    pub update: i64,
    pub job_id_refresh_seconds: i64,
    pub max_failures: i64,
    pub max_state_size_b: i64,
}

/// The number of jobs in each queue of a node.
#[derive(Default, Debug, Clone, PartialEq)]
pub struct QueuesTotals {
    pub update: Update,
    pub register: Register,
}

/// The number of update jobs, running and waiting.
#[derive(Default, Debug, Clone, PartialEq)]
pub struct Update {
    pub active: i64,
    pub waiting: i64,
}

/// The number of register jobs, running and waiting.
#[derive(Default, Debug, Clone, PartialEq)]
pub struct Register {
    pub active: i64,
    pub waiting: i64,
}

/// The jobs in each queue of a node.
#[derive(Default, Debug, Clone, PartialEq)]
pub struct QueuesDetails {
    pub update: Update2,
    pub register: Register2,
}

/// The update jobs, running and waiting.
#[derive(Default, Debug, Clone, PartialEq)]
pub struct Update2 {
    pub active: Vec<serde_json::Value>,
    pub waiting: Vec<serde_json::Value>,
}

/// The register jobs, running and waiting.
#[derive(Default, Debug, Clone, PartialEq)]
pub struct Register2 {
    pub active: Vec<serde_json::Value>,
    pub waiting: Vec<serde_json::Value>,
}

/// A contract that a node refuses to evaluate, with its failure count.
#[derive(Default, Debug, Clone, PartialEq)]
pub struct BlacklistItem {
    pub contract_tx_id: String,
    pub failures: i64,
}

/// The contracts whose state a node holds.
#[derive(Default, Debug, Clone, PartialEq)]
pub struct Cached {
    pub cached_contracts: i64,
    pub ids: Vec<String>,
}

/// A failed evaluation reported by a node.
#[derive(Default, Debug, Clone, PartialEq)]
pub struct ErrorsItem {
    pub contract_tx_id: String,
    pub evaluation_options: String,
    pub sdk_config: String,
    pub job_id: String,
    pub failure: String,
    pub timestamp: String,
}

/// The evaluated state of a contract.
#[derive(Default, Debug, Clone, PartialEq)]
pub struct ContractRoot {
    pub status: String,
    pub contract_tx_id: String,
    pub state: serde_json::Value,
    pub sort_key: String,
    pub timestamp: String,
    pub signature: String,
    pub state_hash: String,
    pub manifest: Manifest,
}

/// The evaluated state of a contract, narrowed by a query.
#[derive(Default, Debug, Clone, PartialEq)]
pub struct ContractWithQuery {
    pub status: String,
    pub contract_tx_id: String,
    pub result: Option<Vec<serde_json::Value>>,
    pub state: Option<serde_json::Value>,
    pub sort_key: String,
    pub timestamp: String,
    pub signature: String,
    pub state_hash: String,
    pub manifest: Manifest,
}

} // verus!
