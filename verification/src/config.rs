//! How a chain is reached, and what has been deployed on it.
use crate::error::{optional_text, ErrorView, ProcessError};
use crate::identifiers::{
    denom_error, parse_chain_id, parse_denom, valid_chain_id, valid_denom,
};
use crate::names::NameMap;
use crate::quantity::Quantity;
use vstd::prelude::*;

verus! {

/// What is known of one contract.
#[derive(Debug, PartialEq, Eq)]
pub struct DeployInfo {
    /// The number of its stored code.
    pub code_id: Option<u64>,
    /// The address of its latest instance.
    pub address: Option<String>,
}

/// What a [`DeployInfo`] says.
pub struct DeployInfoView {
    pub code_id: Option<u64>,
    pub address: Option<Seq<char>>,
}

impl View for DeployInfo {
    type V = DeployInfoView;

    open spec fn view(&self) -> DeployInfoView {
        DeployInfoView { code_id: self.code_id, address: optional_text(self.address) }
    }
}

impl Clone for DeployInfo {
    fn clone(&self) -> (copy: Self)
        ensures
            copy@ == self@,
    {
        let address: Option<String> = match &self.address {
            Some(address) => Some(address.clone()),
            None => None,
        };
        DeployInfo { code_id: self.code_id, address }
    }
}

impl Default for DeployInfo {
    fn default() -> (info: Self)
        ensures
            info@ == (DeployInfoView { code_id: None, address: None }),
    {
        DeployInfo { code_id: None, address: None }
    }
}

/// What the client is configured with.
#[derive(Clone, Debug)]
pub struct Config {
    /// The chain, and how it is reached.
    pub chain_cfg: ChainConfig,
    /// The contracts that are known from the start.
    pub contract_deploy_info: NameMap<DeployInfo>,
}

/// A chain, and how it is reached.
#[derive(Clone, Debug, PartialEq, Eq)]
pub struct ChainConfig {
    /// The denomination that fees are paid in.
    pub denom: String,
    /// The prefix of the chain's addresses.
    pub prefix: String,
    /// The name of the chain.
    pub chain_id: String,
    /// The path along which keys are derived.
    pub derivation_path: String,
    /// What one unit of gas costs.
    pub gas_price: Quantity,
    /// By how much the simulated gas is multiplied.
    pub gas_adjustment: Quantity,
    /// The URL at which a node answers.
    pub rpc_endpoint: Option<String>,
    /// Kept so that a configuration that holds it can be written back. It is never used, and no
    /// other endpoint is ever inferred from it.
    pub grpc_endpoint: Option<String>,
}

/// What a [`ChainConfig`] says.
pub struct ChainConfigView {
    pub denom: Seq<char>,
    pub prefix: Seq<char>,
    pub chain_id: Seq<char>,
    pub derivation_path: Seq<char>,
    pub gas_price: Quantity,
    pub gas_adjustment: Quantity,
    pub rpc_endpoint: Option<Seq<char>>,
    pub grpc_endpoint: Option<Seq<char>>,
}

impl View for ChainConfig {
    type V = ChainConfigView;

    open spec fn view(&self) -> ChainConfigView {
        ChainConfigView {
            denom: self.denom@,
            prefix: self.prefix@,
            chain_id: self.chain_id@,
            derivation_path: self.derivation_path@,
            gas_price: self.gas_price,
            gas_adjustment: self.gas_adjustment,
            rpc_endpoint: optional_text(self.rpc_endpoint),
            grpc_endpoint: optional_text(self.grpc_endpoint),
        }
    }
}

/// Why a chain configuration cannot be used.
pub enum ConfigFault {
    /// It names no endpoint.
    Endpoint,
    /// Its price or its adjustment is no usable number.
    Rates,
    /// Its chain name is none.
    ChainId,
    /// Its denomination is none.
    Denom,
}

/// The first fault of a chain configuration, in the order in which they are looked for.
pub open spec fn config_fault(cfg: ChainConfigView) -> Option<ConfigFault> {
    if cfg.rpc_endpoint is None || cfg.rpc_endpoint->0.len() == 0 {
        Some(ConfigFault::Endpoint)
    } else if !cfg.gas_price.finite() || cfg.gas_price.below_zero() || !cfg.gas_adjustment.finite()
        || !cfg.gas_adjustment.above_zero() {
        Some(ConfigFault::Rates)
    } else if !valid_chain_id(cfg.chain_id) {
        Some(ConfigFault::ChainId)
    } else if !valid_denom(cfg.denom) {
        Some(ConfigFault::Denom)
    } else {
        None
    }
}

/// Whether `error` is how the fault of a chain configuration is reported. How the refusal of a
/// chain name reads is left open.
pub open spec fn reports_fault(error: ErrorView, cfg: ChainConfigView, fault: ConfigFault) -> bool {
    match fault {
        ConfigFault::Endpoint => error == ErrorView::Config(
            "rpc_endpoint is required; supply the RPC URL for this chain (a grpc_endpoint cannot be substituted)"@,
        ),
        ConfigFault::Rates => error == ErrorView::Config(
            "gas price/adjustment must be finite and nonnegative/positive"@,
        ),
        ConfigFault::ChainId => error is Config,
        ConfigFault::Denom => error == ErrorView::Config(denom_error(cfg.denom)),
    }
}

impl ChainConfig {
    /// Checks the configuration, and returns the endpoint that it names.
    pub fn validate(&self) -> (result: Result<&str, ProcessError>)
        ensures
            match result {
                Ok(endpoint) => {
                    &&& config_fault(self@) is None
                    &&& self@.rpc_endpoint == Some(endpoint@)
                },
                Err(error) => config_fault(self@) is Some && reports_fault(
                    error@,
                    self@,
                    config_fault(self@)->0,
                ),
            },
    {
        let endpoint: &str = match &self.rpc_endpoint {
            Some(endpoint) => endpoint.as_str(),
            None => "",
        };
        if endpoint.unicode_len() == 0 {
            proof {
                reveal_strlit("");
            }
            return Err(
                ProcessError::Config(
                    "rpc_endpoint is required; supply the RPC URL for this chain (a grpc_endpoint cannot be substituted)".to_owned(),
                ),
            );
        }
        proof {
            reveal_strlit("");
        }
        if !self.gas_price.is_finite() || self.gas_price.is_below_zero()
            || !self.gas_adjustment.is_finite() || !self.gas_adjustment.is_above_zero() {
            return Err(
                ProcessError::Config(
                    "gas price/adjustment must be finite and nonnegative/positive".to_owned(),
                ),
            );
        }
        match parse_chain_id(&self.chain_id) {
            Ok(()) => {},
            Err(text) => return Err(ProcessError::Config(text)),
        }
        match parse_denom(&self.denom) {
            Ok(()) => {},
            Err(text) => return Err(ProcessError::Config(text)),
        }
        Ok(endpoint)
    }
}

/// Whether a configuration can be used does not depend on the endpoint of another protocol that it
/// may still hold, and such an endpoint never stands in for the one that is missing.
pub proof fn other_endpoint_is_never_used(cfg: ChainConfigView, other: Option<Seq<char>>)
    ensures
        config_fault(ChainConfigView { grpc_endpoint: other, ..cfg }) == config_fault(cfg),
        cfg.rpc_endpoint is None ==> config_fault(cfg) == Some(ConfigFault::Endpoint),
{
}

/// A configuration can be used exactly where it names an endpoint, its price is finite and not
/// below zero, its adjustment is finite and above zero, and its chain and its denomination are
/// named as such names are. Each fault is reported only of a configuration that has it, and never
/// of one that has a fault which is looked for earlier.
pub proof fn usable_configurations_have_no_fault(cfg: ChainConfigView)
    ensures
        ({
            let endpoint = cfg.rpc_endpoint is Some && cfg.rpc_endpoint->0.len() > 0;
            let rates = cfg.gas_price.finite() && !cfg.gas_price.below_zero()
                && cfg.gas_adjustment.finite() && cfg.gas_adjustment.above_zero();
            let chain = valid_chain_id(cfg.chain_id);
            let denom = valid_denom(cfg.denom);
            &&& config_fault(cfg) is None <==> endpoint && rates && chain && denom
            &&& config_fault(cfg) == Some(ConfigFault::Endpoint) <==> !endpoint
            &&& config_fault(cfg) == Some(ConfigFault::Rates) <==> endpoint && !rates
            &&& config_fault(cfg) == Some(ConfigFault::ChainId) <==> endpoint && rates && !chain
            &&& config_fault(cfg) == Some(ConfigFault::Denom) <==> endpoint && rates && chain
                && !denom
        }),
        forall|error: ErrorView, fault: ConfigFault| #[trigger]
            reports_fault(error, cfg, fault) ==> error is Config,
        forall|error: ErrorView| #[trigger]
            reports_fault(error, cfg, ConfigFault::Endpoint) ==> error == ErrorView::Config(
                "rpc_endpoint is required; supply the RPC URL for this chain (a grpc_endpoint cannot be substituted)"@,
            ),
        forall|error: ErrorView| #[trigger]
            reports_fault(error, cfg, ConfigFault::Rates) ==> error == ErrorView::Config(
                "gas price/adjustment must be finite and nonnegative/positive"@,
            ),
        forall|error: ErrorView| #[trigger]
            reports_fault(error, cfg, ConfigFault::Denom) ==> error == ErrorView::Config(
                denom_error(cfg.denom),
            ),
{
}

/// A configuration, and what is known of a contract, say all that they hold.
pub proof fn configurations_say_what_they_hold(cfg: ChainConfig, info: DeployInfo)
    ensures
        cfg@.denom == cfg.denom@,
        cfg@.prefix == cfg.prefix@,
        cfg@.chain_id == cfg.chain_id@,
        cfg@.derivation_path == cfg.derivation_path@,
        cfg@.gas_price == cfg.gas_price,
        cfg@.gas_adjustment == cfg.gas_adjustment,
        cfg@.rpc_endpoint == optional_text(cfg.rpc_endpoint),
        cfg@.grpc_endpoint == optional_text(cfg.grpc_endpoint),
        info@.code_id == info.code_id,
        info@.address == optional_text(info.address),
{
}

} // verus!
