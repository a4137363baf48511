//! Closed enumerations of the contract and DEX names the query
//! collaborators dispatch on.
//!
//! The queries themselves marshal externally defined schemas and live
//! outside the library; what is decided here is which supported kind a
//! requested name denotes, with an unknown name rejected up front
//! rather than deep inside a query.

use crate::error::BotError;
use crate::text::str_eq;
use vstd::prelude::*;

verus! {

/// The decentralized exchanges the swap-pair queries support.
#[derive(Clone, Copy, Debug, PartialEq, Eq, Structural)]
pub enum DexKind {
    Terraswap,
    Astroport,
}

pub open spec fn spec_dex_of_name(name: Seq<char>) -> Result<DexKind, BotError> {
    if name == "terraswap"@ {
        Ok(DexKind::Terraswap)
    } else if name == "astroport"@ {
        Ok(DexKind::Astroport)
    } else {
        Err(BotError::UnknownDex)
    }
}

impl DexKind {
    /// Classify a DEX name: exactly `terraswap` and `astroport` are
    /// supported; any other name is an unknown DEX.
    pub fn from_name(name: &str) -> (r: Result<DexKind, BotError>)
        ensures
            r == spec_dex_of_name(name@),
    {
        if str_eq(name, "terraswap") {
            Ok(DexKind::Terraswap)
        } else if str_eq(name, "astroport") {
            Ok(DexKind::Astroport)
        } else {
            Err(BotError::UnknownDex)
        }
    }
}

/// The contracts the plain state query supports.
#[derive(Clone, Copy, Debug, PartialEq, Eq, Structural)]
pub enum StateContract {
    MoneyMarket,
    BassetHub,
}

pub open spec fn spec_state_contract_of_name(name: Seq<char>) -> Result<
    StateContract,
    BotError,
> {
    if name == "mmMarket"@ {
        Ok(StateContract::MoneyMarket)
    } else if name == "bLunaHub"@ {
        Ok(StateContract::BassetHub)
    } else {
        Err(BotError::UnknownContract)
    }
}

impl StateContract {
    /// Classify the contract of a state query: exactly `mmMarket` and
    /// `bLunaHub` are supported.
    pub fn from_name(name: &str) -> (r: Result<StateContract, BotError>)
        ensures
            r == spec_state_contract_of_name(name@),
    {
        if str_eq(name, "mmMarket") {
            Ok(StateContract::MoneyMarket)
        } else if str_eq(name, "bLunaHub") {
            Ok(StateContract::BassetHub)
        } else {
            Err(BotError::UnknownContract)
        }
    }
}

/// The contracts the epoch-state query supports.
#[derive(Clone, Copy, Debug, PartialEq, Eq, Structural)]
pub enum EpochStateContract {
    MoneyMarket,
}

pub open spec fn spec_epoch_state_contract_of_name(name: Seq<char>) -> Result<
    EpochStateContract,
    BotError,
> {
    if name == "mmMarket"@ {
        Ok(EpochStateContract::MoneyMarket)
    } else {
        Err(BotError::UnknownContract)
    }
}

impl EpochStateContract {
    /// Classify the contract of an epoch-state query: only `mmMarket`
    /// is supported.
    pub fn from_name(name: &str) -> (r: Result<EpochStateContract, BotError>)
        ensures
            r == spec_epoch_state_contract_of_name(name@),
    {
        if str_eq(name, "mmMarket") {
            Ok(EpochStateContract::MoneyMarket)
        } else {
            Err(BotError::UnknownContract)
        }
    }
}

/// The contracts the config query supports.
#[derive(Clone, Copy, Debug, PartialEq, Eq, Structural)]
pub enum ConfigContract {
    InterestModel,
    Collector,
}

pub open spec fn spec_config_contract_of_name(name: Seq<char>) -> Result<
    ConfigContract,
    BotError,
> {
    if name == "mmInterestModel"@ {
        Ok(ConfigContract::InterestModel)
    } else if name == "collector"@ {
        Ok(ConfigContract::Collector)
    } else {
        Err(BotError::UnknownContract)
    }
}

impl ConfigContract {
    /// Classify the contract of a config query: exactly
    /// `mmInterestModel` and `collector` are supported.
    pub fn from_name(name: &str) -> (r: Result<ConfigContract, BotError>)
        ensures
            r == spec_config_contract_of_name(name@),
    {
        if str_eq(name, "mmInterestModel") {
            Ok(ConfigContract::InterestModel)
        } else if str_eq(name, "collector") {
            Ok(ConfigContract::Collector)
        } else {
            Err(BotError::UnknownContract)
        }
    }
}

} // verus!
