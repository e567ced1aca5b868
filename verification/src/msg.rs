//! The request shapes the engine consumes.

use vstd::prelude::*;

use crate::model::{DenomV, ExecuteMsgV, InstantiateMsgV};
use crate::state::Config;

verus! {

/// A managed token denomination.  `amount` is request-scoped: it names how
/// much to mint when the denomination appears inside a mint request.
pub struct Denom {
    pub full_denom: String,
    pub amount: Option<u128>,
}

impl View for Denom {
    type V = DenomV;

    open spec fn view(&self) -> DenomV {
        DenomV { full_denom: self.full_denom@, amount: self.amount }
    }
}

impl DeepView for Denom {
    type V = DenomV;

    open spec fn deep_view(&self) -> DenomV {
        self@
    }
}

impl Clone for Denom {
    fn clone(&self) -> (r: Self)
        ensures
            r == *self,
    {
        Denom { full_denom: self.full_denom.clone(), amount: self.amount }
    }
}

/// The creation request.
pub struct InstantiateMsg {
    /// The manager of the contract; defaults to the caller when absent.
    pub manager: Option<String>,
    /// The initial allow-list of minting addresses.
    pub allowed_mint_addresses: Vec<String>,
    /// The managed denominations, fixed at creation.
    pub denoms: Vec<Denom>,
}

impl View for InstantiateMsg {
    type V = InstantiateMsgV;

    open spec fn view(&self) -> InstantiateMsgV {
        InstantiateMsgV {
            manager: self.manager.deep_view(),
            allowed_mint_addresses: self.allowed_mint_addresses.deep_view(),
            denoms: self.denoms.deep_view(),
        }
    }
}

/// The mutating requests.
#[allow(inconsistent_fields)]
pub enum ExecuteMsg {
    /// Burns the attached factory funds and returns the rest.  Anyone may
    /// call it.
    Burn {},
    /// Toggles a whitelist entry for each listed address.  Manager only.
    ModifyWhitelist { addresses: Vec<String> },
    /// Mints each requested denomination to an address.  Whitelisted callers
    /// only.
    Mint { address: String, denom: Vec<Denom> },
    /// Hands the external admin of a registered denomination to another
    /// address.  Manager only.
    TransferAdmin { denom: String, new_address: String },
}

impl View for ExecuteMsg {
    type V = ExecuteMsgV;

    open spec fn view(&self) -> ExecuteMsgV {
        match self {
            ExecuteMsg::Burn {} => ExecuteMsgV::Burn,
            ExecuteMsg::ModifyWhitelist { addresses } => ExecuteMsgV::ModifyWhitelist {
                addresses: addresses.deep_view(),
            },
            ExecuteMsg::Mint { address, denom } => ExecuteMsgV::Mint {
                address: address@,
                denom: denom.deep_view(),
            },
            ExecuteMsg::TransferAdmin { denom, new_address } => ExecuteMsgV::TransferAdmin {
                denom: denom@,
                new_address: new_address@,
            },
        }
    }
}

/// The read-only requests.
pub enum QueryMsg {
    GetConfig {},
    GetDenoms {},
}

/// The typed answer to a query; the host serializes it.
pub enum QueryAnswer {
    Config(Config),
    Denoms(Vec<Denom>),
}

} // verus!
