//! What an operation returns: attributes for auditing and effect
//! descriptions for the external ledger executor.

use vstd::prelude::*;

use crate::model::{AttributeV, CoinV, EffectV, ResponseV};

verus! {

/// A quantity of some denomination, as attached to a burn call.
pub struct Coin {
    pub denom: String,
    pub amount: u128,
}

impl View for Coin {
    type V = CoinV;

    open spec fn view(&self) -> CoinV {
        CoinV { denom: self.denom@, amount: self.amount }
    }
}

impl DeepView for Coin {
    type V = CoinV;

    open spec fn deep_view(&self) -> CoinV {
        self@
    }
}

impl Clone for Coin {
    fn clone(&self) -> (r: Self)
        ensures
            r == *self,
    {
        Coin { denom: self.denom.clone(), amount: self.amount }
    }
}

/// A human-readable key/value pair surfaced for auditing; never persisted.
pub struct Attribute {
    pub key: String,
    pub value: String,
}

impl View for Attribute {
    type V = AttributeV;

    open spec fn view(&self) -> AttributeV {
        AttributeV { key: self.key@, value: self.value@ }
    }
}

impl DeepView for Attribute {
    type V = AttributeV;

    open spec fn deep_view(&self) -> AttributeV {
        self@
    }
}

/// An instruction for the external ledger executor: the engine describes
/// the action, an external executor applies it.
#[allow(inconsistent_fields)]
pub enum Effect {
    MintTokens { denom: String, amount: u128, mint_to_address: String },
    BurnTokens { denom: String, amount: u128, burn_from_address: String },
    BankSend { to_address: String, amount: Vec<Coin> },
    ChangeAdmin { denom: String, new_admin_address: String },
}

impl View for Effect {
    type V = EffectV;

    open spec fn view(&self) -> EffectV {
        match self {
            Effect::MintTokens { denom, amount, mint_to_address } => EffectV::MintTokens {
                denom: denom@,
                amount: *amount,
                mint_to_address: mint_to_address@,
            },
            Effect::BurnTokens { denom, amount, burn_from_address } => EffectV::BurnTokens {
                denom: denom@,
                amount: *amount,
                burn_from_address: burn_from_address@,
            },
            Effect::BankSend { to_address, amount } => EffectV::BankSend {
                to_address: to_address@,
                amount: amount.deep_view(),
            },
            Effect::ChangeAdmin { denom, new_admin_address } => EffectV::ChangeAdmin {
                denom: denom@,
                new_admin_address: new_admin_address@,
            },
        }
    }
}

impl DeepView for Effect {
    type V = EffectV;

    open spec fn deep_view(&self) -> EffectV {
        self@
    }
}

/// What an operation hands back to the host on success.
pub struct Response {
    pub attributes: Vec<Attribute>,
    pub messages: Vec<Effect>,
}

impl View for Response {
    type V = ResponseV;

    open spec fn view(&self) -> ResponseV {
        ResponseV { attributes: self.attributes.deep_view(), messages: self.messages.deep_view() }
    }
}

} // verus!
