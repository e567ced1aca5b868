//! The two authorization checks.

use vstd::prelude::*;

use crate::error::ContractError;
use crate::model::{is_authorized_minter, is_manager, ErrorV};
use crate::state::{Config, ContractState};

verus! {

/// Whether `x` occurs in `v`, compared by character content.
pub fn contains_string(v: &Vec<String>, x: &String) -> (r: bool)
    ensures
        r == v.deep_view().contains(x@),
{
    let mut i: usize = 0;
    while i < v.len()
        invariant
            i <= v@.len(),
            forall|j: int| 0 <= j < i ==> v@[j]@ != x@,
        decreases v@.len() - i,
    {
        if v[i] == *x {
            proof {
                assert(v.deep_view()[i as int] == x@);
            }
            return true;
        }
        i = i + 1;
    }
    proof {
        assert(forall|j: int|
            0 <= j < v.deep_view().len() ==> #[trigger] v.deep_view()[j] != x@);
    }
    false
}

/// The union rule of minting authority: the caller must stand in the
/// creation-time allow-list or hold a whitelist entry; anyone else is
/// refused.
pub fn is_whitelisted(state: &ContractState, sender: &String) -> (r: Result<(), ContractError>)
    ensures
        r is Ok <==> is_authorized_minter(state@, sender@),
        r is Err ==> r->Err_0@ == ErrorV::Unauthorized,
{
    if contains_string(&state.config.allowed_mint_addresses, sender) {
        Ok(())
    } else if contains_string(&state.whitelist, sender) {
        Ok(())
    } else {
        Err(ContractError::Unauthorized {})
    }
}

/// Only the configured manager passes; anyone else is refused.
pub fn is_contract_manager(config: &Config, sender: &String) -> (r: Result<(), ContractError>)
    ensures
        r is Ok <==> is_manager(config@, sender@),
        r is Err ==> r->Err_0@ == ErrorV::Unauthorized,
{
    if config.manager == *sender {
        Ok(())
    } else {
        Err(ContractError::Unauthorized {})
    }
}

} // verus!
