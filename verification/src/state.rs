//! The durable state: the configuration record and the whitelist entries.

use vstd::prelude::*;

use crate::model::{ConfigV, StateV};
use crate::msg::Denom;

verus! {

/// The singleton configuration, created once and never deleted.
pub struct Config {
    /// The single address allowed to alter the whitelist and reassign a
    /// denomination's admin.
    pub manager: String,
    /// The initial allow-list of minting addresses, fixed at creation.
    pub allowed_mint_addresses: Vec<String>,
    /// The managed denominations, fixed at creation.
    pub denoms: Vec<Denom>,
}

impl View for Config {
    type V = ConfigV;

    open spec fn view(&self) -> ConfigV {
        ConfigV {
            manager: self.manager@,
            allowed_mint_addresses: self.allowed_mint_addresses.deep_view(),
            denoms: self.denoms.deep_view(),
        }
    }
}

impl Clone for Config {
    fn clone(&self) -> (r: Self)
        ensures
            r@ == self@,
    {
        Config {
            manager: self.manager.clone(),
            allowed_mint_addresses: clone_strings(&self.allowed_mint_addresses),
            denoms: clone_denoms(&self.denoms),
        }
    }
}

/// An element-wise copy of a list of addresses.
pub fn clone_strings(v: &Vec<String>) -> (r: Vec<String>)
    ensures
        r.deep_view() == v.deep_view(),
        r@.len() == v@.len(),
{
    let mut r: Vec<String> = Vec::new();
    let mut i: usize = 0;
    while i < v.len()
        invariant
            i <= v@.len(),
            r@.len() == i,
            forall|j: int| 0 <= j < i ==> r@[j]@ == v@[j]@,
        decreases v@.len() - i,
    {
        r.push(v[i].clone());
        i = i + 1;
    }
    proof {
        assert(r.deep_view() =~= v.deep_view());
    }
    r
}

/// An element-wise copy of a list of denominations.
pub fn clone_denoms(v: &Vec<Denom>) -> (r: Vec<Denom>)
    ensures
        r.deep_view() == v.deep_view(),
        r@.len() == v@.len(),
{
    let mut r: Vec<Denom> = Vec::new();
    let mut i: usize = 0;
    while i < v.len()
        invariant
            i <= v@.len(),
            r@.len() == i,
            forall|j: int| 0 <= j < i ==> r@[j] == v@[j],
        decreases v@.len() - i,
    {
        r.push(v[i].clone());
        i = i + 1;
    }
    proof {
        assert(r.deep_view() =~= v.deep_view());
    }
    r
}

/// The whole durable state of one deployment: the configuration plus the
/// addresses holding a post-creation whitelist entry.  The host shim loads
/// it before an operation and persists it afterwards; within an operation it
/// is just a value.
pub struct ContractState {
    pub config: Config,
    /// The addresses with a whitelist entry; each appears at most once.
    pub whitelist: Vec<String>,
}

impl View for ContractState {
    type V = StateV;

    open spec fn view(&self) -> StateV {
        StateV { config: self.config@, whitelist: self.whitelist.deep_view().to_set() }
    }
}

/// No two entries carry the same characters.
pub open spec fn distinct_strings(wl: Seq<String>) -> bool {
    forall|i: int, j: int| 0 <= i < j < wl.len() ==> wl[i]@ != wl[j]@
}

impl ContractState {
    /// The whitelist holds each address at most once, so that removing the
    /// one entry of an address removes the address from the set.
    pub open spec fn wf(&self) -> bool {
        distinct_strings(self.whitelist@)
    }
}

} // verus!
