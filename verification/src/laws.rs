//! Properties of the engine, proved once and for all over the model.
//!
//! Each law is a public proof function; its inputs are universally
//! quantified, so it holds of every state and request of these types.

use vstd::prelude::*;

use crate::model::{
    denom_registered, find_denom, first_bad_denom, first_mint_issue, has_factory_prefix,
    is_authorized_minter, is_manager, resolve_manager, spec_instantiate, spec_mint,
    spec_modify_whitelist, spec_transfer_admin, toggle, toggle_all, DenomV, EffectV, ErrorV,
    InstantiateMsgV, ResponseV, StateV,
};

verus! {

/// A sequence holding an unprefixed denomination has a first unprefixed
/// denomination.
proof fn lemma_first_bad_denom_some(denoms: Seq<DenomV>, i: int)
    requires
        0 <= i < denoms.len(),
        !has_factory_prefix(denoms[i].full_denom),
    ensures
        first_bad_denom(denoms) matches Some(bad) && !has_factory_prefix(bad.full_denom),
    decreases denoms.len(),
{
    if has_factory_prefix(denoms.first().full_denom) {
        lemma_first_bad_denom_some(denoms.drop_first(), i - 1);
    }
}

/// Creation is all-or-nothing on the prefix rule: a request holding any
/// denomination without the reserved prefix fails with an invalid-denom
/// error, and no state — so no configuration to persist — is produced.
pub proof fn law_create_rejects_unprefixed(sender: Seq<char>, msg: InstantiateMsgV, i: int)
    requires
        0 <= i < msg.denoms.len(),
        !has_factory_prefix(msg.denoms[i].full_denom),
    ensures
        spec_instantiate(sender, msg) is Err,
        spec_instantiate(sender, msg)->Err_0 is InvalidDenom,
{
    lemma_first_bad_denom_some(msg.denoms, i);
}

/// A caller neither in the allow-list nor holding a whitelist entry cannot
/// mint, whatever the request: the call fails with the authorization error
/// and emits nothing.
pub proof fn law_mint_unauthorized(
    s: StateV,
    sender: Seq<char>,
    target: Seq<char>,
    req: Seq<DenomV>,
)
    requires
        !is_authorized_minter(s, sender),
    ensures
        spec_mint(s, sender, target, req) == Err::<ResponseV, ErrorV>(ErrorV::Unauthorized),
{
}

/// An empty mint request always fails — so zero instructions are emitted —
/// and an authorized caller sees exactly the empty-request error.
pub proof fn law_mint_empty_request(s: StateV, sender: Seq<char>, target: Seq<char>)
    ensures
        spec_mint(s, sender, target, Seq::empty()) is Err,
        is_authorized_minter(s, sender) ==> spec_mint(s, sender, target, Seq::empty())
            == Err::<ResponseV, ErrorV>(
            ErrorV::InvalidDenom {
                denom: "denoms"@,
                message: "denoms cannot be empty on mint"@,
            },
        ),
{
}

/// A request holding an unregistered denomination has a first mint issue.
proof fn lemma_first_mint_issue_some(reg: Seq<DenomV>, req: Seq<DenomV>, i: int)
    requires
        0 <= i < req.len(),
        !denom_registered(reg, req[i].full_denom),
    ensures
        first_mint_issue(reg, req) is Some,
    decreases req.len(),
{
    match find_denom(reg, req.first().full_denom) {
        None => {},
        Some(entry) => {
            if entry.amount is Some {
                lemma_first_mint_issue_some(reg, req.drop_first(), i - 1);
            }
        },
    }
}

/// Minting is all-or-nothing: a request naming any denomination absent
/// from the registry fails as a whole, so an earlier valid denomination in
/// the same request is not partially minted.
pub proof fn law_mint_unregistered_denom(
    s: StateV,
    sender: Seq<char>,
    target: Seq<char>,
    req: Seq<DenomV>,
    i: int,
)
    requires
        0 <= i < req.len(),
        !denom_registered(s.config.denoms, req[i].full_denom),
    ensures
        spec_mint(s, sender, target, req) is Err,
{
    if is_authorized_minter(s, sender) {
        lemma_first_mint_issue_some(s.config.denoms, req, i);
    }
}

/// One toggle is its own inverse on the whitelist set.
pub proof fn law_toggle_involution(wl: Set<Seq<char>>, addr: Seq<char>)
    ensures
        toggle(toggle(wl, addr), addr) == wl,
{
    if wl.contains(addr) {
        assert(wl.remove(addr).insert(addr) =~= wl);
    } else {
        assert(wl.insert(addr).remove(addr) =~= wl);
    }
}

/// Toggling a single address is the whitelist toggle of that address.
proof fn lemma_toggle_all_singleton(wl: Set<Seq<char>>, addr: Seq<char>)
    ensures
        toggle_all(wl, seq![addr]) == toggle(wl, addr),
{
    assert(seq![addr].first() == addr);
    assert(seq![addr].drop_first() =~= Seq::<Seq<char>>::empty());
    assert(toggle_all(toggle(wl, addr), Seq::<Seq<char>>::empty()) == toggle(wl, addr));
}

/// Two whitelist modifications by the manager with the same single address
/// and nothing in between return the state — configuration and whitelist —
/// to exactly what it was.
pub proof fn law_modify_whitelist_twice(s: StateV, sender: Seq<char>, addr: Seq<char>)
    requires
        is_manager(s.config, sender),
    ensures
        ({
            let once = spec_modify_whitelist(s, sender, seq![addr])->Ok_0.0;
            spec_modify_whitelist(once, sender, seq![addr])->Ok_0.0 == s
        }),
{
    lemma_toggle_all_singleton(s.whitelist, addr);
    lemma_toggle_all_singleton(toggle(s.whitelist, addr), addr);
    law_toggle_involution(s.whitelist, addr);
}

/// Admin transfer succeeds only for the manager; every other caller gets
/// the authorization error and no instruction.  For the manager and a
/// registered denomination, exactly one change-admin instruction is
/// emitted and the state is untouched by construction.
pub proof fn law_transfer_admin_manager_only(
    s: StateV,
    sender: Seq<char>,
    denom: Seq<char>,
    new_address: Seq<char>,
)
    ensures
        spec_transfer_admin(s, sender, denom, new_address) is Ok ==> is_manager(s.config, sender),
        !is_manager(s.config, sender) ==> spec_transfer_admin(s, sender, denom, new_address)
            == Err::<ResponseV, ErrorV>(ErrorV::Unauthorized),
        (is_manager(s.config, sender) && denom_registered(s.config.denoms, denom)) ==> ({
            let resp = spec_transfer_admin(s, sender, denom, new_address)->Ok_0;
            resp.messages.len() == 1 && (resp.messages[0] matches EffectV::ChangeAdmin {
                new_admin_address,
                ..
            } && new_admin_address == new_address)
        }),
{
}

/// Reading the configuration after creation gives back exactly the
/// validated inputs: the resolved manager, the allow-list and the
/// denomination list, unchanged.
pub proof fn law_create_read_back(sender: Seq<char>, msg: InstantiateMsgV)
    requires
        spec_instantiate(sender, msg) is Ok,
    ensures
        ({
            let st = spec_instantiate(sender, msg)->Ok_0.0;
            st.config.manager == resolve_manager(msg.manager, sender)
                && st.config.allowed_mint_addresses == msg.allowed_mint_addresses
                && st.config.denoms == msg.denoms && st.whitelist == Set::<Seq<char>>::empty()
        }),
{
}

} // verus!
