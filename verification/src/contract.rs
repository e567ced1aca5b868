//! The verified operations: creation, the four state transitions, and the
//! queries.  Each is proved equal to its spec function in `model`.

use vstd::prelude::*;

use crate::decimal::u128_to_dec;
use crate::error::ContractError;
use crate::helpers::{is_contract_manager, is_whitelisted};
use crate::model::{
    denom_registered, factory_funds, find_denom, first_bad_denom, first_mint_issue, foreign_funds,
    has_factory_prefix, is_authorized_minter, lemma_toggle_all_push, mint_error, mint_messages,
    mint_pair_text, mint_summary_text, spec_burn, spec_execute, spec_instantiate, spec_mint,
    spec_modify_whitelist, spec_transfer_admin, toggle, toggle_all, AttributeV, CoinV, DenomV,
    EffectV, ErrorV, ResponseV, StateV,
};
use crate::msg::{Denom, ExecuteMsg, InstantiateMsg, QueryAnswer, QueryMsg};
use crate::response::{Attribute, Coin, Effect, Response};
use crate::state::{clone_denoms, distinct_strings, Config, ContractState};

verus! {

/// The character at position `i` of the reserved prefix.
fn factory_char(i: usize) -> (c: char)
    requires
        i < 8,
    ensures
        c == "factory/"@[i as int],
{
    proof {
        reveal_strlit("factory/");
    }
    if i == 0 {
        'f'
    } else if i == 1 {
        'a'
    } else if i == 2 {
        'c'
    } else if i == 3 {
        't'
    } else if i == 4 {
        'o'
    } else if i == 5 {
        'r'
    } else if i == 6 {
        'y'
    } else {
        '/'
    }
}

/// Whether `s` begins with the reserved `factory/` prefix.
pub fn has_prefix_factory(s: &String) -> (r: bool)
    ensures
        r == has_factory_prefix(s@),
{
    proof {
        reveal_strlit("factory/");
    }
    let st = s.as_str();
    let n = st.unicode_len();
    if n < 8 {
        return false;
    }
    let mut i: usize = 0;
    while i < 8
        invariant
            i <= 8,
            n == s@.len(),
            8 <= n,
            st@ == s@,
            forall|j: int| 0 <= j < i ==> s@[j] == "factory/"@[j],
        decreases 8 - i,
    {
        let c = st.get_char(i);
        let e = factory_char(i);
        if c != e {
            proof {
                assert(s@.subrange(0, 8)[i as int] == s@[i as int]);
            }
            return false;
        }
        i = i + 1;
    }
    proof {
        assert(s@.subrange(0, 8) =~= "factory/"@);
    }
    true
}

/// The index of the first registry entry named `name`, if any.
fn find_denom_idx(denoms: &Vec<Denom>, name: &String) -> (r: Option<usize>)
    ensures
        (r matches Some(i) ==> i < denoms@.len() && denoms@[i as int].full_denom@ == name@
            && find_denom(denoms.deep_view(), name@) == Some(denoms.deep_view()[i as int])),
        (r is None ==> find_denom(denoms.deep_view(), name@) is None),
{
    let ghost s = denoms.deep_view();
    proof {
        assert(s.skip(0) =~= s);
    }
    let mut i: usize = 0;
    while i < denoms.len()
        invariant
            i <= s.len(),
            s.len() == denoms@.len(),
            s == denoms.deep_view(),
            find_denom(s, name@) == find_denom(s.skip(i as int), name@),
        decreases s.len() - i,
    {
        proof {
            assert(s[i as int] == denoms@[i as int]@);
            assert(s.skip(i as int)[0] == s[i as int]);
        }
        if denoms[i].full_denom == *name {
            return Some(i);
        }
        proof {
            assert(s.skip(i as int).drop_first() =~= s.skip(i as int + 1));
        }
        i = i + 1;
    }
    proof {
        assert(s.skip(i as int) =~= Seq::<DenomV>::empty());
    }
    None
}

/// Whether some registry entry is named `name`.
pub fn denom_found(denoms: &Vec<Denom>, name: &String) -> (r: bool)
    ensures
        r == denom_registered(denoms.deep_view(), name@),
{
    match find_denom_idx(denoms, name) {
        Some(_) => true,
        None => false,
    }
}

/// The index of the first denomination lacking the reserved prefix, if any.
fn first_bad_idx(denoms: &Vec<Denom>) -> (r: Option<usize>)
    ensures
        (r matches Some(i) ==> i < denoms@.len() && first_bad_denom(denoms.deep_view()) == Some(
            denoms.deep_view()[i as int],
        )),
        (r is None ==> first_bad_denom(denoms.deep_view()) is None),
{
    let ghost s = denoms.deep_view();
    proof {
        assert(s.skip(0) =~= s);
    }
    let mut i: usize = 0;
    while i < denoms.len()
        invariant
            i <= s.len(),
            s.len() == denoms@.len(),
            s == denoms.deep_view(),
            first_bad_denom(s) == first_bad_denom(s.skip(i as int)),
        decreases s.len() - i,
    {
        proof {
            assert(s[i as int] == denoms@[i as int]@);
            assert(s.skip(i as int)[0] == s[i as int]);
        }
        if !has_prefix_factory(&denoms[i].full_denom) {
            return Some(i);
        }
        proof {
            assert(s.skip(i as int).drop_first() =~= s.skip(i as int + 1));
        }
        i = i + 1;
    }
    proof {
        assert(s.skip(i as int) =~= Seq::<DenomV>::empty());
    }
    None
}

/// Creation.  Checks every denomination's prefix, resolves the manager
/// (defaulting to the caller), and returns the initial state together with
/// the response — or the first prefix error, producing nothing.  The host
/// shim validates the resolved manager address afterwards and persists the
/// state.
pub fn instantiate(sender: &String, msg: InstantiateMsg) -> (r: Result<
    (ContractState, Response),
    ContractError,
>)
    ensures
        (r matches Ok(ok) ==> spec_instantiate(sender@, msg@) matches Ok(sp) && sp.0 == ok.0@
            && sp.1 == ok.1@ && ok.0.wf()),
        (r matches Err(e) ==> spec_instantiate(sender@, msg@) == Err::<
            (StateV, ResponseV),
            ErrorV,
        >(e@)),
{
    let ghost m = msg@;
    if let Some(i) = first_bad_idx(&msg.denoms) {
        return Err(
            ContractError::InvalidDenom {
                denom: msg.denoms[i].full_denom.clone(),
                message: String::from_str("Denom must start with 'factory/'"),
            },
        );
    }
    let InstantiateMsg { manager, allowed_mint_addresses, denoms } = msg;
    let resolved: String = match manager {
        Some(m) => m,
        None => sender.clone(),
    };
    let config = Config { manager: resolved, allowed_mint_addresses, denoms };
    let state = ContractState { config, whitelist: Vec::new() };
    let mut attributes: Vec<Attribute> = Vec::new();
    attributes.push(
        Attribute { key: String::from_str("method"), value: String::from_str("instantiate") },
    );
    let resp = Response { attributes, messages: Vec::new() };
    proof {
        assert(state@.whitelist =~= Set::<Seq<char>>::empty());
        assert(resp@.attributes =~= spec_instantiate(sender@, m)->Ok_0.1.attributes);
        assert(resp@.messages =~= Seq::<crate::model::EffectV>::empty());
    }
    Ok((state, resp))
}

/// Admin transfer.  Manager only; the denomination must be registered; the
/// state itself never changes — a single change-admin instruction is
/// emitted for the external ledger.
pub fn execute_transfer_admin(
    state: &ContractState,
    sender: &String,
    denom: String,
    new_address: String,
) -> (r: Result<Response, ContractError>)
    ensures
        (r matches Ok(resp) ==> spec_transfer_admin(state@, sender@, denom@, new_address@)
            == Ok::<ResponseV, ErrorV>(resp@)),
        (r matches Err(e) ==> spec_transfer_admin(state@, sender@, denom@, new_address@)
            == Err::<ResponseV, ErrorV>(e@)),
{
    if let Err(e) = is_contract_manager(&state.config, sender) {
        return Err(e);
    }
    match find_denom_idx(&state.config.denoms, &denom) {
        None => Err(
            ContractError::InvalidDenom {
                denom,
                message: String::from_str("Denom not found in state"),
            },
        ),
        Some(i) => {
            let mut attributes: Vec<Attribute> = Vec::new();
            attributes.push(
                Attribute {
                    key: String::from_str("method"),
                    value: String::from_str("execute_transfer_admin"),
                },
            );
            attributes.push(
                Attribute { key: String::from_str("new_admin"), value: new_address.clone() },
            );
            let mut messages: Vec<Effect> = Vec::new();
            messages.push(
                Effect::ChangeAdmin {
                    denom: state.config.denoms[i].full_denom.clone(),
                    new_admin_address: new_address,
                },
            );
            let resp = Response { attributes, messages };
            proof {
                let sp = spec_transfer_admin(state@, sender@, denom@, new_address@);
                assert(resp@.attributes =~= sp->Ok_0.attributes);
                assert(resp@.messages =~= sp->Ok_0.messages);
            }
            Ok(resp)
        },
    }
}

/// The index of the entry spelled like `x`, if any.
fn index_of_string(v: &Vec<String>, x: &String) -> (r: Option<usize>)
    ensures
        (r matches Some(i) ==> i < v@.len() && v@[i as int]@ == x@),
        (r is None ==> !v.deep_view().contains(x@)),
{
    let mut i: usize = 0;
    while i < v.len()
        invariant
            i <= v@.len(),
            forall|j: int| 0 <= j < i ==> v@[j]@ != x@,
        decreases v@.len() - i,
    {
        if v[i] == *x {
            return Some(i);
        }
        i = i + 1;
    }
    proof {
        assert(forall|j: int|
            0 <= j < v.deep_view().len() ==> #[trigger] v.deep_view()[j] != x@);
    }
    None
}

/// One whitelist toggle: removes the entry spelled like `addr` if one
/// exists, else appends one.
fn toggle_entry(wl: &mut Vec<String>, addr: &String)
    requires
        distinct_strings(old(wl)@),
    ensures
        distinct_strings(final(wl)@),
        final(wl).deep_view().to_set() == toggle(old(wl).deep_view().to_set(), addr@),
{
    let ghost s0 = old(wl).deep_view();
    match index_of_string(wl, addr) {
        Some(i) => {
            wl.remove(i);
            proof {
                let s1 = wl.deep_view();
                old(wl)@.remove_ensures(i as int);
                assert(forall|k: int| 0 <= k < i ==> wl@[k] == old(wl)@[k]);
                assert(forall|k: int| i <= k < wl@.len() ==> wl@[k] == old(wl)@[k + 1]);
                assert forall|p: int, q: int| 0 <= p < q < wl@.len() implies wl@[p]@
                    != wl@[q]@ by {
                    let p0: int = if p < i { p } else { p + 1 };
                    let q0: int = if q < i { q } else { q + 1 };
                    assert(wl@[p] == old(wl)@[p0]);
                    assert(wl@[q] == old(wl)@[q0]);
                }
                assert(forall|k: int| 0 <= k < s1.len() ==> #[trigger] s1[k] == wl@[k]@);
                assert(forall|k: int| 0 <= k < s0.len() ==> #[trigger] s0[k] == old(wl)@[k]@);
                assert(s0.contains(s0[i as int]));
                assert forall|x: Seq<char>| s1.contains(x) implies s0.contains(x) && x != addr@ by {
                    let k = choose|k: int| 0 <= k < s1.len() && s1[k] == x;
                    if k < i {
                        assert(s0[k] == x);
                    } else {
                        assert(s0[k + 1] == x);
                    }
                }
                assert forall|x: Seq<char>| s0.contains(x) && x != addr@ implies s1.contains(x) by {
                    let j = choose|j: int| 0 <= j < s0.len() && s0[j] == x;
                    if j < i {
                        assert(s1[j] == x);
                    } else {
                        assert(j != i);
                        assert(s1[j - 1] == x);
                    }
                }
                assert(s1.to_set() =~= s0.to_set().remove(addr@));
            }
        },
        None => {
            wl.push(addr.clone());
            proof {
                let s1 = wl.deep_view();
                assert(forall|k: int| 0 <= k < s0.len() ==> wl@[k] == old(wl)@[k]);
                assert(forall|k: int| 0 <= k < s1.len() ==> #[trigger] s1[k] == wl@[k]@);
                assert(forall|k: int| 0 <= k < s0.len() ==> #[trigger] s0[k] == old(wl)@[k]@);
                assert forall|j: int| 0 <= j < s0.len() implies old(wl)@[j]@ != addr@ by {
                    if old(wl)@[j]@ == addr@ {
                        assert(s0[j] == addr@);
                        assert(s0.contains(addr@));
                    }
                }
                assert forall|x: Seq<char>| s1.contains(x) implies s0.contains(x) || x == addr@ by {
                    let k = choose|k: int| 0 <= k < s1.len() && s1[k] == x;
                    if k < s0.len() {
                        assert(s0[k] == x);
                    }
                }
                assert forall|x: Seq<char>| s0.contains(x) implies s1.contains(x) by {
                    let j = choose|j: int| 0 <= j < s0.len() && s0[j] == x;
                    assert(s1[j] == x);
                }
                assert(s1[s0.len() as int] == addr@);
                assert(s1.to_set() =~= s0.to_set().insert(addr@));
            }
        },
    }
}

/// Whitelist modification.  Manager only; each listed address is toggled in
/// order, a later occurrence of the same address re-toggling it; the
/// response is empty.  The host shim validates the addresses first.
pub fn execute_modify_whitelist(
    state: &mut ContractState,
    sender: &String,
    addresses: &Vec<String>,
) -> (r: Result<Response, ContractError>)
    requires
        old(state).wf(),
    ensures
        final(state).wf(),
        (r matches Ok(resp) ==> spec_modify_whitelist(old(state)@, sender@, addresses.deep_view())
            matches Ok(sp) && sp.0 == final(state)@ && sp.1 == resp@),
        (r matches Err(e) ==> spec_modify_whitelist(old(state)@, sender@, addresses.deep_view())
            == Err::<(StateV, ResponseV), ErrorV>(e@) && *final(state) == *old(state)),
{
    if let Err(e) = is_contract_manager(&state.config, sender) {
        return Err(e);
    }
    let ghost a = addresses.deep_view();
    let ghost w0 = old(state)@.whitelist;
    proof {
        assert(a.take(0) =~= Seq::<Seq<char>>::empty());
    }
    let mut i: usize = 0;
    while i < addresses.len()
        invariant
            i <= a.len(),
            a.len() == addresses@.len(),
            a == addresses.deep_view(),
            state.wf(),
            state.config == old(state).config,
            w0 == old(state)@.whitelist,
            state@.whitelist == toggle_all(w0, a.take(i as int)),
        decreases a.len() - i,
    {
        proof {
            assert(a[i as int] == addresses@[i as int]@);
        }
        toggle_entry(&mut state.whitelist, &addresses[i]);
        proof {
            assert(a.take(i as int).push(a[i as int]) =~= a.take(i as int + 1));
            lemma_toggle_all_push(w0, a.take(i as int), a[i as int]);
        }
        i = i + 1;
    }
    let resp = Response { attributes: Vec::new(), messages: Vec::new() };
    proof {
        assert(a.take(a.len() as int) =~= a);
        assert(resp@.attributes =~= Seq::<AttributeV>::empty());
        assert(resp@.messages =~= Seq::<EffectV>::empty());
    }
    Ok(resp)
}

/// The checks of a mint call, alone: the caller's authorization, the
/// non-empty rule, and each requested denomination's presence in the
/// registry with its amount field set, in request order.  `Ok` means a
/// mint of this request by this caller is allowed to proceed.
pub fn check_mint(state: &ContractState, sender: &String, denoms: &Vec<Denom>) -> (r: Result<
    (),
    ContractError,
>)
    ensures
        r is Ok <==> mint_error(state@, sender@, denoms.deep_view()) is None,
        (r matches Err(e) ==> mint_error(state@, sender@, denoms.deep_view())
            == Some(e@)),
{
    let ghost req = denoms.deep_view();
    let ghost reg = state@.config.denoms;
    if let Err(e) = is_whitelisted(state, sender) {
        return Err(e);
    }
    if denoms.len() == 0 {
        return Err(
            ContractError::InvalidDenom {
                denom: String::from_str("denoms"),
                message: String::from_str("denoms cannot be empty on mint"),
            },
        );
    }
    proof {
        assert(req.skip(0) =~= req);
    }
    let mut i: usize = 0;
    while i < denoms.len()
        invariant
            i <= req.len(),
            req.len() == denoms@.len(),
            req == denoms.deep_view(),
            reg == state@.config.denoms,
            is_authorized_minter(state@, sender@),
            req.len() > 0,
            first_mint_issue(reg, req) == first_mint_issue(reg, req.skip(i as int)),
        decreases req.len() - i,
    {
        proof {
            assert(req[i as int] == denoms@[i as int]@);
            assert(req.skip(i as int)[0] == req[i as int]);
        }
        match find_denom_idx(&state.config.denoms, &denoms[i].full_denom) {
            None => {
                return Err(
                    ContractError::InvalidDenom {
                        denom: denoms[i].full_denom.clone(),
                        message: String::from_str("Denom not found in state"),
                    },
                );
            },
            Some(idx) => {
                proof {
                    assert(state.config.denoms.deep_view()[idx as int] == state.config.denoms@[
                        idx as int]@);
                }
                if state.config.denoms[idx].amount.is_none() {
                    return Err(
                        ContractError::InvalidDenom {
                            denom: state.config.denoms[idx].full_denom.clone(),
                            message: String::from_str("Denom does not have amount set"),
                        },
                    );
                }
            },
        }
        proof {
            assert(req.skip(i as int).drop_first() =~= req.skip(i as int + 1));
        }
        i = i + 1;
    }
    proof {
        assert(req.skip(req.len() as int) =~= Seq::<DenomV>::empty());
    }
    Ok(())
}

/// Whether every denomination of a mint request spells out its amount.
/// The mint operation demands this of a request that passes its checks;
/// the host shim refuses a request that omits one, as the ledger has no
/// amount to mint otherwise.
pub fn mint_request_complete(denoms: &Vec<Denom>) -> (r: bool)
    ensures
        r == (forall|i: int|
            0 <= i < denoms.deep_view().len() ==> denoms.deep_view()[i].amount is Some),
{
    let mut i: usize = 0;
    while i < denoms.len()
        invariant
            i <= denoms@.len(),
            forall|j: int| 0 <= j < i ==> denoms@[j].amount is Some,
        decreases denoms@.len() - i,
    {
        proof {
            assert(denoms.deep_view()[i as int] == denoms@[i as int]@);
        }
        if denoms[i].amount.is_none() {
            return false;
        }
        i = i + 1;
    }
    proof {
        assert(forall|j: int|
            0 <= j < denoms.deep_view().len() ==> #[trigger] denoms.deep_view()[j].amount
                == denoms@[j]@.amount);
    }
    true
}

/// Mint.  The caller must be whitelisted, the request must be non-empty,
/// and every requested denomination must match a registry entry whose
/// amount field is set; the first violation in request order aborts the
/// whole call.  On success one mint instruction is emitted per requested
/// denomination, in request order, carrying the amount given in the
/// request, plus a summary attribute of all `{denom: amount}` pairs.
///
/// A request that would otherwise succeed must spell out every amount, so
/// the precondition asks for amounts exactly where the checks pass; the
/// host shim rejects a request that omits one.
pub fn execute_mint(
    state: &ContractState,
    sender: &String,
    address: String,
    denoms: Vec<Denom>,
) -> (r: Result<Response, ContractError>)
    requires
        spec_mint(state@, sender@, address@, denoms.deep_view()) is Ok ==> (forall|i: int|
            0 <= i < denoms.deep_view().len() ==> denoms.deep_view()[i].amount is Some),
    ensures
        (r matches Ok(resp) ==> spec_mint(state@, sender@, address@, denoms.deep_view())
            == Ok::<ResponseV, ErrorV>(resp@)),
        (r matches Err(e) ==> spec_mint(state@, sender@, address@, denoms.deep_view())
            == Err::<ResponseV, ErrorV>(e@)),
{
    let ghost req = denoms.deep_view();
    if let Err(e) = check_mint(state, sender, &denoms) {
        return Err(e);
    }
    proof {
        assert(spec_mint(state@, sender@, address@, req) is Ok);
    }
    let mut messages: Vec<Effect> = Vec::new();
    let mut k: usize = 0;
    while k < denoms.len()
        invariant
            k <= req.len(),
            req.len() == denoms@.len(),
            req == denoms.deep_view(),
            forall|j: int| 0 <= j < req.len() ==> req[j].amount is Some,
            messages@.len() == k,
            forall|j: int|
                0 <= j < k ==> messages.deep_view()[j] == (EffectV::MintTokens {
                    denom: req[j].full_denom,
                    amount: req[j].amount->Some_0,
                    mint_to_address: address@,
                }),
        decreases req.len() - k,
    {
        proof {
            assert(req[k as int] == denoms@[k as int]@);
        }
        let amt = denoms[k].amount.unwrap();
        let ghost m0 = messages.deep_view();
        messages.push(
            Effect::MintTokens {
                denom: denoms[k].full_denom.clone(),
                amount: amt,
                mint_to_address: address.clone(),
            },
        );
        proof {
            assert(messages.deep_view() =~= m0.push(
                EffectV::MintTokens {
                    denom: req[k as int].full_denom,
                    amount: req[k as int].amount->Some_0,
                    mint_to_address: address@,
                },
            ));
        }
        k = k + 1;
    }
    let mut summary = String::new();
    proof {
        assert(req.take(0) =~= Seq::<DenomV>::empty());
        assert(summary@ =~= Seq::<char>::empty());
    }
    let mut k: usize = 0;
    while k < denoms.len()
        invariant
            k <= req.len(),
            req.len() == denoms@.len(),
            req == denoms.deep_view(),
            forall|j: int| 0 <= j < req.len() ==> req[j].amount is Some,
            summary@ == mint_summary_text(req.take(k as int)),
        decreases req.len() - k,
    {
        proof {
            assert(req[k as int] == denoms@[k as int]@);
        }
        if k > 0 {
            summary.append(", ");
        }
        summary.append("{");
        summary.append(denoms[k].full_denom.as_str());
        summary.append(": ");
        let amt_str = u128_to_dec(denoms[k].amount.unwrap());
        summary.append(amt_str.as_str());
        summary.append("}");
        proof {
            assert(req.take(k as int + 1).drop_last() =~= req.take(k as int));
            assert(req.take(k as int + 1).last() == req[k as int]);
            if k == 0 {
                assert(req.take(1)[0] == req[0]);
                assert(mint_summary_text(req.take(1)) == mint_pair_text(req[0]));
                assert(summary@ =~= mint_pair_text(req[0]));
            } else {
                assert(mint_summary_text(req.take(k as int + 1)) == mint_summary_text(
                    req.take(k as int),
                ) + ", "@ + mint_pair_text(req[k as int]));
                assert(summary@ =~= mint_summary_text(req.take(k as int)) + ", "@ + mint_pair_text(
                    req[k as int],
                ));
            }
        }
        k = k + 1;
    }
    let mut attributes: Vec<Attribute> = Vec::new();
    attributes.push(
        Attribute { key: String::from_str("method"), value: String::from_str("execute_mint") },
    );
    attributes.push(Attribute { key: String::from_str("to_address"), value: address.clone() });
    attributes.push(Attribute { key: String::from_str("denoms"), value: summary });
    let resp = Response { attributes, messages };
    proof {
        assert(req.take(req.len() as int) =~= req);
        let sp = spec_mint(state@, sender@, address@, req);
        assert(resp@.attributes =~= sp->Ok_0.attributes);
        assert(resp@.messages =~= mint_messages(req, address@));
    }
    Ok(resp)
}

/// Burn.  Permissionless, but the attached funds must be non-empty.  The
/// funds whose denomination is registered are burned from the contract's
/// own address; everything else goes back to the caller verbatim, in one
/// bank transfer that is emitted first and even when empty.
pub fn execute_burn(
    state: &ContractState,
    contract_address: &String,
    sender: &String,
    funds: Vec<Coin>,
) -> (r: Result<Response, ContractError>)
    ensures
        (r matches Ok(resp) ==> spec_burn(state@, contract_address@, sender@, funds.deep_view())
            == Ok::<ResponseV, ErrorV>(resp@)),
        (r matches Err(e) ==> spec_burn(state@, contract_address@, sender@, funds.deep_view())
            == Err::<ResponseV, ErrorV>(e@)),
{
    if funds.len() == 0 {
        return Err(ContractError::InvalidFunds {});
    }
    let ghost fs = funds.deep_view();
    let ghost reg = state@.config.denoms;
    let mut factory: Vec<Coin> = Vec::new();
    let mut foreign: Vec<Coin> = Vec::new();
    proof {
        reveal(Seq::filter);
        assert(fs.take(0) =~= Seq::<CoinV>::empty());
        assert(factory.deep_view() =~= Seq::<CoinV>::empty());
        assert(foreign.deep_view() =~= Seq::<CoinV>::empty());
    }
    let mut i: usize = 0;
    while i < funds.len()
        invariant
            i <= fs.len(),
            fs.len() == funds@.len(),
            fs == funds.deep_view(),
            reg == state@.config.denoms,
            factory.deep_view() == factory_funds(reg, fs.take(i as int)),
            foreign.deep_view() == foreign_funds(reg, fs.take(i as int)),
        decreases fs.len() - i,
    {
        proof {
            assert(fs[i as int] == funds@[i as int]@);
            assert(fs.take(i as int + 1).drop_last() =~= fs.take(i as int));
            assert(fs.take(i as int + 1).last() == fs[i as int]);
        }
        let ghost f0 = factory.deep_view();
        let ghost g0 = foreign.deep_view();
        if denom_found(&state.config.denoms, &funds[i].denom) {
            factory.push(funds[i].clone());
            proof {
                reveal(Seq::filter);
                assert(factory.deep_view() =~= f0.push(fs[i as int]));
                assert(denom_registered(reg, fs[i as int].denom));
                let t1 = fs.take(i as int + 1);
                assert(t1.len() > 0);
                assert(t1.drop_last() == fs.take(i as int));
                assert(factory_funds(reg, t1) == factory_funds(reg, fs.take(i as int)).push(
                    fs[i as int],
                ));
                assert(foreign_funds(reg, t1) == foreign_funds(reg, fs.take(i as int)));
            }
        } else {
            foreign.push(funds[i].clone());
            proof {
                reveal(Seq::filter);
                assert(foreign.deep_view() =~= g0.push(fs[i as int]));
                assert(!denom_registered(reg, fs[i as int].denom));
                let t1 = fs.take(i as int + 1);
                assert(t1.len() > 0);
                assert(t1.drop_last() == fs.take(i as int));
                assert(foreign_funds(reg, t1) == foreign_funds(reg, fs.take(i as int)).push(
                    fs[i as int],
                ));
                assert(factory_funds(reg, t1) == factory_funds(reg, fs.take(i as int)));
            }
        }
        i = i + 1;
    }
    proof {
        assert(fs.take(fs.len() as int) =~= fs);
    }
    let ghost fac = factory.deep_view();
    let mut messages: Vec<Effect> = Vec::new();
    messages.push(Effect::BankSend { to_address: sender.clone(), amount: foreign });
    proof {
        assert(messages.deep_view()[0] == EffectV::BankSend {
            to_address: sender@,
            amount: foreign_funds(reg, fs),
        });
    }
    let mut k: usize = 0;
    while k < factory.len()
        invariant
            k <= fac.len(),
            fac.len() == factory@.len(),
            fac == factory.deep_view(),
            reg == state@.config.denoms,
            fs == funds.deep_view(),
            messages@.len() == 1 + k,
            messages.deep_view()[0] == (EffectV::BankSend {
                to_address: sender@,
                amount: foreign_funds(reg, fs),
            }),
            forall|j: int|
                0 <= j < k ==> messages.deep_view()[j + 1] == (EffectV::BurnTokens {
                    denom: fac[j].denom,
                    amount: fac[j].amount,
                    burn_from_address: contract_address@,
                }),
        decreases fac.len() - k,
    {
        proof {
            assert(fac[k as int] == factory@[k as int]@);
        }
        messages.push(
            Effect::BurnTokens {
                denom: factory[k].denom.clone(),
                amount: factory[k].amount,
                burn_from_address: contract_address.clone(),
            },
        );
        k = k + 1;
    }
    let mut attributes: Vec<Attribute> = Vec::new();
    attributes.push(
        Attribute { key: String::from_str("method"), value: String::from_str("execute_burn") },
    );
    let resp = Response { attributes, messages };
    proof {
        let sp = spec_burn(state@, contract_address@, sender@, fs);
        assert(resp@.attributes =~= sp->Ok_0.attributes);
        assert(resp@.messages =~= sp->Ok_0.messages);
    }
    Ok(resp)
}

/// One mutating invocation: matches the request exhaustively and hands it
/// to its operation.  Only a whitelist modification changes the state; on
/// any error the state is left untouched.  `contract_address` is the
/// deployment's own address, `sender` the caller, `funds` the payment
/// attached to the call.
pub fn execute(
    state: &mut ContractState,
    contract_address: &String,
    sender: &String,
    funds: Vec<Coin>,
    msg: ExecuteMsg,
) -> (r: Result<Response, ContractError>)
    requires
        old(state).wf(),
        (msg matches ExecuteMsg::Mint { address, denom } ==> (spec_mint(
            old(state)@,
            sender@,
            address@,
            denom.deep_view(),
        ) is Ok ==> (forall|i: int|
            0 <= i < denom.deep_view().len() ==> denom.deep_view()[i].amount is Some))),
    ensures
        final(state).wf(),
        (r matches Ok(resp) ==> spec_execute(
            old(state)@,
            contract_address@,
            sender@,
            funds.deep_view(),
            msg@,
        ) matches Ok(sp) && sp.0 == final(state)@ && sp.1 == resp@),
        (r matches Err(e) ==> spec_execute(
            old(state)@,
            contract_address@,
            sender@,
            funds.deep_view(),
            msg@,
        ) == Err::<(StateV, ResponseV), ErrorV>(e@) && *final(state) == *old(state)),
{
    match msg {
        ExecuteMsg::Burn {} => execute_burn(state, contract_address, sender, funds),
        ExecuteMsg::Mint { address, denom } => execute_mint(state, sender, address, denom),
        ExecuteMsg::TransferAdmin { denom, new_address } => execute_transfer_admin(
            state,
            sender,
            denom,
            new_address,
        ),
        ExecuteMsg::ModifyWhitelist { addresses } => execute_modify_whitelist(
            state,
            sender,
            &addresses,
        ),
    }
}

/// The read-only queries: the configuration, or just its denomination list.
pub fn query(state: &ContractState, msg: QueryMsg) -> (r: QueryAnswer)
    ensures
        (msg matches QueryMsg::GetConfig {} ==> r matches QueryAnswer::Config(c) && c@
            == state@.config),
        (msg matches QueryMsg::GetDenoms {} ==> r matches QueryAnswer::Denoms(d) && d.deep_view()
            == state@.config.denoms),
{
    match msg {
        QueryMsg::GetConfig {} => QueryAnswer::Config(state.config.clone()),
        QueryMsg::GetDenoms {} => QueryAnswer::Denoms(clone_denoms(&state.config.denoms)),
    }
}

} // verus!
