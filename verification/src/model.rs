//! The mathematical model of the registry and authorization engine.
//!
//! Every executable type of the crate has a counterpart here, over `Seq`,
//! `Set` and plain integers, and every operation has a spec function that
//! gives its outcome in full: which error it returns on which input, and the
//! exact attributes, effects and successor state on success.  The executable
//! functions in `contract` are proved equal to these.

use vstd::prelude::*;

use crate::decimal::dec_str;

verus! {

/// A managed token denomination: its full name, and an optional amount that
/// is only meaningful inside a mint request.
pub struct DenomV {
    pub full_denom: Seq<char>,
    pub amount: Option<u128>,
}

/// A quantity of some denomination, as attached to a burn call.
pub struct CoinV {
    pub denom: Seq<char>,
    pub amount: u128,
}

/// The singleton configuration record.
pub struct ConfigV {
    pub manager: Seq<char>,
    pub allowed_mint_addresses: Seq<Seq<char>>,
    pub denoms: Seq<DenomV>,
}

/// The whole durable state: the configuration plus the set of addresses that
/// hold a post-creation whitelist entry.
pub struct StateV {
    pub config: ConfigV,
    pub whitelist: Set<Seq<char>>,
}

/// A human-readable key/value pair surfaced for auditing.
pub struct AttributeV {
    pub key: Seq<char>,
    pub value: Seq<char>,
}

/// An instruction for the external ledger executor.  The engine only
/// describes effects; it never applies them.
#[allow(inconsistent_fields)]
pub enum EffectV {
    MintTokens { denom: Seq<char>, amount: u128, mint_to_address: Seq<char> },
    BurnTokens { denom: Seq<char>, amount: u128, burn_from_address: Seq<char> },
    BankSend { to_address: Seq<char>, amount: Seq<CoinV> },
    ChangeAdmin { denom: Seq<char>, new_admin_address: Seq<char> },
}

/// What an operation hands back to the host on success.
pub struct ResponseV {
    pub attributes: Seq<AttributeV>,
    pub messages: Seq<EffectV>,
}

/// The error taxonomy of the engine.
pub enum ErrorV {
    Unauthorized,
    InvalidDenom { denom: Seq<char>, message: Seq<char> },
    InvalidFunds,
}

/// The instantiation request.
pub struct InstantiateMsgV {
    pub manager: Option<Seq<char>>,
    pub allowed_mint_addresses: Seq<Seq<char>>,
    pub denoms: Seq<DenomV>,
}

/// The first registry entry whose name is `name`, if any.
pub open spec fn find_denom(denoms: Seq<DenomV>, name: Seq<char>) -> Option<DenomV>
    decreases denoms.len(),
{
    if denoms.len() == 0 {
        None
    } else if denoms.first().full_denom == name {
        Some(denoms.first())
    } else {
        find_denom(denoms.drop_first(), name)
    }
}

/// Whether some registry entry carries the name `name`.
pub open spec fn denom_registered(denoms: Seq<DenomV>, name: Seq<char>) -> bool {
    find_denom(denoms, name) is Some
}

/// An address may mint iff it is in the initial allow-list or holds a
/// whitelist entry.
pub open spec fn is_authorized_minter(s: StateV, addr: Seq<char>) -> bool {
    s.config.allowed_mint_addresses.contains(addr) || s.whitelist.contains(addr)
}

/// Only the manager may alter the whitelist or reassign a denom admin.
pub open spec fn is_manager(c: ConfigV, addr: Seq<char>) -> bool {
    c.manager == addr
}

/// Every managed denomination must carry the reserved prefix.
pub open spec fn has_factory_prefix(name: Seq<char>) -> bool {
    name.len() >= 8 && name.subrange(0, 8) == "factory/"@
}

/// The first denomination of the request that lacks the reserved prefix.
pub open spec fn first_bad_denom(denoms: Seq<DenomV>) -> Option<DenomV>
    decreases denoms.len(),
{
    if denoms.len() == 0 {
        None
    } else if !has_factory_prefix(denoms.first().full_denom) {
        Some(denoms.first())
    } else {
        first_bad_denom(denoms.drop_first())
    }
}

/// The manager defaults to the caller when the request names none.
pub open spec fn resolve_manager(requested: Option<Seq<char>>, sender: Seq<char>) -> Seq<char> {
    match requested {
        Some(m) => m,
        None => sender,
    }
}

/// Outcome of creation: checks every denomination's prefix, resolves the
/// manager, and yields the initial state (empty whitelist) plus the response.
/// All-or-nothing: on the first bad denomination nothing is produced.
pub open spec fn spec_instantiate(sender: Seq<char>, msg: InstantiateMsgV) -> Result<
    (StateV, ResponseV),
    ErrorV,
> {
    match first_bad_denom(msg.denoms) {
        Some(bad) => Err(
            ErrorV::InvalidDenom {
                denom: bad.full_denom,
                message: "Denom must start with 'factory/'"@,
            },
        ),
        None => Ok(
            (
                StateV {
                    config: ConfigV {
                        manager: resolve_manager(msg.manager, sender),
                        allowed_mint_addresses: msg.allowed_mint_addresses,
                        denoms: msg.denoms,
                    },
                    whitelist: Set::empty(),
                },
                ResponseV {
                    attributes: seq![
                        AttributeV { key: "method"@, value: "instantiate"@ },
                    ],
                    messages: Seq::empty(),
                },
            ),
        ),
    }
}

/// The first problem with a mint request, scanned in request order: a
/// denomination absent from the registry, or a registry entry without its
/// amount field.
pub open spec fn first_mint_issue(reg: Seq<DenomV>, req: Seq<DenomV>) -> Option<ErrorV>
    decreases req.len(),
{
    if req.len() == 0 {
        None
    } else {
        match find_denom(reg, req.first().full_denom) {
            None => Some(
                ErrorV::InvalidDenom {
                    denom: req.first().full_denom,
                    message: "Denom not found in state"@,
                },
            ),
            Some(entry) => if entry.amount is None {
                Some(
                    ErrorV::InvalidDenom {
                        denom: entry.full_denom,
                        message: "Denom does not have amount set"@,
                    },
                )
            } else {
                first_mint_issue(reg, req.drop_first())
            },
        }
    }
}

/// One mint instruction per requested denomination, in request order, each
/// carrying the amount given in the request.
pub open spec fn mint_messages(req: Seq<DenomV>, target: Seq<char>) -> Seq<EffectV> {
    Seq::new(
        req.len(),
        |i: int|
            EffectV::MintTokens {
                denom: req[i].full_denom,
                amount: req[i].amount->Some_0,
                mint_to_address: target,
            },
    )
}

/// The `{denom: amount}` text for one requested denomination.
pub open spec fn mint_pair_text(d: DenomV) -> Seq<char> {
    "{"@ + d.full_denom + ": "@ + dec_str(d.amount->Some_0) + "}"@
}

/// The summary attribute: the `{denom: amount}` pairs in request order,
/// joined by `", "`.
pub open spec fn mint_summary_text(req: Seq<DenomV>) -> Seq<char>
    decreases req.len(),
{
    if req.len() == 0 {
        Seq::empty()
    } else if req.len() == 1 {
        mint_pair_text(req[0])
    } else {
        mint_summary_text(req.drop_last()) + ", "@ + mint_pair_text(req.last())
    }
}

/// Which error a mint request fails with, if any: the authorization check,
/// then the non-empty check, then the per-denomination checks in request
/// order.
pub open spec fn mint_error(s: StateV, sender: Seq<char>, req: Seq<DenomV>) -> Option<ErrorV> {
    if !is_authorized_minter(s, sender) {
        Some(ErrorV::Unauthorized)
    } else if req.len() == 0 {
        Some(
            ErrorV::InvalidDenom { denom: "denoms"@, message: "denoms cannot be empty on mint"@ },
        )
    } else {
        first_mint_issue(s.config.denoms, req)
    }
}

/// Outcome of a mint call.
pub open spec fn spec_mint(
    s: StateV,
    sender: Seq<char>,
    target: Seq<char>,
    req: Seq<DenomV>,
) -> Result<ResponseV, ErrorV> {
    match mint_error(s, sender, req) {
        Some(e) => Err(e),
        None => Ok(
            ResponseV {
                attributes: seq![
                    AttributeV { key: "method"@, value: "execute_mint"@ },
                    AttributeV { key: "to_address"@, value: target },
                    AttributeV { key: "denoms"@, value: mint_summary_text(req) },
                ],
                messages: mint_messages(req, target),
            },
        ),
    }
}

/// The attached funds whose denomination is in the registry, in input order.
pub open spec fn factory_funds(reg: Seq<DenomV>, funds: Seq<CoinV>) -> Seq<CoinV> {
    funds.filter(|c: CoinV| denom_registered(reg, c.denom))
}

/// The attached funds whose denomination is not in the registry, in input
/// order.  These are never burned; they go back to the caller verbatim.
pub open spec fn foreign_funds(reg: Seq<DenomV>, funds: Seq<CoinV>) -> Seq<CoinV> {
    funds.filter(|c: CoinV| !denom_registered(reg, c.denom))
}

/// The effects of a burn: first the return transfer of the foreign funds to
/// the caller (emitted even when empty), then one burn instruction per
/// factory fund, burning from the contract's own address.
pub open spec fn burn_messages(
    reg: Seq<DenomV>,
    funds: Seq<CoinV>,
    contract_addr: Seq<char>,
    sender: Seq<char>,
) -> Seq<EffectV> {
    seq![EffectV::BankSend { to_address: sender, amount: foreign_funds(reg, funds) }]
        + factory_funds(reg, funds).map_values(
        |c: CoinV|
            EffectV::BurnTokens { denom: c.denom, amount: c.amount, burn_from_address: contract_addr },
    )
}

/// Outcome of a burn call.  Permissionless, but the attached funds must be
/// non-empty.
pub open spec fn spec_burn(
    s: StateV,
    contract_addr: Seq<char>,
    sender: Seq<char>,
    funds: Seq<CoinV>,
) -> Result<ResponseV, ErrorV> {
    if funds.len() == 0 {
        Err(ErrorV::InvalidFunds)
    } else {
        Ok(
            ResponseV {
                attributes: seq![AttributeV { key: "method"@, value: "execute_burn"@ }],
                messages: burn_messages(s.config.denoms, funds, contract_addr, sender),
            },
        )
    }
}

/// Outcome of an admin transfer.  Only the manager may call it; the
/// denomination must be registered; the configuration itself never changes,
/// only a change-admin instruction is emitted.
pub open spec fn spec_transfer_admin(
    s: StateV,
    sender: Seq<char>,
    denom: Seq<char>,
    new_address: Seq<char>,
) -> Result<ResponseV, ErrorV> {
    if !is_manager(s.config, sender) {
        Err(ErrorV::Unauthorized)
    } else {
        match find_denom(s.config.denoms, denom) {
            None => Err(ErrorV::InvalidDenom { denom: denom, message: "Denom not found in state"@ }),
            Some(entry) => Ok(
                ResponseV {
                    attributes: seq![
                        AttributeV { key: "method"@, value: "execute_transfer_admin"@ },
                        AttributeV { key: "new_admin"@, value: new_address },
                    ],
                    messages: seq![
                        EffectV::ChangeAdmin {
                            denom: entry.full_denom,
                            new_admin_address: new_address,
                        },
                    ],
                },
            ),
        }
    }
}

/// One whitelist toggle: an address with an entry loses it, one without
/// gains it.
pub open spec fn toggle(wl: Set<Seq<char>>, addr: Seq<char>) -> Set<Seq<char>> {
    if wl.contains(addr) {
        wl.remove(addr)
    } else {
        wl.insert(addr)
    }
}

/// Toggles applied left to right; a later entry of the same address in one
/// call re-toggles it.
pub open spec fn toggle_all(wl: Set<Seq<char>>, addrs: Seq<Seq<char>>) -> Set<Seq<char>>
    decreases addrs.len(),
{
    if addrs.len() == 0 {
        wl
    } else {
        toggle_all(toggle(wl, addrs.first()), addrs.drop_first())
    }
}

/// Outcome of a whitelist modification: manager only; the successor state
/// has every listed address toggled, and the response is empty.
pub open spec fn spec_modify_whitelist(
    s: StateV,
    sender: Seq<char>,
    addrs: Seq<Seq<char>>,
) -> Result<(StateV, ResponseV), ErrorV> {
    if !is_manager(s.config, sender) {
        Err(ErrorV::Unauthorized)
    } else {
        Ok(
            (
                StateV { config: s.config, whitelist: toggle_all(s.whitelist, addrs) },
                ResponseV { attributes: Seq::empty(), messages: Seq::empty() },
            ),
        )
    }
}

/// Toggling left to right is the same as toggling all but the last address
/// first and the last one afterwards.
pub proof fn lemma_toggle_all_push(wl: Set<Seq<char>>, addrs: Seq<Seq<char>>, addr: Seq<char>)
    ensures
        toggle_all(wl, addrs.push(addr)) == toggle(toggle_all(wl, addrs), addr),
    decreases addrs.len(),
{
    if addrs.len() == 0 {
        assert(addrs.push(addr).first() == addr);
        assert(addrs.push(addr).drop_first() =~= Seq::<Seq<char>>::empty());
        assert(toggle_all(toggle(wl, addr), Seq::<Seq<char>>::empty()) == toggle(wl, addr));
        assert(toggle_all(wl, addrs) == wl);
    } else {
        assert(addrs.push(addr).first() == addrs.first());
        assert(addrs.push(addr).drop_first() =~= addrs.drop_first().push(addr));
        lemma_toggle_all_push(toggle(wl, addrs.first()), addrs.drop_first(), addr);
        assert(toggle_all(wl, addrs.push(addr)) == toggle_all(
            toggle(wl, addrs.first()),
            addrs.drop_first().push(addr),
        ));
        assert(toggle_all(wl, addrs) == toggle_all(toggle(wl, addrs.first()), addrs.drop_first()));
    }
}

/// The mutating requests, as the model sees them.
#[allow(inconsistent_fields)]
pub enum ExecuteMsgV {
    Burn,
    ModifyWhitelist { addresses: Seq<Seq<char>> },
    Mint { address: Seq<char>, denom: Seq<DenomV> },
    TransferAdmin { denom: Seq<char>, new_address: Seq<char> },
}

/// Outcome of one mutating invocation: the request is matched exhaustively
/// and handed to its operation.  Only a whitelist modification changes the
/// durable state.
pub open spec fn spec_execute(
    s: StateV,
    contract_addr: Seq<char>,
    sender: Seq<char>,
    funds: Seq<CoinV>,
    msg: ExecuteMsgV,
) -> Result<(StateV, ResponseV), ErrorV> {
    match msg {
        ExecuteMsgV::Burn => match spec_burn(s, contract_addr, sender, funds) {
            Ok(resp) => Ok((s, resp)),
            Err(e) => Err(e),
        },
        ExecuteMsgV::Mint { address, denom } => match spec_mint(s, sender, address, denom) {
            Ok(resp) => Ok((s, resp)),
            Err(e) => Err(e),
        },
        ExecuteMsgV::TransferAdmin { denom, new_address } => match spec_transfer_admin(
            s,
            sender,
            denom,
            new_address,
        ) {
            Ok(resp) => Ok((s, resp)),
            Err(e) => Err(e),
        },
        ExecuteMsgV::ModifyWhitelist { addresses } => spec_modify_whitelist(s, sender, addresses),
    }
}

} // verus!
