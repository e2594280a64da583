//! The operations of the registry, the access-control store and the grant
//! validator. Each operation has a mathematical transition (`spec_...`) over
//! [`RegistryView`]; the executable function is proved to implement exactly
//! that transition, and to leave the registry untouched whenever it fails.

use vstd::prelude::*;

use crate::cwfees::{CwGrant, MsgRegisterAsGranter, MsgView, SudoMsg};
use crate::error::{ContractError, ErrorView};
use crate::msg::{
    spec_publisher, ExecuteMsg, InstantiateMsg, OutgoingMsg, OutgoingMsgView, PlayerResponse,
    QueryAnswer, QueryMsg, Response,
};
use crate::state::{
    lemma_map_view_push, lemma_map_view_update, lemma_player_at_unique, lemma_to_set_push,
    lemma_to_set_remove, spec_has_player, spec_player_at, Player, PlayerView, Pokemon,
    PokemonView, Registry, RegistryView,
};

verus! {

/// The one message type a grant batch may contain: a generic
/// contract-execute action.
pub open spec fn spec_allowed_type_url() -> Seq<char> {
    "cosmwasm.wasm.v1.MsgExecuteContract"@
}

/// Relates an operation's executable result to the result of its transition:
/// same success or failure, same outgoing effects, same error.
pub open spec fn spec_result_matches(
    r: Result<Response, ContractError>,
    out: Result<Seq<OutgoingMsgView>, ErrorView>,
) -> bool {
    match (r, out) {
        (Ok(resp), Ok(msgs)) => resp@ == msgs,
        (Err(e), Err(ev)) => e@ == ev,
        _ => false,
    }
}

/// Initialization: the caller becomes the owner and is auto-allowed, and the
/// contract asks the runtime's fee module to register it as a granter.
pub open spec fn spec_instantiate(
    rv: RegistryView,
    sender: Seq<char>,
    contract_addr: Seq<char>,
) -> (RegistryView, Result<Seq<OutgoingMsgView>, ErrorView>) {
    (
        RegistryView { owner: Some(sender), allowed: rv.allowed.insert(sender), ..rv },
        Ok(seq![OutgoingMsgView::RegisterGranter { granting_contract: contract_addr }]),
    )
}

/// Idempotent insert into the allow-list. No caller check is made: any
/// caller may grant or revoke, while binding the issuer is owner-only — a
/// deliberate asymmetry of the protocol.
pub open spec fn spec_add_allowance(rv: RegistryView, addr: Seq<char>) -> (
    RegistryView,
    Result<Seq<OutgoingMsgView>, ErrorView>,
) {
    (RegistryView { allowed: rv.allowed.insert(addr), ..rv }, Ok(Seq::empty()))
}

/// Idempotent delete from the allow-list; absent principals are no error.
pub open spec fn spec_remove_allowance(rv: RegistryView, addr: Seq<char>) -> (
    RegistryView,
    Result<Seq<OutgoingMsgView>, ErrorView>,
) {
    (RegistryView { allowed: rv.allowed.remove(addr), ..rv }, Ok(Seq::empty()))
}

/// Owner-only: binds the token-issuing contract, resets the issuance counter
/// to zero, and emits the administrative mint request (token id 0, owned by
/// the contract itself).
pub open spec fn spec_set_nft_address(
    rv: RegistryView,
    sender: Seq<char>,
    contract_addr: Seq<char>,
    addr: Seq<char>,
    token_uri: Seq<char>,
) -> (RegistryView, Result<Seq<OutgoingMsgView>, ErrorView>) {
    if rv.owner is None {
        (rv, Err(ErrorView::NotFound))
    } else if sender != rv.owner->0 {
        (rv, Err(ErrorView::Unauthorized))
    } else {
        (
            RegistryView { nft_contract: Some(addr), token: Some(0), ..rv },
            Ok(
                seq![
                    OutgoingMsgView::Mint {
                        contract_addr: addr,
                        token_id: 0,
                        owner: contract_addr,
                        token_uri: token_uri,
                        publisher: spec_publisher(),
                    },
                ],
            ),
        )
    }
}

/// The free seed entity every player starts with; it does not consume the
/// issuance counter.
pub open spec fn spec_seed_pokemon() -> PokemonView {
    PokemonView { token_id: 0, index: 0, health: 100 }
}

/// A freshly registered player: zeroed currencies, default entity 0, and the
/// single seed entity.
pub open spec fn spec_new_player(id: Seq<char>) -> PlayerView {
    PlayerView {
        id: id,
        potions: 0,
        berries: 0,
        default_pokemon: 0,
        pokemons: seq![spec_seed_pokemon()],
    }
}

/// Player creation; fails if the id is already on the roster.
pub open spec fn spec_register(rv: RegistryView, id: Seq<char>) -> (
    RegistryView,
    Result<Seq<OutgoingMsgView>, ErrorView>,
) {
    if spec_has_player(rv, id) {
        (rv, Err(ErrorView::AlreadyExists))
    } else {
        (RegistryView { players: rv.players.push(spec_new_player(id)), ..rv }, Ok(Seq::empty()))
    }
}

/// Restores the vitality of the entity at `slot` to 100.
pub open spec fn spec_update_health(rv: RegistryView, id: Seq<char>, slot: int) -> (
    RegistryView,
    Result<Seq<OutgoingMsgView>, ErrorView>,
) {
    if !spec_has_player(rv, id) {
        (rv, Err(ErrorView::NotFound))
    } else {
        let i = spec_player_at(rv, id);
        let p = rv.players[i];
        if slot < 0 || slot >= p.pokemons.len() {
            (rv, Err(ErrorView::IndexOutOfRange))
        } else {
            let p2 = PlayerView {
                pokemons: p.pokemons.update(
                    slot,
                    PokemonView { health: 100, ..p.pokemons[slot] },
                ),
                ..p
            };
            (RegistryView { players: rv.players.update(i, p2), ..rv }, Ok(Seq::empty()))
        }
    }
}

/// Increments the player's berry currency by exactly one.
pub open spec fn spec_collect_berries(rv: RegistryView, id: Seq<char>) -> (
    RegistryView,
    Result<Seq<OutgoingMsgView>, ErrorView>,
) {
    if !spec_has_player(rv, id) {
        (rv, Err(ErrorView::NotFound))
    } else {
        let i = spec_player_at(rv, id);
        let p = rv.players[i];
        let p2 = PlayerView { berries: p.berries + 1, ..p };
        (RegistryView { players: rv.players.update(i, p2), ..rv }, Ok(Seq::empty()))
    }
}

/// Sets the player's default entity index, without a bounds check.
pub open spec fn spec_set_default_pokemon(rv: RegistryView, id: Seq<char>, pokemon: int) -> (
    RegistryView,
    Result<Seq<OutgoingMsgView>, ErrorView>,
) {
    if !spec_has_player(rv, id) {
        (rv, Err(ErrorView::NotFound))
    } else {
        let i = spec_player_at(rv, id);
        let p = rv.players[i];
        let p2 = PlayerView { default_pokemon: pokemon, ..p };
        (RegistryView { players: rv.players.update(i, p2), ..rv }, Ok(Seq::empty()))
    }
}

/// The catch transition: draws the next issuance id, appends a full-vitality
/// entity to the player's inventory, then overwrites the vitality of the
/// entity at the caller-chosen `curr` index (which may be the new entity
/// itself), increments the counter, and emits a mint request addressed to the
/// bound issuer. Fails if the issuer or counter is unbound, the player is
/// unknown, or `curr` lies outside the post-append inventory.
pub open spec fn spec_catch_pokemon(
    rv: RegistryView,
    sender: Seq<char>,
    id: Seq<char>,
    token_uri: Seq<char>,
    health: int,
    curr: int,
) -> (RegistryView, Result<Seq<OutgoingMsgView>, ErrorView>) {
    if rv.token is None || rv.nft_contract is None {
        (rv, Err(ErrorView::NotFound))
    } else if !spec_has_player(rv, id) {
        (rv, Err(ErrorView::NotFound))
    } else {
        let t = rv.token->0;
        let i = spec_player_at(rv, id);
        let p = rv.players[i];
        let appended = p.pokemons.push(
            PokemonView { token_id: t + 1, index: p.pokemons.len() as int, health: 100 },
        );
        if curr < 0 || curr >= appended.len() {
            (rv, Err(ErrorView::IndexOutOfRange))
        } else {
            let fixed = appended.update(curr, PokemonView { health: health, ..appended[curr] });
            let p2 = PlayerView { pokemons: fixed, ..p };
            (
                RegistryView {
                    players: rv.players.update(i, p2),
                    token: Some(t + 1),
                    ..rv
                },
                Ok(
                    seq![
                        OutgoingMsgView::Mint {
                            contract_addr: rv.nft_contract->0,
                            token_id: t + 1,
                            owner: sender,
                            token_uri: token_uri,
                            publisher: spec_publisher(),
                        },
                    ],
                ),
            )
        }
    }
}

/// Batch validation, in list order: the first message whose sender is not
/// allowed rejects the batch with `Unauthorized`; the first one of an
/// unexpected type rejects it with `DisallowedMessage`; a batch whose every
/// message passes both checks is accepted with no further effect.
pub open spec fn spec_process_grant(rv: RegistryView, msgs: Seq<MsgView>) -> Result<
    Seq<OutgoingMsgView>,
    ErrorView,
>
    decreases msgs.len(),
{
    if msgs.len() == 0 {
        Ok(Seq::empty())
    } else if !rv.allowed.contains(msgs[0].sender) {
        Err(ErrorView::Unauthorized)
    } else if msgs[0].type_url != spec_allowed_type_url() {
        Err(ErrorView::DisallowedMessage(msgs[0].type_url))
    } else {
        spec_process_grant(rv, msgs.drop_first())
    }
}

/// The berry increment must fit the counter's machine width.
pub open spec fn spec_berries_fit(rv: RegistryView, id: Seq<char>) -> bool {
    spec_has_player(rv, id) ==> rv.players[spec_player_at(rv, id)].berries < i32::MAX
}

/// The next issuance id and the new inventory position must fit their
/// machine widths.
pub open spec fn spec_catch_fits(rv: RegistryView, id: Seq<char>) -> bool {
    &&& (rv.token matches Some(t) ==> t < i32::MAX)
    &&& (spec_has_player(rv, id) ==> rv.players[spec_player_at(rv, id)].pokemons.len()
        < i32::MAX)
}

/// Create a player with the given id and its seed entity.
pub fn register(reg: &mut Registry, id: String) -> (r: Result<Response, ContractError>)
    requires
        old(reg).wf(),
    ensures
        final(reg).wf(),
        final(reg)@ == spec_register(old(reg)@, id@).0,
        spec_result_matches(r, spec_register(old(reg)@, id@).1),
{
    if reg.find_player(&id).is_some() {
        return Err(ContractError::AlreadyExists {});
    }
    let mut pokemons: Vec<Pokemon> = Vec::new();
    pokemons.push(Pokemon { token_id: 0, index: 0, health: 100 });
    let player = Player { id, potions: 0, berries: 0, default_pokemon: 0, pokemons };
    let ghost pv = player@;
    reg.players.push(player);
    proof {
        assert(pv.pokemons =~= seq![spec_seed_pokemon()]);
        assert(pv =~= spec_new_player(pv.id));
        lemma_map_view_push(old(reg).players@, player);
        assert(reg@ =~= spec_register(old(reg)@, pv.id).0);
        assert forall|i: int, j: int| 0 <= i < j < reg@.players.len() implies reg@.players[i].id
            != reg@.players[j].id by {
            if j == reg@.players.len() - 1 {
                assert(reg@.players[i] == old(reg)@.players[i]);
            }
        }
    }
    Ok(Response::empty())
}

/// Restore the vitality of the entity at `token_id` to 100.
pub fn update_health(reg: &mut Registry, id: String, token_id: i32) -> (r: Result<
    Response,
    ContractError,
>)
    requires
        old(reg).wf(),
    ensures
        final(reg).wf(),
        final(reg)@ == spec_update_health(old(reg)@, id@, token_id as int).0,
        spec_result_matches(r, spec_update_health(old(reg)@, id@, token_id as int).1),
{
    let i = match reg.find_player(&id) {
        Some(i) => i,
        None => {
            return Err(ContractError::NotFound {});
        },
    };
    proof {
        lemma_player_at_unique(reg@, id@, i as int);
    }
    if token_id < 0 || (token_id as usize) >= reg.players[i].pokemons.len() {
        return Err(ContractError::IndexOutOfRange {});
    }
    let slot = token_id as usize;
    let ghost oldp = reg.players@[i as int];
    reg.players[i].pokemons[slot].health = 100;
    proof {
        let newp = reg.players@[i as int];
        lemma_map_view_update(oldp.pokemons@, slot as int, newp.pokemons@[slot as int]);
        assert(newp@.pokemons =~= oldp@.pokemons.update(
            slot as int,
            PokemonView { health: 100, ..oldp@.pokemons[slot as int] },
        ));
        assert(newp@ =~= spec_update_health(old(reg)@, id@, token_id as int).0.players[i as int]);
        lemma_map_view_update(old(reg).players@, i as int, newp);
        assert(reg.players@ =~= old(reg).players@.update(i as int, newp));
        assert(reg@ =~= spec_update_health(old(reg)@, id@, token_id as int).0);
        assert(final(reg).wf());
    }
    Ok(Response::empty())
}

/// Increment the player's berry currency by one.
pub fn collect_berries(reg: &mut Registry, id: String) -> (r: Result<Response, ContractError>)
    requires
        old(reg).wf(),
        spec_berries_fit(old(reg)@, id@),
    ensures
        final(reg).wf(),
        final(reg)@ == spec_collect_berries(old(reg)@, id@).0,
        spec_result_matches(r, spec_collect_berries(old(reg)@, id@).1),
{
    let i = match reg.find_player(&id) {
        Some(i) => i,
        None => {
            return Err(ContractError::NotFound {});
        },
    };
    proof {
        lemma_player_at_unique(reg@, id@, i as int);
    }
    let ghost oldp = reg.players@[i as int];
    let berries = reg.players[i].berries;
    reg.players[i].berries = berries + 1;
    proof {
        let newp = reg.players@[i as int];
        assert(newp@ =~= PlayerView { berries: oldp@.berries + 1, ..oldp@ });
        lemma_map_view_update(old(reg).players@, i as int, newp);
        assert(reg.players@ =~= old(reg).players@.update(i as int, newp));
        assert(reg@ =~= spec_collect_berries(old(reg)@, id@).0);
        assert(final(reg).wf());
    }
    Ok(Response::empty())
}

/// Set the player's default entity index; the index is not bounds-checked.
pub fn set_default_pokemon(reg: &mut Registry, id: String, pokemon: i32) -> (r: Result<
    Response,
    ContractError,
>)
    requires
        old(reg).wf(),
    ensures
        final(reg).wf(),
        final(reg)@ == spec_set_default_pokemon(old(reg)@, id@, pokemon as int).0,
        spec_result_matches(r, spec_set_default_pokemon(old(reg)@, id@, pokemon as int).1),
{
    let i = match reg.find_player(&id) {
        Some(i) => i,
        None => {
            return Err(ContractError::NotFound {});
        },
    };
    proof {
        lemma_player_at_unique(reg@, id@, i as int);
    }
    let ghost oldp = reg.players@[i as int];
    reg.players[i].default_pokemon = pokemon;
    proof {
        let newp = reg.players@[i as int];
        assert(newp@ =~= PlayerView { default_pokemon: pokemon as int, ..oldp@ });
        lemma_map_view_update(old(reg).players@, i as int, newp);
        assert(reg.players@ =~= old(reg).players@.update(i as int, newp));
        assert(reg@ =~= spec_set_default_pokemon(old(reg)@, id@, pokemon as int).0);
        assert(final(reg).wf());
    }
    Ok(Response::empty())
}

/// Initialize the contract: the caller becomes the owner, is auto-allowed,
/// and a granter-registration request is emitted for the runtime's fee
/// module.
pub fn instantiate(
    reg: &mut Registry,
    contract_address: String,
    sender: String,
    _msg: InstantiateMsg,
) -> (r: Result<Response, ContractError>)
    requires
        old(reg).wf(),
    ensures
        final(reg).wf(),
        final(reg)@ == spec_instantiate(old(reg)@, sender@, contract_address@).0,
        spec_result_matches(r, spec_instantiate(old(reg)@, sender@, contract_address@).1),
{
    reg.owner = Some(sender.clone());
    add_allowed(reg, sender);
    let m = OutgoingMsg::RegisterGranter(
        MsgRegisterAsGranter { granting_contract: contract_address },
    );
    proof {
        assert(reg@ =~= spec_instantiate(old(reg)@, sender@, contract_address@).0);
    }
    Ok(Response::with_message(m))
}

/// Insert a principal into the allow-list vector unless it is already there.
fn add_allowed(reg: &mut Registry, addr: String)
    requires
        old(reg).wf(),
    ensures
        final(reg).wf(),
        final(reg)@ == (RegistryView { allowed: old(reg)@.allowed.insert(addr@), ..old(reg)@ }),
{
    let ghost oldmapped = reg.allowed@.map_values(|s: String| s@);
    if reg.allowed_index(&addr).is_none() {
        reg.allowed.push(addr);
        proof {
            lemma_map_view_push(old(reg).allowed@, reg.allowed@[reg.allowed@.len() - 1]);
            lemma_to_set_push(oldmapped, addr@);
            assert(reg@ =~= (RegistryView {
                allowed: old(reg)@.allowed.insert(addr@),
                ..old(reg)@
            }));
            assert forall|i: int, j: int| 0 <= i < j < reg.allowed@.len() implies reg.allowed@[i]@
                != reg.allowed@[j]@ by {
                if j == reg.allowed@.len() - 1 {
                    assert(oldmapped[i] == reg.allowed@[i]@);
                }
            }
        }
    } else {
        proof {
            assert(old(reg)@.allowed.insert(addr@) =~= old(reg)@.allowed);
            assert(reg@ =~= (RegistryView {
                allowed: old(reg)@.allowed.insert(addr@),
                ..old(reg)@
            }));
        }
    }
}

/// Idempotent insert into the allow-list; no caller check is made.
pub fn grant_allowance(reg: &mut Registry, addr: String) -> (r: Result<Response, ContractError>)
    requires
        old(reg).wf(),
    ensures
        final(reg).wf(),
        final(reg)@ == spec_add_allowance(old(reg)@, addr@).0,
        spec_result_matches(r, spec_add_allowance(old(reg)@, addr@).1),
{
    add_allowed(reg, addr);
    Ok(Response::empty())
}

/// Idempotent delete from the allow-list; no caller check is made.
pub fn revoke_allowance(reg: &mut Registry, addr: String) -> (r: Result<Response, ContractError>)
    requires
        old(reg).wf(),
    ensures
        final(reg).wf(),
        final(reg)@ == spec_remove_allowance(old(reg)@, addr@).0,
        spec_result_matches(r, spec_remove_allowance(old(reg)@, addr@).1),
{
    let ghost oldmapped = reg.allowed@.map_values(|s: String| s@);
    match reg.allowed_index(&addr) {
        Some(i) => {
            reg.allowed.remove(i);
            proof {
                assert(reg.allowed@.map_values(|s: String| s@) =~= oldmapped.remove(i as int));
                lemma_to_set_remove(oldmapped, i as int);
                assert(oldmapped[i as int] == addr@);
                assert(reg@ =~= spec_remove_allowance(old(reg)@, addr@).0);
                assert forall|p: int, q: int|
                    0 <= p < q < reg.allowed@.len() implies reg.allowed@[p]@
                    != reg.allowed@[q]@ by {
                    assert(reg.allowed@[p] == old(reg).allowed@.remove(i as int)[p]);
                }
            }
        },
        None => {
            proof {
                assert(old(reg)@.allowed.remove(addr@) =~= old(reg)@.allowed);
                assert(reg@ =~= spec_remove_allowance(old(reg)@, addr@).0);
            }
        },
    }
    Ok(Response::empty())
}

/// Owner-only: bind the token-issuing contract, reset the issuance counter,
/// and emit the administrative mint request.
pub fn set_nft_address(
    reg: &mut Registry,
    sender: String,
    contract_address: String,
    addr: String,
    token_uri: String,
) -> (r: Result<Response, ContractError>)
    requires
        old(reg).wf(),
    ensures
        final(reg).wf(),
        final(reg)@ == spec_set_nft_address(
            old(reg)@,
            sender@,
            contract_address@,
            addr@,
            token_uri@,
        ).0,
        spec_result_matches(
            r,
            spec_set_nft_address(old(reg)@, sender@, contract_address@, addr@, token_uri@).1,
        ),
{
    let owner = match &reg.owner {
        Some(o) => o.clone(),
        None => {
            return Err(ContractError::NotFound {});
        },
    };
    if sender == owner {
        reg.nft_contract = Some(addr.clone());
        reg.token = Some(0);
        let m = OutgoingMsg::Mint {
            contract_addr: addr,
            token_id: 0,
            owner: contract_address,
            token_uri,
            publisher: "PokeArch".to_owned(),
        };
        proof {
            assert(reg@ =~= spec_set_nft_address(
                old(reg)@,
                sender@,
                contract_address@,
                addr@,
                token_uri@,
            ).0);
        }
        Ok(Response::with_message(m))
    } else {
        Err(ContractError::Unauthorized {})
    }
}

/// Append a freshly issued entity to the player's inventory, overwrite the
/// vitality of the entity at `curr_pokemon`, advance the issuance counter,
/// and emit the mint request for the new entity.
pub fn catch_pokemon(
    reg: &mut Registry,
    sender: String,
    id: String,
    token_uri: String,
    health: i32,
    curr_pokemon: i32,
) -> (r: Result<Response, ContractError>)
    requires
        old(reg).wf(),
        spec_catch_fits(old(reg)@, id@),
    ensures
        final(reg).wf(),
        final(reg)@ == spec_catch_pokemon(
            old(reg)@,
            sender@,
            id@,
            token_uri@,
            health as int,
            curr_pokemon as int,
        ).0,
        spec_result_matches(
            r,
            spec_catch_pokemon(
                old(reg)@,
                sender@,
                id@,
                token_uri@,
                health as int,
                curr_pokemon as int,
            ).1,
        ),
{
    let token = match reg.token {
        Some(t) => t,
        None => {
            return Err(ContractError::NotFound {});
        },
    };
    let nft_address = match &reg.nft_contract {
        Some(a) => a.clone(),
        None => {
            return Err(ContractError::NotFound {});
        },
    };
    let i = match reg.find_player(&id) {
        Some(i) => i,
        None => {
            return Err(ContractError::NotFound {});
        },
    };
    proof {
        lemma_player_at_unique(reg@, id@, i as int);
    }
    let inventory_len = reg.players[i].pokemons.len();
    if curr_pokemon < 0 || (curr_pokemon as usize) > inventory_len {
        return Err(ContractError::IndexOutOfRange {});
    }
    let slot = curr_pokemon as usize;
    let new_id = token + 1;
    let ghost oldp = reg.players@[i as int];
    reg.players[i].pokemons.push(
        Pokemon { token_id: new_id, index: inventory_len as i32, health: 100 },
    );
    proof {
        let midp = reg.players@[i as int];
        lemma_map_view_push(
            oldp.pokemons@,
            midp.pokemons@[midp.pokemons@.len() - 1],
        );
        assert(midp@.pokemons =~= oldp@.pokemons.push(
            PokemonView {
                token_id: new_id as int,
                index: oldp@.pokemons.len() as int,
                health: 100,
            },
        ));
    }
    let ghost midp = reg.players@[i as int];
    reg.players[i].pokemons[slot].health = health;
    reg.token = Some(new_id);
    let m = OutgoingMsg::Mint {
        contract_addr: nft_address,
        token_id: new_id,
        owner: sender,
        token_uri,
        publisher: "PokeArch".to_owned(),
    };
    proof {
        let newp = reg.players@[i as int];
        lemma_map_view_update(midp.pokemons@, slot as int, newp.pokemons@[slot as int]);
        assert(newp@.pokemons =~= midp@.pokemons.update(
            slot as int,
            PokemonView { health: health as int, ..midp@.pokemons[slot as int] },
        ));
        let spec_new = spec_catch_pokemon(
            old(reg)@,
            sender@,
            id@,
            token_uri@,
            health as int,
            curr_pokemon as int,
        ).0;
        assert(newp@ =~= spec_new.players[i as int]);
        lemma_map_view_update(old(reg).players@, i as int, newp);
        assert(reg.players@ =~= old(reg).players@.update(i as int, newp));
        assert(reg@ =~= spec_new);
        assert(final(reg).wf());
    }
    Ok(Response::with_message(m))
}

/// Validate a grant batch against the allow-list and the expected message
/// type; the whole batch is accepted or rejected, nothing in between.
pub fn process_grant(reg: &Registry, grant: CwGrant) -> (r: Result<Response, ContractError>)
    ensures
        spec_result_matches(r, spec_process_grant(reg@, grant@.msgs)),
{
    let expected: String = "cosmwasm.wasm.v1.MsgExecuteContract".to_owned();
    let n = grant.msgs.len();
    let mut k: usize = 0;
    proof {
        assert(grant@.msgs.skip(0) =~= grant@.msgs);
    }
    while k < n
        invariant
            n == grant.msgs@.len(),
            k <= n,
            expected@ == spec_allowed_type_url(),
            spec_process_grant(reg@, grant@.msgs) == spec_process_grant(
                reg@,
                grant@.msgs.skip(k as int),
            ),
        decreases n - k,
    {
        let ghost rest = grant@.msgs.skip(k as int);
        proof {
            assert(rest[0] == grant@.msgs[k as int]);
        }
        let m = &grant.msgs[k];
        if !reg.is_allowed(&m.sender) {
            return Err(ContractError::Unauthorized {});
        }
        if !(m.type_url == expected) {
            return Err(ContractError::DisallowedMessage(m.type_url.clone()));
        }
        proof {
            assert(rest.drop_first() =~= grant@.msgs.skip(k as int + 1));
        }
        k += 1;
    }
    proof {
        assert(grant@.msgs.skip(n as int) =~= Seq::<MsgView>::empty());
    }
    Ok(Response::empty())
}

/// The privileged entry point the runtime's fee module calls; dispatches a
/// grant batch to the validator.
pub fn sudo(reg: &Registry, msg: SudoMsg) -> (r: Result<Response, ContractError>)
    ensures
        match msg {
            SudoMsg::CwGrant(g) => spec_result_matches(r, spec_process_grant(reg@, g@.msgs)),
        },
{
    match msg {
        SudoMsg::CwGrant(grant) => process_grant(reg, grant),
    }
}

/// Dispatch an inbound state-changing request to its operation.
pub fn execute(
    reg: &mut Registry,
    sender: String,
    contract_address: String,
    msg: ExecuteMsg,
) -> (r: Result<Response, ContractError>)
    requires
        old(reg).wf(),
        msg matches ExecuteMsg::CollectBerries { id } ==> spec_berries_fit(old(reg)@, id@),
        msg matches ExecuteMsg::CatchPokemon { id, .. } ==> spec_catch_fits(old(reg)@, id@),
    ensures
        final(reg).wf(),
        match msg {
            ExecuteMsg::RemoveAllowance(addr) => final(reg)@ == spec_remove_allowance(
                old(reg)@,
                addr@,
            ).0 && spec_result_matches(r, spec_remove_allowance(old(reg)@, addr@).1),
            ExecuteMsg::AddAllowance(addr) => final(reg)@ == spec_add_allowance(old(reg)@, addr@).0
                && spec_result_matches(r, spec_add_allowance(old(reg)@, addr@).1),
            ExecuteMsg::SetNFTContract { addr, token_uri } => final(reg)@ == spec_set_nft_address(
                old(reg)@,
                sender@,
                contract_address@,
                addr@,
                token_uri@,
            ).0 && spec_result_matches(
                r,
                spec_set_nft_address(old(reg)@, sender@, contract_address@, addr@, token_uri@).1,
            ),
            ExecuteMsg::Register { id } => final(reg)@ == spec_register(old(reg)@, id@).0
                && spec_result_matches(r, spec_register(old(reg)@, id@).1),
            ExecuteMsg::CatchPokemon { id, token_uri, health, curr_pokemon } => final(reg)@
                == spec_catch_pokemon(
                old(reg)@,
                sender@,
                id@,
                token_uri@,
                health as int,
                curr_pokemon as int,
            ).0 && spec_result_matches(
                r,
                spec_catch_pokemon(
                    old(reg)@,
                    sender@,
                    id@,
                    token_uri@,
                    health as int,
                    curr_pokemon as int,
                ).1,
            ),
            ExecuteMsg::UpdateHealth { id, token_id } => final(reg)@ == spec_update_health(
                old(reg)@,
                id@,
                token_id as int,
            ).0 && spec_result_matches(r, spec_update_health(old(reg)@, id@, token_id as int).1),
            ExecuteMsg::CollectBerries { id } => final(reg)@ == spec_collect_berries(
                old(reg)@,
                id@,
            ).0 && spec_result_matches(r, spec_collect_berries(old(reg)@, id@).1),
            ExecuteMsg::SetDefaultPokemon { id, pokemon } => final(reg)@
                == spec_set_default_pokemon(old(reg)@, id@, pokemon as int).0
                && spec_result_matches(
                r,
                spec_set_default_pokemon(old(reg)@, id@, pokemon as int).1,
            ),
        },
{
    match msg {
        ExecuteMsg::RemoveAllowance(addr) => revoke_allowance(reg, addr),
        ExecuteMsg::AddAllowance(addr) => grant_allowance(reg, addr),
        ExecuteMsg::SetNFTContract { addr, token_uri } => set_nft_address(
            reg,
            sender,
            contract_address,
            addr,
            token_uri,
        ),
        ExecuteMsg::Register { id } => register(reg, id),
        ExecuteMsg::CatchPokemon { id, token_uri, health, curr_pokemon } => catch_pokemon(
            reg,
            sender,
            id,
            token_uri,
            health,
            curr_pokemon,
        ),
        ExecuteMsg::UpdateHealth { id, token_id } => update_health(reg, id, token_id),
        ExecuteMsg::CollectBerries { id } => collect_berries(reg, id),
        ExecuteMsg::SetDefaultPokemon { id, pokemon } => set_default_pokemon(reg, id, pokemon),
    }
}

/// Is the principal on the allow-list? Pure read, never fails.
pub fn check_allowance(reg: &Registry, addr: String) -> (r: bool)
    ensures
        r == reg@.allowed.contains(addr@),
{
    reg.is_allowed(&addr)
}

/// Look a player up by id.
pub fn get_player(reg: &Registry, id: String) -> (r: Result<PlayerResponse, ContractError>)
    requires
        reg.wf(),
    ensures
        match r {
            Ok(pr) => spec_has_player(reg@, id@) && pr.player@ == reg@.players[spec_player_at(
                reg@,
                id@,
            )],
            Err(e) => !spec_has_player(reg@, id@) && e@ == ErrorView::NotFound,
        },
{
    match reg.find_player(&id) {
        Some(i) => {
            proof {
                lemma_player_at_unique(reg@, id@, i as int);
            }
            Ok(PlayerResponse { player: reg.players[i].duplicate() })
        },
        None => Err(ContractError::NotFound {}),
    }
}

/// Answer a read-only query.
pub fn query(reg: &Registry, msg: QueryMsg) -> (r: Result<QueryAnswer, ContractError>)
    requires
        reg.wf(),
    ensures
        match msg {
            QueryMsg::CheckAllowance { addr } => match r {
                Ok(QueryAnswer::Allowance(b)) => b == reg@.allowed.contains(addr@),
                _ => false,
            },
            QueryMsg::GetPlayer { id } => match r {
                Ok(QueryAnswer::Player(pr)) => spec_has_player(reg@, id@) && pr.player@
                    == reg@.players[spec_player_at(reg@, id@)],
                Err(e) => !spec_has_player(reg@, id@) && e@ == ErrorView::NotFound,
                _ => false,
            },
        },
{
    match msg {
        QueryMsg::CheckAllowance { addr } => Ok(QueryAnswer::Allowance(check_allowance(reg, addr))),
        QueryMsg::GetPlayer { id } => match get_player(reg, id) {
            Ok(pr) => Ok(QueryAnswer::Player(pr)),
            Err(e) => Err(e),
        },
    }
}

} // verus!
