//! General laws of the registry and the grant validator, proved once and for
//! all over the mathematical transitions of [`crate::contract`].

use vstd::prelude::*;

use crate::contract::{
    spec_allowed_type_url, spec_catch_pokemon, spec_collect_berries, spec_new_player,
    spec_process_grant, spec_register, spec_seed_pokemon, spec_set_nft_address,
    spec_update_health,
};
use crate::cwfees::MsgView;
use crate::error::ErrorView;
use crate::msg::OutgoingMsgView;
use crate::state::{spec_has_player, spec_player_at, RegistryView};

verus! {

/// Registering the same player id twice: when the first call succeeds, the
/// second fails with `AlreadyExists` and leaves the registry — in particular
/// the player the first call created — exactly as the first call left it.
pub proof fn lemma_register_twice(rv: RegistryView, id: Seq<char>)
    requires
        !spec_has_player(rv, id),
    ensures
        ({
            let rv1 = spec_register(rv, id).0;
            &&& spec_register(rv, id).1 is Ok
            &&& rv1.players.last() == spec_new_player(id)
            &&& spec_register(rv1, id).0 == rv1
            &&& spec_register(rv1, id).1 == Err::<
                Seq<OutgoingMsgView>,
                ErrorView,
            >(ErrorView::AlreadyExists)
        }),
{
    let rv1 = spec_register(rv, id).0;
    assert(rv1.players[rv.players.len() as int].id == id);
    assert(spec_has_player(rv1, id));
}

/// A grant batch containing a message whose sender is not allowed is
/// rejected as a whole, whatever the other messages look like.
pub proof fn lemma_grant_rejects_unallowed_sender(rv: RegistryView, msgs: Seq<MsgView>, k: int)
    requires
        0 <= k < msgs.len(),
        !rv.allowed.contains(msgs[k].sender),
    ensures
        spec_process_grant(rv, msgs) is Err,
    decreases msgs.len(),
{
    if rv.allowed.contains(msgs[0].sender) && msgs[0].type_url == spec_allowed_type_url() {
        assert(k >= 1);
        assert(msgs.drop_first()[k - 1] == msgs[k]);
        lemma_grant_rejects_unallowed_sender(rv, msgs.drop_first(), k - 1);
    }
}

/// The issuance id of the entity at inventory slot `j` of the player at
/// roster position `i`.
pub open spec fn spec_issued_id(rv: RegistryView, i: int, j: int) -> int {
    rv.players[i].pokemons[j].token_id
}

/// Whether `(i, j)` names an entity of the registry.
pub open spec fn spec_valid_slot(rv: RegistryView, i: int, j: int) -> bool {
    0 <= i < rv.players.len() && 0 <= j < rv.players[i].pokemons.len()
}

/// The issuance invariant: the counter is non-negative, every issued id is
/// non-negative, every id drawn from the counter (id at least 1) is bounded
/// by the counter, and no two such ids coincide. Seed entities all carry
/// id 0 and stand outside the counter's regime.
pub open spec fn spec_issuance_inv(rv: RegistryView) -> bool {
    &&& (rv.token is Some ==> rv.token->0 >= 0)
    &&& forall|i: int, j: int| spec_valid_slot(rv, i, j) ==> 0 <= #[trigger] spec_issued_id(rv, i, j)
    &&& forall|i: int, j: int|
        spec_valid_slot(rv, i, j) && #[trigger] spec_issued_id(rv, i, j) >= 1 ==> rv.token is Some
            && spec_issued_id(rv, i, j) <= rv.token->0
    &&& forall|i1: int, j1: int, i2: int, j2: int|
        spec_valid_slot(rv, i1, j1) && spec_valid_slot(rv, i2, j2) && !(i1 == i2 && j1 == j2) && #[trigger] spec_issued_id(rv, i1, j1) >= 1 && #[trigger] spec_issued_id(rv, i2, j2)
            >= 1 ==> spec_issued_id(rv, i1, j1) != spec_issued_id(rv, i2, j2)
}

/// A transition that keeps the counter, keeps each counter-drawn id where it
/// stands, and introduces no id above 0, keeps the issuance invariant.
proof fn lemma_issuance_preserved_in_place(rv: RegistryView, rv2: RegistryView)
    requires
        spec_issuance_inv(rv),
        rv2.token == rv.token,
        forall|a: int, b: int|
            spec_valid_slot(rv2, a, b) ==> 0 <= #[trigger] spec_issued_id(rv2, a, b),
        forall|a: int, b: int|
            spec_valid_slot(rv2, a, b) && #[trigger] spec_issued_id(rv2, a, b) >= 1
                ==> spec_valid_slot(rv, a, b) && spec_issued_id(rv2, a, b) == spec_issued_id(
                rv,
                a,
                b,
            ),
    ensures
        spec_issuance_inv(rv2),
{
    assert forall|i1: int, j1: int, i2: int, j2: int|
        spec_valid_slot(rv2, i1, j1) && spec_valid_slot(rv2, i2, j2) && !(i1 == i2 && j1 == j2)
            && #[trigger] spec_issued_id(rv2, i1, j1) >= 1 && #[trigger] spec_issued_id(
            rv2,
            i2,
            j2,
        ) >= 1 implies spec_issued_id(rv2, i1, j1) != spec_issued_id(rv2, i2, j2) by {
        assert(spec_issued_id(rv, i1, j1) != spec_issued_id(rv, i2, j2));
    }
}

/// Registration only adds a seed entity (id 0), so it preserves the
/// issuance invariant.
pub proof fn lemma_register_preserves_issuance(rv: RegistryView, id: Seq<char>)
    requires
        spec_issuance_inv(rv),
    ensures
        spec_issuance_inv(spec_register(rv, id).0),
{
    let rv2 = spec_register(rv, id).0;
    if !spec_has_player(rv, id) {
        assert forall|a: int, b: int| spec_valid_slot(rv2, a, b) implies 0 <= #[trigger]
        spec_issued_id(rv2, a, b) && (spec_issued_id(rv2, a, b) >= 1 ==> spec_valid_slot(rv, a, b)
            && spec_issued_id(rv2, a, b) == spec_issued_id(rv, a, b)) by {
            if a < rv.players.len() {
                assert(rv2.players[a] == rv.players[a]);
                assert(spec_valid_slot(rv, a, b));
                assert(spec_issued_id(rv2, a, b) == spec_issued_id(rv, a, b));
            } else {
                assert(rv2.players[a] == spec_new_player(id));
                assert(rv2.players[a].pokemons[b] == spec_seed_pokemon());
                assert(spec_issued_id(rv2, a, b) == 0);
            }
        }
        lemma_issuance_preserved_in_place(rv, rv2);
    }
}

/// Restoring vitality rewrites a health field only, so it preserves the
/// issuance invariant.
pub proof fn lemma_update_health_preserves_issuance(rv: RegistryView, id: Seq<char>, slot: int)
    requires
        spec_issuance_inv(rv),
    ensures
        spec_issuance_inv(spec_update_health(rv, id, slot).0),
{
    let rv2 = spec_update_health(rv, id, slot).0;
    if spec_update_health(rv, id, slot).1 is Ok {
        let i = spec_player_at(rv, id);
        assert forall|a: int, b: int| spec_valid_slot(rv2, a, b) implies spec_valid_slot(rv, a, b)
            && #[trigger] spec_issued_id(rv2, a, b) == spec_issued_id(rv, a, b) by {
            if a == i {
                assert(rv2.players[a].pokemons.len() == rv.players[a].pokemons.len());
                assert(rv2.players[a].pokemons[b].token_id == rv.players[a].pokemons[b].token_id);
            } else {
                assert(rv2.players[a] == rv.players[a]);
            }
        }
        lemma_issuance_preserved_in_place(rv, rv2);
    }
}

/// Collecting a berry touches a currency only, so it preserves the issuance
/// invariant.
pub proof fn lemma_collect_berries_preserves_issuance(rv: RegistryView, id: Seq<char>)
    requires
        spec_issuance_inv(rv),
    ensures
        spec_issuance_inv(spec_collect_berries(rv, id).0),
{
    let rv2 = spec_collect_berries(rv, id).0;
    if spec_collect_berries(rv, id).1 is Ok {
        let i = spec_player_at(rv, id);
        assert forall|a: int, b: int| spec_valid_slot(rv2, a, b) implies spec_valid_slot(rv, a, b)
            && #[trigger] spec_issued_id(rv2, a, b) == spec_issued_id(rv, a, b) by {
            if a == i {
                assert(rv2.players[a].pokemons == rv.players[a].pokemons);
            } else {
                assert(rv2.players[a] == rv.players[a]);
            }
        }
        lemma_issuance_preserved_in_place(rv, rv2);
    }
}

/// Binding the issuer resets the counter to zero; on a roster that holds
/// seed entities only (every id 0) this establishes the issuance invariant.
pub proof fn lemma_bind_issuer_establishes_issuance(
    rv: RegistryView,
    sender: Seq<char>,
    contract_addr: Seq<char>,
    addr: Seq<char>,
    token_uri: Seq<char>,
)
    requires
        forall|a: int, b: int|
            spec_valid_slot(rv, a, b) ==> #[trigger] spec_issued_id(rv, a, b) == 0,
        spec_set_nft_address(rv, sender, contract_addr, addr, token_uri).1 is Ok,
    ensures
        spec_issuance_inv(spec_set_nft_address(rv, sender, contract_addr, addr, token_uri).0),
{
    let rv2 = spec_set_nft_address(rv, sender, contract_addr, addr, token_uri).0;
    assert forall|a: int, b: int| spec_valid_slot(rv2, a, b) implies #[trigger] spec_issued_id(
        rv2,
        a,
        b,
    ) == 0 by {
        assert(rv2.players == rv.players);
        assert(spec_issued_id(rv, a, b) == 0);
    }
}

/// Issuance is monotone. A successful catch advances the counter by exactly
/// one, stamps the freshly appended entity with the new counter value, keeps
/// every other issuance id, and preserves the issuance invariant. So,
/// starting from a freshly bound counter, after N successful catches across
/// any players the counter reads N, the largest id ever drawn from it is N,
/// and no two drawn ids coincide.
pub proof fn lemma_catch_pokemon_issues_next(
    rv: RegistryView,
    sender: Seq<char>,
    id: Seq<char>,
    token_uri: Seq<char>,
    health: int,
    curr: int,
)
    requires
        spec_issuance_inv(rv),
        spec_catch_pokemon(rv, sender, id, token_uri, health, curr).1 is Ok,
    ensures
        ({
            let rv2 = spec_catch_pokemon(rv, sender, id, token_uri, health, curr).0;
            let t = rv.token->0;
            let i = spec_player_at(rv, id);
            &&& rv.token is Some
            &&& rv2.token == Some(t + 1)
            &&& spec_valid_slot(rv2, i, rv.players[i].pokemons.len() as int)
            &&& spec_issued_id(rv2, i, rv.players[i].pokemons.len() as int) == t + 1
            &&& forall|a: int, b: int|
                spec_valid_slot(rv, a, b) ==> #[trigger] spec_issued_id(rv, a, b) < t + 1
            &&& spec_issuance_inv(rv2)
        }),
{
    let rv2 = spec_catch_pokemon(rv, sender, id, token_uri, health, curr).0;
    let t = rv.token->0;
    let i = spec_player_at(rv, id);
    let p = rv.players[i];
    let n = p.pokemons.len() as int;
    assert forall|a: int, b: int| spec_valid_slot(rv2, a, b) implies {
        if a == i && b == n {
            #[trigger] spec_issued_id(rv2, a, b) == t + 1
        } else {
            spec_valid_slot(rv, a, b) && spec_issued_id(rv2, a, b) == spec_issued_id(rv, a, b)
        }
    } by {
        if a == i {
            assert(rv2.players[a].pokemons[b].token_id == if b == n {
                t + 1
            } else {
                rv.players[a].pokemons[b].token_id
            });
        } else {
            assert(rv2.players[a] == rv.players[a]);
        }
    }
    assert forall|a: int, b: int| spec_valid_slot(rv, a, b) implies #[trigger] spec_issued_id(
        rv,
        a,
        b,
    ) < t + 1 by {
        if spec_issued_id(rv, a, b) >= 1 {
            assert(spec_issued_id(rv, a, b) <= t);
        }
    }
    assert(spec_issuance_inv(rv2)) by {
        assert forall|i1: int, j1: int, i2: int, j2: int|
            spec_valid_slot(rv2, i1, j1) && spec_valid_slot(rv2, i2, j2) && !(i1 == i2 && j1 == j2)
                && #[trigger] spec_issued_id(rv2, i1, j1) >= 1 && #[trigger] spec_issued_id(
                rv2,
                i2,
                j2,
            ) >= 1 implies spec_issued_id(rv2, i1, j1) != spec_issued_id(rv2, i2, j2) by {
            if i1 == i && j1 == n {
                assert(spec_issued_id(rv2, i2, j2) < t + 1);
            } else if i2 == i && j2 == n {
                assert(spec_issued_id(rv2, i1, j1) < t + 1);
            }
        }
    }
}

/// Restoring vitality always leaves the chosen entity at full vitality,
/// whatever its prior value; success is owed exactly for a known player and
/// an in-range slot.
pub proof fn lemma_restore_vitality_full(rv: RegistryView, id: Seq<char>, slot: int)
    requires
        spec_update_health(rv, id, slot).1 is Ok,
    ensures
        ({
            let rv2 = spec_update_health(rv, id, slot).0;
            let i = spec_player_at(rv, id);
            &&& spec_has_player(rv, id)
            &&& 0 <= slot < rv.players[i].pokemons.len()
            &&& rv2.players[i].pokemons[slot].health == 100
        }),
{
}

/// Collecting a berry increments the player's berry count by exactly one and
/// changes nothing else: not the player's other fields, not the other
/// players, not the access-control or issuance state.
pub proof fn lemma_collect_berries_exact(rv: RegistryView, id: Seq<char>)
    requires
        spec_collect_berries(rv, id).1 is Ok,
    ensures
        ({
            let rv2 = spec_collect_berries(rv, id).0;
            let i = spec_player_at(rv, id);
            &&& spec_has_player(rv, id)
            &&& 0 <= i < rv.players.len()
            &&& rv2.players.len() == rv.players.len()
            &&& rv2.players[i].berries == rv.players[i].berries + 1
            &&& rv2.players[i].id == rv.players[i].id
            &&& rv2.players[i].potions == rv.players[i].potions
            &&& rv2.players[i].default_pokemon == rv.players[i].default_pokemon
            &&& rv2.players[i].pokemons == rv.players[i].pokemons
            &&& forall|j: int|
                0 <= j < rv.players.len() && j != i ==> rv2.players[j] == rv.players[j]
            &&& rv2.owner == rv.owner
            &&& rv2.allowed == rv.allowed
            &&& rv2.nft_contract == rv.nft_contract
            &&& rv2.token == rv.token
        }),
{
}

} // verus!
