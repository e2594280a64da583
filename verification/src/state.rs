//! The persistent game state: the roster of players with their collectible
//! inventories, the owner and allow-list of the access-control store, the
//! bound token-issuer contract and the global issuance counter.
//!
//! Each exec type has a mathematical view (`...View`) over `Seq`, `Set` and
//! `int`; all contracts and laws are stated over those views.

use vstd::prelude::*;

verus! {

/// A collectible entity owned by a player.
#[derive(Clone, Copy, Debug, PartialEq, Eq)]
pub struct Pokemon {
    /// Globally unique issuance id; `0` marks the free seed entity granted at
    /// registration, ids from `1` up are drawn from the issuance counter.
    pub token_id: i32,
    /// Position within the owning player's inventory at creation time.
    pub index: i32,
    /// Vitality in the conceptual range `[0, 100]` (not enforced).
    pub health: i32,
}

/// Mathematical image of a [`Pokemon`].
#[verifier::ext_equal]
pub struct PokemonView {
    pub token_id: int,
    pub index: int,
    pub health: int,
}

impl View for Pokemon {
    type V = PokemonView;

    open spec fn view(&self) -> PokemonView {
        PokemonView {
            token_id: self.token_id as int,
            index: self.index as int,
            health: self.health as int,
        }
    }
}

/// A registered player and its inventory.
#[derive(Clone, Debug, PartialEq, Eq)]
pub struct Player {
    /// Unique roster key, chosen by the player.
    pub id: String,
    /// Potion currency; present in the data model, never mutated.
    pub potions: i32,
    /// Berry currency; incremented by the berry-collecting operation.
    pub berries: i32,
    /// Index of the player's default entity; never bounds-checked.
    pub default_pokemon: i32,
    /// The ordered inventory of owned entities.
    pub pokemons: Vec<Pokemon>,
}

/// Mathematical image of a [`Player`].
#[verifier::ext_equal]
pub struct PlayerView {
    pub id: Seq<char>,
    pub potions: int,
    pub berries: int,
    pub default_pokemon: int,
    pub pokemons: Seq<PokemonView>,
}

impl View for Player {
    type V = PlayerView;

    open spec fn view(&self) -> PlayerView {
        PlayerView {
            id: self.id@,
            potions: self.potions as int,
            berries: self.berries as int,
            default_pokemon: self.default_pokemon as int,
            pokemons: self.pokemons@.map_values(|q: Pokemon| q@),
        }
    }
}

/// The whole persistent state of the contract, threaded explicitly through
/// every operation. The surrounding runtime loads it before a request and
/// commits it after; an operation that fails leaves it untouched, which gives
/// the all-or-nothing transactional behaviour of the underlying store.
#[derive(Clone, Debug)]
pub struct Registry {
    /// The principal bound once at initialization; owner-restricted
    /// operations compare the caller against it.
    pub owner: Option<String>,
    /// The allow-list; duplicates never enter it.
    pub allowed: Vec<String>,
    /// The external token-issuing contract, bound by the owner.
    pub nft_contract: Option<String>,
    /// The global issuance counter; `None` until the issuer is bound.
    pub token: Option<i32>,
    /// The roster; player ids are unique.
    pub players: Vec<Player>,
}

/// Mathematical image of a [`Registry`]: the allow-list as a set, the roster
/// as a sequence of player views.
#[verifier::ext_equal]
pub struct RegistryView {
    pub owner: Option<Seq<char>>,
    pub allowed: Set<Seq<char>>,
    pub nft_contract: Option<Seq<char>>,
    pub token: Option<int>,
    pub players: Seq<PlayerView>,
}

impl View for Registry {
    type V = RegistryView;

    open spec fn view(&self) -> RegistryView {
        RegistryView {
            owner: if self.owner is Some {
                Some(self.owner->0@)
            } else {
                None
            },
            allowed: self.allowed@.map_values(|s: String| s@).to_set(),
            nft_contract: if self.nft_contract is Some {
                Some(self.nft_contract->0@)
            } else {
                None
            },
            token: if self.token is Some {
                Some(self.token->0 as int)
            } else {
                None
            },
            players: self.players@.map_values(|p: Player| p@),
        }
    }
}

/// No two players of the roster share an id.
pub open spec fn spec_distinct_ids(players: Seq<PlayerView>) -> bool {
    forall|i: int, j: int| 0 <= i < j < players.len() ==> players[i].id != players[j].id
}

/// Some player of the roster has the given id.
pub open spec fn spec_has_player(rv: RegistryView, id: Seq<char>) -> bool {
    exists|i: int| 0 <= i < rv.players.len() && rv.players[i].id == id
}

/// The roster position of the player with the given id; meaningful only under
/// [`spec_has_player`], and unique under [`spec_distinct_ids`].
pub open spec fn spec_player_at(rv: RegistryView, id: Seq<char>) -> int {
    choose|i: int| 0 <= i < rv.players.len() && rv.players[i].id == id
}

/// Under distinct ids, any roster position holding the id is the one that
/// [`spec_player_at`] denotes.
pub proof fn lemma_player_at_unique(rv: RegistryView, id: Seq<char>, i: int)
    requires
        spec_distinct_ids(rv.players),
        0 <= i < rv.players.len(),
        rv.players[i].id == id,
    ensures
        spec_has_player(rv, id),
        spec_player_at(rv, id) == i,
{
    assert(spec_has_player(rv, id));
    let j = spec_player_at(rv, id);
    assert(0 <= j < rv.players.len() && rv.players[j].id == id);
    if i < j {
        assert(rv.players[i].id != rv.players[j].id);
    } else if j < i {
        assert(rv.players[j].id != rv.players[i].id);
    }
}

impl Registry {
    /// Representation invariant: the allow-list vector holds no duplicates
    /// (so removing one entry removes the principal from the set view) and
    /// player ids are unique.
    pub open spec fn wf(&self) -> bool {
        &&& forall|i: int, j: int|
            0 <= i < j < self.allowed@.len() ==> self.allowed@[i]@ != self.allowed@[j]@
        &&& spec_distinct_ids(self@.players)
    }

    /// The state before initialization: nothing bound, nothing allowed,
    /// no players.
    pub open spec fn spec_init() -> RegistryView {
        RegistryView {
            owner: None,
            allowed: Set::empty(),
            nft_contract: None,
            token: None,
            players: Seq::empty(),
        }
    }

    /// A fresh, empty registry.
    pub fn new() -> (r: Registry)
        ensures
            r.wf(),
            r@ == Registry::spec_init(),
    {
        let r = Registry {
            owner: None,
            allowed: Vec::new(),
            nft_contract: None,
            token: None,
            players: Vec::new(),
        };
        proof {
            assert(r@.allowed =~= Set::<Seq<char>>::empty());
            assert(r@.players =~= Seq::<PlayerView>::empty());
            assert(r@ =~= Registry::spec_init());
        }
        r
    }

    /// Position of the player with the given id, if any.
    pub fn find_player(&self, id: &String) -> (r: Option<usize>)
        ensures
            match r {
                Some(i) => {
                    &&& i < self.players@.len()
                    &&& self@.players[i as int].id == id@
                    &&& spec_has_player(self@, id@)
                },
                None => !spec_has_player(self@, id@),
            },
    {
        let n = self.players.len();
        let mut k: usize = 0;
        while k < n
            invariant
                n == self.players@.len(),
                k <= n,
                forall|j: int| 0 <= j < k ==> self@.players[j].id != id@,
            decreases n - k,
        {
            if self.players[k].id == *id {
                assert(self@.players[k as int].id == id@);
                return Some(k);
            }
            k += 1;
        }
        None
    }

    /// Position of the principal in the allow-list vector, if present.
    pub fn allowed_index(&self, addr: &String) -> (r: Option<usize>)
        ensures
            match r {
                Some(i) => {
                    &&& i < self.allowed@.len()
                    &&& self.allowed@[i as int]@ == addr@
                    &&& self@.allowed.contains(addr@)
                },
                None => !self@.allowed.contains(addr@),
            },
    {
        let ghost mapped = self.allowed@.map_values(|s: String| s@);
        let n = self.allowed.len();
        let mut k: usize = 0;
        while k < n
            invariant
                n == self.allowed@.len(),
                mapped == self.allowed@.map_values(|s: String| s@),
                k <= n,
                forall|j: int| 0 <= j < k ==> self.allowed@[j]@ != addr@,
            decreases n - k,
        {
            if self.allowed[k] == *addr {
                assert(mapped[k as int] == addr@);
                assert(self@.allowed.contains(addr@));
                return Some(k);
            }
            k += 1;
        }
        proof {
            assert forall|a: Seq<char>| mapped.contains(a) implies a != addr@ by {
                let j = choose|j: int| 0 <= j < mapped.len() && mapped[j] == a;
                assert(self.allowed@[j]@ == a);
            }
        }
        None
    }

    /// Whether the principal is on the allow-list.
    pub fn is_allowed(&self, addr: &String) -> (r: bool)
        ensures
            r == self@.allowed.contains(addr@),
    {
        self.allowed_index(addr).is_some()
    }
}

impl Player {
    /// A structurally equal copy of the player.
    pub fn duplicate(&self) -> (r: Player)
        ensures
            r@ == self@,
    {
        let n = self.pokemons.len();
        let mut pokemons: Vec<Pokemon> = Vec::new();
        let mut k: usize = 0;
        while k < n
            invariant
                n == self.pokemons@.len(),
                k <= n,
                pokemons@ =~= self.pokemons@.subrange(0, k as int),
            decreases n - k,
        {
            let q: Pokemon = self.pokemons[k];
            pokemons.push(q);
            k += 1;
        }
        proof {
            assert(pokemons@ =~= self.pokemons@);
        }
        let r = Player {
            id: self.id.clone(),
            potions: self.potions,
            berries: self.berries,
            default_pokemon: self.default_pokemon,
            pokemons,
        };
        proof {
            assert(r@ =~= self@);
        }
        r
    }
}

/// Pushing an element onto a sequence inserts it into the sequence's set.
pub proof fn lemma_to_set_push<A>(s: Seq<A>, x: A)
    ensures
        s.push(x).to_set() == s.to_set().insert(x),
{
    assert forall|a: A| #[trigger] s.push(x).to_set().contains(a) implies s.to_set().insert(
        x,
    ).contains(a) by {
        let i = choose|i: int| 0 <= i < s.push(x).len() && s.push(x)[i] == a;
        if i < s.len() {
            assert(s[i] == a);
        }
    }
    assert forall|a: A| #[trigger] s.to_set().insert(x).contains(a) implies s.push(
        x,
    ).to_set().contains(a) by {
        if s.to_set().contains(a) {
            let i = choose|i: int| 0 <= i < s.len() && s[i] == a;
            assert(s.push(x)[i] == a);
        } else {
            assert(s.push(x)[s.len() as int] == x);
        }
    }
    assert(s.push(x).to_set() =~= s.to_set().insert(x));
}

/// Removing position `i` of a duplicate-free sequence removes exactly the
/// element `s[i]` from the sequence's set.
pub proof fn lemma_to_set_remove<A>(s: Seq<A>, i: int)
    requires
        0 <= i < s.len(),
        forall|p: int, q: int| 0 <= p < q < s.len() ==> s[p] != s[q],
    ensures
        s.remove(i).to_set() == s.to_set().remove(s[i]),
{
    let t = s.remove(i);
    assert forall|a: A| #[trigger] t.to_set().contains(a) implies s.to_set().remove(s[i]).contains(
        a,
    ) by {
        let j = choose|j: int| 0 <= j < t.len() && t[j] == a;
        if j < i {
            assert(s[j] == a);
            assert(s[j] != s[i]);
        } else {
            assert(s[j + 1] == a);
            assert(s[i] != s[j + 1]);
        }
    }
    assert forall|a: A| #[trigger] s.to_set().remove(s[i]).contains(a) implies t.to_set().contains(
        a,
    ) by {
        let j = choose|j: int| 0 <= j < s.len() && s[j] == a;
        if j < i {
            assert(t[j] == a);
        } else {
            assert(j != i);
            assert(t[j - 1] == a);
        }
    }
    assert(t.to_set() =~= s.to_set().remove(s[i]));
}

/// Mapping the view over an updated sequence is the update of the mapped
/// sequence.
pub proof fn lemma_map_view_update<T: View>(s: Seq<T>, i: int, x: T)
    requires
        0 <= i < s.len(),
    ensures
        s.update(i, x).map_values(|t: T| t@) == s.map_values(|t: T| t@).update(i, x@),
{
    assert(s.update(i, x).map_values(|t: T| t@) =~= s.map_values(|t: T| t@).update(i, x@));
}

/// Mapping the view over a pushed sequence is the push of the mapped
/// sequence.
pub proof fn lemma_map_view_push<T: View>(s: Seq<T>, x: T)
    ensures
        s.push(x).map_values(|t: T| t@) == s.map_values(|t: T| t@).push(x@),
{
    assert(s.push(x).map_values(|t: T| t@) =~= s.map_values(|t: T| t@).push(x@));
}

} // verus!
