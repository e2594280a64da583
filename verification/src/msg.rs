//! Request and response shapes of the contract: the inbound execute and query
//! messages, and the outgoing effects that successful operations emit for the
//! surrounding runtime to dispatch.

use vstd::prelude::*;

use crate::cwfees::MsgRegisterAsGranter;
use crate::state::{Player, PlayerView};

verus! {

/// The (empty) initialization message.
#[derive(Clone, Debug)]
pub struct InstantiateMsg {}

/// An inbound state-changing request.
#[derive(Clone, Debug)]
pub enum ExecuteMsg {
    /// Delete a principal from the allow-list (idempotent).
    RemoveAllowance(String),
    /// Insert a principal into the allow-list (idempotent).
    AddAllowance(String),
    /// Owner-only: bind the token-issuing contract and reset the issuance
    /// counter.
    SetNFTContract { addr: String, token_uri: String },
    /// Create a player with a seed entity.
    Register { id: String },
    /// Append a freshly issued entity to the player's inventory and overwrite
    /// the vitality of the entity at `curr_pokemon`.
    CatchPokemon { id: String, token_uri: String, health: i32, curr_pokemon: i32 },
    /// Restore the vitality of the entity at `token_id` to 100.
    UpdateHealth { id: String, token_id: i32 },
    /// Increment the player's berry currency by one.
    CollectBerries { id: String },
    /// Set the player's default entity index (not bounds-checked).
    SetDefaultPokemon { id: String, pokemon: i32 },
}

/// An inbound read-only query.
#[derive(Clone, Debug)]
pub enum QueryMsg {
    /// Is the principal on the allow-list?
    CheckAllowance { addr: String },
    /// Look a player up by id.
    GetPlayer { id: String },
}

/// Answer to [`QueryMsg::GetPlayer`].
#[derive(Clone, Debug, PartialEq, Eq)]
pub struct PlayerResponse {
    pub player: Player,
}

/// Mathematical image of a [`PlayerResponse`].
#[verifier::ext_equal]
pub struct PlayerResponseView {
    pub player: PlayerView,
}

impl View for PlayerResponse {
    type V = PlayerResponseView;

    open spec fn view(&self) -> PlayerResponseView {
        PlayerResponseView { player: self.player@ }
    }
}

/// Answer to a [`QueryMsg`], one variant per query.
#[derive(Clone, Debug)]
pub enum QueryAnswer {
    Allowance(bool),
    Player(PlayerResponse),
}

/// An outgoing effect emitted alongside a successful operation. The caller
/// dispatches it after committing the operation's own writes; this core never
/// observes the receiver's outcome.
#[derive(Clone, Debug)]
pub enum OutgoingMsg {
    /// Register this contract as a fee granter with the runtime's
    /// fee-sponsorship module.
    RegisterGranter(MsgRegisterAsGranter),
    /// Ask the bound token-issuing contract to mint a token.
    Mint {
        /// The issuing contract the request is addressed to.
        contract_addr: String,
        /// The issuance id the token is minted under.
        token_id: i32,
        /// The principal the token is minted for.
        owner: String,
        /// Metadata location for the token.
        token_uri: String,
        /// The fixed publisher stamped on every minted token.
        publisher: String,
    },
}

/// Mathematical image of an [`OutgoingMsg`].
#[verifier::ext_equal]
pub enum OutgoingMsgView {
    RegisterGranter { granting_contract: Seq<char> },
    Mint {
        contract_addr: Seq<char>,
        token_id: int,
        owner: Seq<char>,
        token_uri: Seq<char>,
        publisher: Seq<char>,
    },
}

impl View for OutgoingMsg {
    type V = OutgoingMsgView;

    open spec fn view(&self) -> OutgoingMsgView {
        match self {
            OutgoingMsg::RegisterGranter(m) => OutgoingMsgView::RegisterGranter {
                granting_contract: m.granting_contract@,
            },
            OutgoingMsg::Mint { contract_addr, token_id, owner, token_uri, publisher } => {
                OutgoingMsgView::Mint {
                    contract_addr: contract_addr@,
                    token_id: *token_id as int,
                    owner: owner@,
                    token_uri: token_uri@,
                    publisher: publisher@,
                }
            },
        }
    }
}

/// The publisher name stamped on every mint request.
pub open spec fn spec_publisher() -> Seq<char> {
    "PokeArch"@
}

/// What a successful operation hands back: the outgoing effects to dispatch.
#[derive(Clone, Debug)]
pub struct Response {
    pub messages: Vec<OutgoingMsg>,
}

impl View for Response {
    type V = Seq<OutgoingMsgView>;

    open spec fn view(&self) -> Seq<OutgoingMsgView> {
        self.messages@.map_values(|m: OutgoingMsg| m@)
    }
}

impl Response {
    /// A response carrying no outgoing effect.
    pub fn empty() -> (r: Response)
        ensures
            r@ == Seq::<OutgoingMsgView>::empty(),
    {
        let r = Response { messages: Vec::new() };
        proof {
            assert(r@ =~= Seq::<OutgoingMsgView>::empty());
        }
        r
    }

    /// A response carrying exactly one outgoing effect.
    pub fn with_message(m: OutgoingMsg) -> (r: Response)
        ensures
            r@ == seq![m@],
    {
        let mut messages: Vec<OutgoingMsg> = Vec::new();
        let ghost mv = m@;
        messages.push(m);
        let r = Response { messages };
        proof {
            assert(r@ =~= seq![mv]);
        }
        r
    }
}

} // verus!
