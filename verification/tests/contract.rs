use pokearch::contract::{execute, instantiate, query};
use pokearch::msg::{ExecuteMsg, InstantiateMsg, PlayerResponse, QueryAnswer, QueryMsg};
use pokearch::state::{Player, Pokemon, Registry};

fn check_allowance_query(reg: &Registry, addr: &str) -> bool {
    match query(reg, QueryMsg::CheckAllowance { addr: addr.to_string() }) {
        Ok(QueryAnswer::Allowance(b)) => b,
        _ => panic!("allowance query must answer with a bool"),
    }
}

fn get_player_query(reg: &Registry, id: &str) -> PlayerResponse {
    match query(reg, QueryMsg::GetPlayer { id: id.to_string() }) {
        Ok(QueryAnswer::Player(pr)) => pr,
        _ => panic!("player query must answer with a player"),
    }
}

#[test]
fn proper_initialization() {
    let mut reg = Registry::new();

    let msg = InstantiateMsg {};
    let res = instantiate(
        &mut reg,
        "cosmos2contract".to_string(),
        "creator".to_string(),
        msg,
    )
    .unwrap();
    assert_eq!(1, res.messages.len());

    let value = check_allowance_query(&reg, "creator");
    assert_eq!(true, value);
}

#[test]
fn set_nft_address() {
    let mut reg = Registry::new();
    let msg = InstantiateMsg {};
    let _res = instantiate(
        &mut reg,
        "cosmos2contract".to_string(),
        "creator".to_string(),
        msg,
    )
    .unwrap();

    let msg = ExecuteMsg::SetNFTContract {
        addr: "nft".to_string(),
        token_uri: String::from("hello"),
    };
    let res = execute(
        &mut reg,
        "creator".to_string(),
        "cosmos2contract".to_string(),
        msg,
    )
    .unwrap();
    assert_eq!(1, res.messages.len());
}

#[test]
fn add_allowance() {
    let mut reg = Registry::new();
    let msg = ExecuteMsg::AddAllowance("sender".to_string());

    let res = execute(
        &mut reg,
        "sender".to_string(),
        "cosmos2contract".to_string(),
        msg,
    )
    .unwrap();
    assert_eq!(0, res.messages.len());

    let value = check_allowance_query(&reg, "sender");
    assert_eq!(true, value);
}

#[test]
fn register() {
    let mut reg = Registry::new();
    let msg = InstantiateMsg {};
    let _res = instantiate(
        &mut reg,
        "cosmos2contract".to_string(),
        "creator".to_string(),
        msg,
    )
    .unwrap();

    let msg = ExecuteMsg::Register {
        id: "hello.arch".to_string(),
    };
    let res = execute(
        &mut reg,
        "sender".to_string(),
        "cosmos2contract".to_string(),
        msg,
    )
    .unwrap();
    assert_eq!(0, res.messages.len());

    let mut pokemon: Vec<Pokemon> = Vec::new();
    pokemon.push(Pokemon {
        token_id: 0,
        index: 0,
        health: 100,
    });

    let player_data = Player {
        id: String::from("hello.arch"),
        potions: 0,
        berries: 0,
        default_pokemon: 0,
        pokemons: pokemon,
    };

    let value = get_player_query(&reg, "hello.arch");
    assert_eq!(
        PlayerResponse {
            player: player_data
        },
        value
    );
}

#[test]
fn test_game() {
    let mut reg = Registry::new();

    let msg = InstantiateMsg {};
    let _res = instantiate(
        &mut reg,
        "cosmos2contract".to_string(),
        "creator".to_string(),
        msg,
    )
    .unwrap();

    let msg = ExecuteMsg::SetNFTContract {
        addr: "nft".to_string(),
        token_uri: String::from("hello"),
    };
    let _res = execute(
        &mut reg,
        "creator".to_string(),
        "cosmos2contract".to_string(),
        msg,
    )
    .unwrap();

    let msg = ExecuteMsg::Register {
        id: String::from("hello.arch"),
    };
    let _res = execute(
        &mut reg,
        "sender".to_string(),
        "cosmos2contract".to_string(),
        msg,
    )
    .unwrap();

    let msg = ExecuteMsg::CatchPokemon {
        id: String::from("hello.arch"),
        token_uri: String::from("hello"),
        health: 32,
        curr_pokemon: 0,
    };
    let res = execute(
        &mut reg,
        "sender".to_string(),
        "cosmos2contract".to_string(),
        msg,
    )
    .unwrap();
    assert_eq!(1, res.messages.len());

    let mut pokemon: Vec<Pokemon> = Vec::new();
    pokemon.push(Pokemon {
        token_id: 0,
        index: 0,
        health: 32,
    });
    pokemon.push(Pokemon {
        token_id: 1,
        index: 1,
        health: 100,
    });

    let player_data = Player {
        id: String::from("hello.arch"),
        potions: 0,
        berries: 0,
        default_pokemon: 0,
        pokemons: pokemon,
    };

    let value = get_player_query(&reg, "hello.arch");
    assert_eq!(
        PlayerResponse {
            player: player_data
        },
        value
    );

    let msg = ExecuteMsg::UpdateHealth {
        id: String::from("hello.arch"),
        token_id: 0,
    };
    let res = execute(
        &mut reg,
        "sender".to_string(),
        "cosmos2contract".to_string(),
        msg,
    )
    .unwrap();
    assert_eq!(0, res.messages.len());

    let mut pokemon: Vec<Pokemon> = Vec::new();
    pokemon.push(Pokemon {
        token_id: 0,
        index: 0,
        health: 100,
    });
    pokemon.push(Pokemon {
        token_id: 1,
        index: 1,
        health: 100,
    });

    let player_data = Player {
        id: String::from("hello.arch"),
        potions: 0,
        berries: 0,
        default_pokemon: 0,
        pokemons: pokemon,
    };

    let value = get_player_query(&reg, "hello.arch");
    assert_eq!(
        PlayerResponse {
            player: player_data
        },
        value
    );

    let msg = ExecuteMsg::CatchPokemon {
        id: String::from("hello.arch"),
        token_uri: String::from("hello"),
        health: 32,
        curr_pokemon: 0,
    };
    let res = execute(
        &mut reg,
        "sender".to_string(),
        "cosmos2contract".to_string(),
        msg,
    )
    .unwrap();
    assert_eq!(1, res.messages.len());
}

#[test]
fn register_twice_fails_and_keeps_player() {
    let mut reg = Registry::new();
    pokearch::contract::register(&mut reg, "ash".to_string()).unwrap();

    let err = pokearch::contract::register(&mut reg, "ash".to_string()).unwrap_err();
    assert!(matches!(err, pokearch::ContractError::AlreadyExists {}));

    let value = get_player_query(&reg, "ash");
    assert_eq!(value.player.pokemons.len(), 1);
    assert_eq!(value.player.pokemons[0].token_id, 0);
    assert_eq!(value.player.pokemons[0].health, 100);
}

#[test]
fn restore_vitality_overwrites_any_prior_value() {
    let mut reg = Registry::new();
    instantiate(
        &mut reg,
        "cosmos2contract".to_string(),
        "creator".to_string(),
        InstantiateMsg {},
    )
    .unwrap();
    execute(
        &mut reg,
        "creator".to_string(),
        "cosmos2contract".to_string(),
        ExecuteMsg::SetNFTContract {
            addr: "nft".to_string(),
            token_uri: "hello".to_string(),
        },
    )
    .unwrap();
    pokearch::contract::register(&mut reg, "misty".to_string()).unwrap();
    execute(
        &mut reg,
        "misty".to_string(),
        "cosmos2contract".to_string(),
        ExecuteMsg::CatchPokemon {
            id: "misty".to_string(),
            token_uri: "uri".to_string(),
            health: 7,
            curr_pokemon: 0,
        },
    )
    .unwrap();
    assert_eq!(get_player_query(&reg, "misty").player.pokemons[0].health, 7);

    pokearch::contract::update_health(&mut reg, "misty".to_string(), 0).unwrap();
    assert_eq!(
        get_player_query(&reg, "misty").player.pokemons[0].health,
        100
    );

    let err = pokearch::contract::update_health(&mut reg, "misty".to_string(), 5).unwrap_err();
    assert!(matches!(err, pokearch::ContractError::IndexOutOfRange {}));
    let err = pokearch::contract::update_health(&mut reg, "misty".to_string(), -1).unwrap_err();
    assert!(matches!(err, pokearch::ContractError::IndexOutOfRange {}));
}

#[test]
fn collect_berries_increments_by_one() {
    let mut reg = Registry::new();
    pokearch::contract::register(&mut reg, "brock".to_string()).unwrap();

    let before = get_player_query(&reg, "brock").player;
    execute(
        &mut reg,
        "brock".to_string(),
        "cosmos2contract".to_string(),
        ExecuteMsg::CollectBerries {
            id: "brock".to_string(),
        },
    )
    .unwrap();
    let after = get_player_query(&reg, "brock").player;

    assert_eq!(after.berries, before.berries + 1);
    assert_eq!(after.potions, before.potions);
    assert_eq!(after.default_pokemon, before.default_pokemon);
    assert_eq!(after.pokemons, before.pokemons);
    assert_eq!(after.id, before.id);
}

#[test]
fn issuance_ids_are_monotone_across_players() {
    let mut reg = Registry::new();
    instantiate(
        &mut reg,
        "cosmos2contract".to_string(),
        "creator".to_string(),
        InstantiateMsg {},
    )
    .unwrap();
    execute(
        &mut reg,
        "creator".to_string(),
        "cosmos2contract".to_string(),
        ExecuteMsg::SetNFTContract {
            addr: "nft".to_string(),
            token_uri: "hello".to_string(),
        },
    )
    .unwrap();
    pokearch::contract::register(&mut reg, "red".to_string()).unwrap();
    pokearch::contract::register(&mut reg, "blue".to_string()).unwrap();
    assert_eq!(reg.token, Some(0));

    for (n, id) in [(1, "red"), (2, "blue"), (3, "red")] {
        execute(
            &mut reg,
            id.to_string(),
            "cosmos2contract".to_string(),
            ExecuteMsg::CatchPokemon {
                id: id.to_string(),
                token_uri: "uri".to_string(),
                health: 50,
                curr_pokemon: 0,
            },
        )
        .unwrap();
        let latest = get_player_query(&reg, id)
            .player
            .pokemons
            .last()
            .unwrap()
            .token_id;
        assert_eq!(latest, n);
        // the counter always equals the number of successful catches
        assert_eq!(reg.token, Some(n));
    }

    let mut issued: Vec<i32> = Vec::new();
    for id in ["red", "blue"] {
        for p in get_player_query(&reg, id).player.pokemons {
            if p.token_id >= 1 {
                issued.push(p.token_id);
            }
        }
    }
    issued.sort();
    assert_eq!(issued, vec![1, 2, 3]);
}

#[test]
fn operations_fail_cleanly_on_missing_state() {
    let mut reg = Registry::new();

    // catching before the issuer is bound
    let err = execute(
        &mut reg,
        "sender".to_string(),
        "cosmos2contract".to_string(),
        ExecuteMsg::CatchPokemon {
            id: "nobody".to_string(),
            token_uri: "uri".to_string(),
            health: 1,
            curr_pokemon: 0,
        },
    )
    .unwrap_err();
    assert!(matches!(err, pokearch::ContractError::NotFound {}));

    // binding the issuer before an owner exists
    let err = execute(
        &mut reg,
        "creator".to_string(),
        "cosmos2contract".to_string(),
        ExecuteMsg::SetNFTContract {
            addr: "nft".to_string(),
            token_uri: "hello".to_string(),
        },
    )
    .unwrap_err();
    assert!(matches!(err, pokearch::ContractError::NotFound {}));

    // binding the issuer from a non-owner
    instantiate(
        &mut reg,
        "cosmos2contract".to_string(),
        "creator".to_string(),
        InstantiateMsg {},
    )
    .unwrap();
    let err = execute(
        &mut reg,
        "mallory".to_string(),
        "cosmos2contract".to_string(),
        ExecuteMsg::SetNFTContract {
            addr: "nft".to_string(),
            token_uri: "hello".to_string(),
        },
    )
    .unwrap_err();
    assert!(matches!(err, pokearch::ContractError::Unauthorized {}));

    // touching an unknown player
    let err = pokearch::contract::update_health(&mut reg, "nobody".to_string(), 0).unwrap_err();
    assert!(matches!(err, pokearch::ContractError::NotFound {}));
    let err = query(
        &reg,
        QueryMsg::GetPlayer {
            id: "nobody".to_string(),
        },
    )
    .unwrap_err();
    assert!(matches!(err, pokearch::ContractError::NotFound {}));
}

#[test]
fn allowance_can_be_revoked() {
    let mut reg = Registry::new();
    execute(
        &mut reg,
        "sender".to_string(),
        "cosmos2contract".to_string(),
        ExecuteMsg::AddAllowance("friend".to_string()),
    )
    .unwrap();
    assert!(check_allowance_query(&reg, "friend"));

    execute(
        &mut reg,
        "sender".to_string(),
        "cosmos2contract".to_string(),
        ExecuteMsg::RemoveAllowance("friend".to_string()),
    )
    .unwrap();
    assert!(!check_allowance_query(&reg, "friend"));

    // revoking an absent principal is no error
    execute(
        &mut reg,
        "sender".to_string(),
        "cosmos2contract".to_string(),
        ExecuteMsg::RemoveAllowance("friend".to_string()),
    )
    .unwrap();
    assert!(!check_allowance_query(&reg, "friend"));
}

#[test]
fn errors_describe_themselves() {
    let mut reg = Registry::new();
    pokearch::contract::register(&mut reg, "ash".to_string()).unwrap();
    let err = pokearch::contract::register(&mut reg, "ash".to_string()).unwrap_err();
    assert_eq!(err.describe(), "player id already registered");

    let err = pokearch::contract::update_health(&mut reg, "nobody".to_string(), 0).unwrap_err();
    assert_eq!(err.describe(), "not found");

    let err = pokearch::contract::update_health(&mut reg, "ash".to_string(), 9).unwrap_err();
    assert_eq!(err.describe(), "inventory index out of range");
}

#[test]
fn set_default_pokemon_stores_any_index() {
    let mut reg = Registry::new();
    pokearch::contract::register(&mut reg, "gary".to_string()).unwrap();
    execute(
        &mut reg,
        "gary".to_string(),
        "cosmos2contract".to_string(),
        ExecuteMsg::SetDefaultPokemon {
            id: "gary".to_string(),
            pokemon: 41,
        },
    )
    .unwrap();
    assert_eq!(get_player_query(&reg, "gary").player.default_pokemon, 41);
}
