use eco_contracts::{
    Address, Auth, EcoToken, Error, GameConfig, GameEvent, GameRewards, GameSession, PlayerStats,
    SessionResult, TokenEvent,
};

fn address(text: &str) -> Address {
    Address::from_str(text)
}

struct Deployment {
    token: EcoToken,
    game: GameRewards,
    auth: Auth,
    player: Address,
}

/// A token ledger whose admin is the game ledger's own address, a game
/// ledger with an admin of its own, and the approvals of everybody.
fn deploy() -> Deployment {
    let eco_token_id = address("CTOKEN");
    let game_rewards_id = address("CGAME");
    let admin = address("GADMIN");
    let player = address("GPLAYER");
    let auth = Auth::of(&admin).and(&player).and(&game_rewards_id).and(&eco_token_id);

    let mut token = EcoToken::new();
    let mut game = GameRewards::new();
    token.initialize(&auth, &game_rewards_id).unwrap();
    game.initialize(&auth, &admin, &eco_token_id).unwrap();
    Deployment { token, game, auth, player }
}

#[test]
fn test_test_initialize() {
    let mut game = GameRewards::new();
    let admin = address("GADMIN");
    let eco_token = address("CTOKEN");
    let auth = Auth::of(&admin).and(&eco_token);

    game.initialize(&auth, &admin, &eco_token).unwrap();

    assert_eq!(game.get_eco_token_contract(), Ok(eco_token));
}

#[test]
fn test_record_game_session() {
    let Deployment { mut token, mut game, auth, player } = deploy();

    let result = game
        .record_game_session(&mut token, &auth, &player, 500, String::from("quest"), 1)
        .unwrap();

    assert_eq!(result.session_id, 1);
    assert_eq!(result.tokens_earned, 50 * 10_000_000);

    let stats = game.get_player_stats(&player);
    assert_eq!(stats.total_games_played, 1);
    assert_eq!(stats.total_score, 500);
    assert_eq!(stats.total_tokens_earned, 50 * 10_000_000);

    let balance = token.balance(&player);
    assert_eq!(balance, 50 * 10_000_000);
}

#[test]
fn test_minimum_score_requirement() {
    let Deployment { mut token, mut game, auth, player } = deploy();

    let result = game
        .record_game_session(&mut token, &auth, &player, 40, String::from("puzzle"), 1)
        .unwrap();

    assert_eq!(result.tokens_earned, 0);

    let balance = token.balance(&player);
    assert_eq!(balance, 0);
}

#[test]
fn test_maximum_reward_cap() {
    let Deployment { mut token, mut game, auth, player } = deploy();

    let result = game
        .record_game_session(&mut token, &auth, &player, 20000, String::from("boss_battle"), 1)
        .unwrap();

    assert_eq!(result.tokens_earned, 1000 * 10_000_000);
}

#[test]
fn test_multiple_sessions() {
    let Deployment { mut token, mut game, auth, player } = deploy();

    game.record_game_session(&mut token, &auth, &player, 100, String::from("quest"), 1).unwrap();
    game.record_game_session(&mut token, &auth, &player, 200, String::from("puzzle"), 2).unwrap();
    game.record_game_session(&mut token, &auth, &player, 300, String::from("battle"), 3).unwrap();

    let stats = game.get_player_stats(&player);
    assert_eq!(stats.total_games_played, 3);
    assert_eq!(stats.total_score, 600);
    assert_eq!(stats.total_tokens_earned, 60 * 10_000_000);

    assert_eq!(game.get_total_sessions(), 3);
}

#[test]
fn test_get_game_session() {
    let Deployment { mut token, mut game, auth, player } = deploy();

    let game_type = String::from("adventure");
    game.record_game_session(&mut token, &auth, &player, 750, game_type.clone(), 1).unwrap();

    let session = game.get_game_session(1).unwrap();

    assert_eq!(session.session_id, 1);
    assert_eq!(session.player, player);
    assert_eq!(session.score, 750);
    assert_eq!(session.game_type, game_type);
    assert_eq!(session.tokens_earned, 75 * 10_000_000);
}

#[test]
fn reward_is_one_token_for_ten_points_from_fifty_up_to_a_thousand_tokens() {
    assert_eq!(GameRewards::calculate_rewards(500), 50_0000000);
    assert_eq!(GameRewards::calculate_rewards(40), 0);
    assert_eq!(GameRewards::calculate_rewards(20000), 1000_0000000);
    assert_eq!(GameRewards::calculate_rewards(750), 75_0000000);
    // the edges of the floor
    assert_eq!(GameRewards::calculate_rewards(0), 0);
    assert_eq!(GameRewards::calculate_rewards(49), 0);
    assert_eq!(GameRewards::calculate_rewards(50), 5_0000000);
    // the division truncates
    assert_eq!(GameRewards::calculate_rewards(59), 5_0000000);
    assert_eq!(GameRewards::calculate_rewards(60), 6_0000000);
    // the edges of the cap
    assert_eq!(GameRewards::calculate_rewards(9999), 999_0000000);
    assert_eq!(GameRewards::calculate_rewards(10000), 1000_0000000);
    assert_eq!(GameRewards::calculate_rewards(10009), 1000_0000000);
    assert_eq!(GameRewards::calculate_rewards(10010), 1000_0000000);
    assert_eq!(GameRewards::calculate_rewards(u32::MAX), 1000_0000000);
}

#[test]
fn stats_of_a_player_who_never_played_are_zero() {
    let Deployment { game, player, .. } = deploy();
    assert_eq!(
        game.get_player_stats(&player),
        PlayerStats { total_games_played: 0, total_score: 0, total_tokens_earned: 0 }
    );
    assert_eq!(
        GameRewards::new().get_player_stats(&player),
        PlayerStats { total_games_played: 0, total_score: 0, total_tokens_earned: 0 }
    );
}

#[test]
fn unknown_session_is_not_found() {
    let Deployment { mut token, mut game, auth, player } = deploy();
    assert_eq!(game.get_game_session(1), Err(Error::NotFound));
    assert_eq!(game.get_game_session(0), Err(Error::NotFound));
    game.record_game_session(&mut token, &auth, &player, 60, String::from("quest"), 9).unwrap();
    assert_eq!(game.get_game_session(0), Err(Error::NotFound));
    assert_eq!(game.get_game_session(2), Err(Error::NotFound));
    assert_eq!(
        game.get_game_session(1),
        Ok(GameSession {
            session_id: 1,
            player: player.clone(),
            score: 60,
            game_type: String::from("quest"),
            tokens_earned: 6_0000000,
            timestamp: 9,
        })
    );
}

#[test]
fn accessors_before_initialize() {
    let game = GameRewards::new();
    assert_eq!(game.get_total_sessions(), 0);
    assert_eq!(game.get_eco_token_contract(), Err(Error::NotInitialized));
}

#[test]
fn game_ledger_cannot_be_initialized_twice() {
    let Deployment { mut token, mut game, auth, player } = deploy();
    game.record_game_session(&mut token, &auth, &player, 100, String::from("quest"), 1).unwrap();

    assert_eq!(
        game.initialize(&auth, &player, &address("COTHER")),
        Err(Error::AlreadyInitialized)
    );
    assert_eq!(game.get_eco_token_contract(), Ok(address("CTOKEN")));
    assert_eq!(game.get_total_sessions(), 1);
    assert_eq!(game.get_player_stats(&player).total_games_played, 1);
    // the admin is still the first one
    assert_eq!(
        game.record_game_session(&mut token, &Auth::of(&player), &player, 100, String::from("quest"), 1),
        Err(Error::NotAuthorized)
    );
    // without the approval of the address named, that is what is reported
    assert_eq!(
        game.initialize(&Auth::none(), &player, &address("COTHER")),
        Err(Error::NotAuthorized)
    );
}

#[test]
fn session_is_refused_in_the_order_of_its_checks() {
    let admin = address("GADMIN");
    let player = address("GPLAYER");
    let mut token = EcoToken::new();
    let mut game = GameRewards::new();

    assert_eq!(
        game.record_game_session(&mut token, &Auth::none(), &player, 0, String::from("quest"), 1),
        Err(Error::NotInitialized)
    );
    token.initialize(&Auth::of(&admin), &admin).unwrap();
    game.initialize(&Auth::of(&admin), &admin, &address("CTOKEN")).unwrap();
    // a score of 0 is refused before the approval is asked for
    assert_eq!(
        game.record_game_session(&mut token, &Auth::none(), &player, 0, String::from("quest"), 1),
        Err(Error::InvalidAmount)
    );
    assert_eq!(
        game.record_game_session(&mut token, &Auth::of(&player), &player, 10, String::from("quest"), 1),
        Err(Error::NotAuthorized)
    );
    assert_eq!(game.get_total_sessions(), 0);
    assert_eq!(game.get_player_stats(&player).total_games_played, 0);
    assert_eq!(game.get_game_session(1), Err(Error::NotFound));
    assert_eq!(
        game.record_game_session(&mut token, &Auth::of(&admin), &player, 10, String::from("quest"), 1),
        Ok(SessionResult { session_id: 1, tokens_earned: 0 })
    );
}

#[test]
fn session_is_not_recorded_where_the_token_ledger_refuses_to_mint() {
    let admin = address("GADMIN");
    let token_admin = address("GTOKENADMIN");
    let player = address("GPLAYER");
    let only_game_admin = Auth::of(&admin);

    // the token ledger is not initialized
    let mut token = EcoToken::new();
    let mut game = GameRewards::new();
    game.initialize(&only_game_admin, &admin, &address("CTOKEN")).unwrap();
    assert_eq!(
        game.record_game_session(&mut token, &only_game_admin, &player, 500, String::from("quest"), 1),
        Err(Error::NotInitialized)
    );
    assert_eq!(game.get_total_sessions(), 0);
    assert_eq!(game.get_game_session(1), Err(Error::NotFound));
    assert_eq!(game.get_player_stats(&player).total_score, 0);
    assert_eq!(game.take_events(), vec![]);

    // the token ledger has another admin, who has not approved
    token.initialize(&Auth::of(&token_admin), &token_admin).unwrap();
    assert_eq!(
        game.record_game_session(&mut token, &only_game_admin, &player, 500, String::from("quest"), 1),
        Err(Error::NotAuthorized)
    );
    assert_eq!(game.get_total_sessions(), 0);
    assert_eq!(game.get_player_stats(&player).total_games_played, 0);
    assert_eq!(token.balance(&player), 0);
    assert_eq!(token.get_total_supply(), 0);

    // a session without reward needs nothing of the token ledger
    assert_eq!(
        game.record_game_session(&mut token, &only_game_admin, &player, 49, String::from("quest"), 1),
        Ok(SessionResult { session_id: 1, tokens_earned: 0 })
    );
    assert_eq!(token.take_events(), vec![]);

    // with both approvals the reward is minted
    let both = Auth::of(&admin).and(&token_admin);
    assert_eq!(
        game.record_game_session(&mut token, &both, &player, 500, String::from("quest"), 2),
        Ok(SessionResult { session_id: 2, tokens_earned: 50_0000000 })
    );
    assert_eq!(token.balance(&player), 50_0000000);
    assert_eq!(token.get_total_supply(), 50_0000000);
    assert_eq!(
        token.take_events(),
        vec![TokenEvent::Mint { to: player.clone(), amount: 50_0000000 }]
    );

    // the supply of the token ledger is exhausted
    let mut full = EcoToken::restore(
        Some(token_admin.clone()),
        i128::MAX,
        vec![(address("GWHALE"), i128::MAX)],
    );
    assert_eq!(
        game.record_game_session(&mut full, &both, &player, 500, String::from("quest"), 3),
        Err(Error::Overflow)
    );
    assert_eq!(game.get_total_sessions(), 2);
    assert_eq!(game.get_player_stats(&player).total_games_played, 2);
    assert_eq!(full.balance(&player), 0);
}

#[test]
fn session_is_refused_where_a_counter_would_overflow() {
    let admin = address("GADMIN");
    let player = address("GPLAYER");
    let auth = Auth::of(&admin);
    let config = || Some(GameConfig { admin: address("GADMIN"), eco_token_contract: address("CTOKEN") });
    let token = || {
        let mut token = EcoToken::new();
        token.initialize(&Auth::of(&address("GADMIN")), &address("GADMIN")).unwrap();
        token
    };

    let mut game = GameRewards::restore(config(), u64::MAX, vec![], vec![]);
    let mut ledger = token();
    assert_eq!(
        game.record_game_session(&mut ledger, &auth, &player, 500, String::from("quest"), 1),
        Err(Error::Overflow)
    );
    assert_eq!(game.get_total_sessions(), u64::MAX);
    assert_eq!(ledger.balance(&player), 0);

    let full = |stats: PlayerStats| {
        GameRewards::restore(config(), 7, vec![], vec![(address("GPLAYER"), stats)])
    };
    let mut game = full(PlayerStats {
        total_games_played: u32::MAX,
        total_score: 0,
        total_tokens_earned: 0,
    });
    assert_eq!(
        game.record_game_session(&mut ledger, &auth, &player, 500, String::from("quest"), 1),
        Err(Error::Overflow)
    );
    let mut game = full(PlayerStats {
        total_games_played: 0,
        total_score: u64::MAX - 499,
        total_tokens_earned: 0,
    });
    assert_eq!(
        game.record_game_session(&mut ledger, &auth, &player, 500, String::from("quest"), 1),
        Err(Error::Overflow)
    );
    assert_eq!(
        game.record_game_session(&mut ledger, &auth, &player, 499, String::from("quest"), 1),
        Ok(SessionResult { session_id: 8, tokens_earned: 49_0000000 })
    );
    assert_eq!(game.get_player_stats(&player).total_score, u64::MAX);
    let mut game = full(PlayerStats {
        total_games_played: 0,
        total_score: 0,
        total_tokens_earned: i128::MAX - 50_0000000 + 1,
    });
    assert_eq!(
        game.record_game_session(&mut ledger, &auth, &player, 500, String::from("quest"), 1),
        Err(Error::Overflow)
    );
    assert_eq!(game.get_total_sessions(), 7);
    assert_eq!(ledger.balance(&player), 49_0000000);
}

#[test]
fn sessions_of_several_players_are_numbered_in_one_sequence() {
    let Deployment { mut token, mut game, auth, player } = deploy();
    let other = address("GOTHER");

    let first = game
        .record_game_session(&mut token, &auth, &player, 100, String::from("quest"), 11)
        .unwrap();
    let second = game
        .record_game_session(&mut token, &auth, &other, 250, String::from("puzzle"), 12)
        .unwrap();
    let third = game
        .record_game_session(&mut token, &auth, &player, 30, String::from("battle"), 13)
        .unwrap();
    assert_eq!((first.session_id, second.session_id, third.session_id), (1, 2, 3));
    assert_eq!(game.get_total_sessions(), 3);

    assert_eq!(
        game.get_player_stats(&player),
        PlayerStats { total_games_played: 2, total_score: 130, total_tokens_earned: 10_0000000 }
    );
    assert_eq!(
        game.get_player_stats(&other),
        PlayerStats { total_games_played: 1, total_score: 250, total_tokens_earned: 25_0000000 }
    );
    // each player's totals are those of the player's sessions
    let mut earned = 0;
    let mut played = 0;
    for id in 1..=3 {
        let session = game.get_game_session(id).unwrap();
        assert_eq!(session.session_id, id);
        assert_eq!(session.timestamp, 10 + id);
        if session.player == player {
            earned += session.tokens_earned;
            played += 1;
        }
    }
    assert_eq!(earned, game.get_player_stats(&player).total_tokens_earned);
    assert_eq!(played, game.get_player_stats(&player).total_games_played);
    assert_eq!(token.balance(&player), 10_0000000);
    assert_eq!(token.balance(&other), 25_0000000);
    assert_eq!(token.get_total_supply(), 35_0000000);

    assert_eq!(
        game.take_events(),
        vec![
            GameEvent::GameDone {
                player: player.clone(),
                session_id: 1,
                score: 100,
                tokens_earned: 10_0000000
            },
            GameEvent::GameDone {
                player: other.clone(),
                session_id: 2,
                score: 250,
                tokens_earned: 25_0000000
            },
            GameEvent::GameDone { player: player.clone(), session_id: 3, score: 30, tokens_earned: 0 },
        ]
    );
    assert_eq!(game.take_events(), vec![]);
}

#[test]
fn record_session_mints_nothing() {
    let admin = address("GADMIN");
    let player = address("GPLAYER");
    let auth = Auth::of(&admin);
    let mut game = GameRewards::new();

    assert_eq!(
        game.record_session(&auth, &player, 500, String::from("quest"), 4),
        Err(Error::NotInitialized)
    );
    game.initialize(&auth, &admin, &address("CTOKEN")).unwrap();
    assert_eq!(
        game.record_session(&auth, &player, 0, String::from("quest"), 4),
        Err(Error::InvalidAmount)
    );
    assert_eq!(
        game.record_session(&Auth::none(), &player, 500, String::from("quest"), 4),
        Err(Error::NotAuthorized)
    );
    assert_eq!(
        game.record_session(&auth, &player, 500, String::from("quest"), 4),
        Ok(SessionResult { session_id: 1, tokens_earned: 50_0000000 })
    );
    assert_eq!(game.get_total_sessions(), 1);
    assert_eq!(
        game.get_player_stats(&player),
        PlayerStats { total_games_played: 1, total_score: 500, total_tokens_earned: 50_0000000 }
    );
    assert_eq!(game.get_game_session(1).unwrap().timestamp, 4);
}

#[test]
fn player_stats_add_up_or_give_none() {
    let zero = PlayerStats { total_games_played: 0, total_score: 0, total_tokens_earned: 0 };
    assert_eq!(
        zero.with_session(7, 3),
        Some(PlayerStats { total_games_played: 1, total_score: 7, total_tokens_earned: 3 })
    );
    let high = PlayerStats {
        total_games_played: u32::MAX - 1,
        total_score: u64::MAX - 7,
        total_tokens_earned: i128::MAX - 3,
    };
    assert_eq!(
        high.with_session(7, 3),
        Some(PlayerStats {
            total_games_played: u32::MAX,
            total_score: u64::MAX,
            total_tokens_earned: i128::MAX
        })
    );
    assert_eq!(high.with_session(8, 3), None);
    assert_eq!(high.with_session(7, 4), None);
    assert_eq!(high.with_session(7, 3).unwrap().with_session(0, 0), None);
}

#[test]
fn restored_game_ledger_is_in_the_state_given() {
    let player = address("GPLAYER");
    let session = |id: u64, score: u32| GameSession {
        session_id: id,
        player: address("GPLAYER"),
        score,
        game_type: String::from("quest"),
        tokens_earned: GameRewards::calculate_rewards(score),
        timestamp: 1,
    };
    let game = GameRewards::restore(
        Some(GameConfig { admin: address("GADMIN"), eco_token_contract: address("CTOKEN") }),
        5,
        vec![(2, session(2, 70)), (5, session(5, 90)), (2, session(2, 10))],
        vec![(
            player.clone(),
            PlayerStats { total_games_played: 2, total_score: 160, total_tokens_earned: 16_0000000 },
        )],
    );
    assert_eq!(game.get_total_sessions(), 5);
    assert_eq!(game.get_eco_token_contract(), Ok(address("CTOKEN")));
    assert_eq!(game.get_game_session(2), Ok(session(2, 70)));
    assert_eq!(game.get_game_session(5), Ok(session(5, 90)));
    assert_eq!(game.get_game_session(1), Err(Error::NotFound));
    assert_eq!(game.get_player_stats(&player).total_score, 160);
    assert_eq!(game.get_player_stats(&address("GOTHER")).total_score, 0);
}
