use game_session::Contract;
use game_session::GameError;

fn md5_hex(s: &str) -> String {
    format!("{:x}", md5::compute(s))
}

#[test]
fn scenario_full_session() {
    let mut c = Contract::default();

    let id = c.create_game("alice".to_string());
    assert_eq!(id, 1);
    let g = c.get_game_state(1).unwrap();
    assert!(!g.is_started);
    assert!(g.is_active);
    assert_eq!(g.players, vec!["alice".to_string()]);
    assert_eq!(g.current_player_index, 0);
    assert_eq!(g.turn_count, 0);
    assert_eq!(g.id, 1);

    assert_eq!(c.join_game(1, "bob".to_string()), Ok(()));
    let g = c.get_game_state(1).unwrap();
    assert_eq!(g.players, vec!["alice".to_string(), "bob".to_string()]);

    assert_eq!(c.start_game(1), Ok(()));
    let g = c.get_game_state(1).unwrap();
    assert!(g.is_started);

    assert_eq!(c.submit_action(1, "h1".to_string(), "alice".to_string()), Ok(()));
    let g = c.get_game_state(1).unwrap();
    assert_eq!(g.turn_count, 1);
    assert_eq!(g.current_player_index, 1);

    assert_eq!(
        c.submit_action(1, "h2".to_string(), "alice".to_string()),
        Err(GameError::WrongTurn)
    );

    assert_eq!(c.submit_action(1, "h2".to_string(), "bob".to_string()), Ok(()));
    let g = c.get_game_state(1).unwrap();
    assert_eq!(g.turn_count, 2);
    assert_eq!(g.current_player_index, 0);

    assert_eq!(c.end_game(1, "alice".to_string()), Ok(()));
    let g = c.get_game_state(1).unwrap();
    assert!(!g.is_active);

    assert_eq!(c.join_game(1, "carol".to_string()), Err(GameError::NotActive));
}

#[test]
fn fingerprint_matches_md5_chain() {
    let mut c = Contract::default();
    let id = c.create_game("alice".to_string());
    assert_eq!(id, 1);

    let seeded = md5_hex("1alice");
    assert_eq!(c.get_game_state(1).unwrap().state_hash, seeded);

    assert_eq!(c.join_game(1, "bob".to_string()), Ok(()));
    assert_eq!(c.get_game_state(1).unwrap().state_hash, seeded);

    assert_eq!(c.start_game(1), Ok(()));
    let started = md5_hex("1alice,bob");
    assert_eq!(c.get_game_state(1).unwrap().state_hash, started);

    assert_eq!(c.submit_action(1, "h1".to_string(), "alice".to_string()), Ok(()));
    let after_h1 = md5_hex(&format!("{}h1", started));
    assert_eq!(c.get_game_state(1).unwrap().state_hash, after_h1);

    assert_eq!(c.submit_action(1, "h2".to_string(), "bob".to_string()), Ok(()));
    let after_h2 = md5_hex(&format!("{}h2", after_h1));
    assert_eq!(c.get_game_state(1).unwrap().state_hash, after_h2);
}

fn fresh_started_pair() -> Contract {
    let mut c = Contract::default();
    let id = c.create_game("alice".to_string());
    assert_eq!(id, 1);
    assert_eq!(c.join_game(1, "bob".to_string()), Ok(()));
    assert_eq!(c.start_game(1), Ok(()));
    c
}

#[test]
fn fingerprints_are_order_sensitive() {
    let mut c1 = fresh_started_pair();
    assert_eq!(c1.submit_action(1, "x".to_string(), "alice".to_string()), Ok(()));
    assert_eq!(c1.submit_action(1, "y".to_string(), "bob".to_string()), Ok(()));

    let mut c2 = fresh_started_pair();
    assert_eq!(c2.submit_action(1, "y".to_string(), "alice".to_string()), Ok(()));
    assert_eq!(c2.submit_action(1, "x".to_string(), "bob".to_string()), Ok(()));

    let h1 = c1.get_game_state(1).unwrap().state_hash;
    let h2 = c2.get_game_state(1).unwrap().state_hash;
    assert_ne!(h1, h2);
}

#[test]
fn replaying_the_same_inputs_reproduces_the_trace() {
    let mut c1 = fresh_started_pair();
    let mut c2 = fresh_started_pair();
    let script = [("a1", "alice"), ("b1", "bob"), ("a2", "alice"), ("b2", "bob")];
    for (hash, actor) in script {
        assert_eq!(c1.submit_action(1, hash.to_string(), actor.to_string()), Ok(()));
        assert_eq!(c2.submit_action(1, hash.to_string(), actor.to_string()), Ok(()));
        let h1 = c1.get_game_state(1).unwrap().state_hash;
        let h2 = c2.get_game_state(1).unwrap().state_hash;
        assert_eq!(h1, h2);
    }
}

#[test]
fn unknown_session_reports_not_found() {
    let mut c = Contract::default();
    assert_eq!(c.start_game(7), Err(GameError::NotFound));
    assert_eq!(c.join_game(7, "bob".to_string()), Err(GameError::NotFound));
    assert_eq!(
        c.submit_action(7, "h".to_string(), "bob".to_string()),
        Err(GameError::NotFound)
    );
    assert_eq!(c.end_game(7, "bob".to_string()), Err(GameError::NotFound));
    assert!(c.get_game_state(7).is_none());
    assert!(c.get_game_actions(7).is_empty());
}

#[test]
fn start_needs_two_players_and_happens_once() {
    let mut c = Contract::default();
    let id = c.create_game("alice".to_string());
    assert_eq!(c.start_game(id), Err(GameError::InsufficientPlayers));
    assert!(!c.get_game_state(id).unwrap().is_started);
    assert_eq!(c.join_game(id, "bob".to_string()), Ok(()));
    assert_eq!(c.start_game(id), Ok(()));
    assert_eq!(c.start_game(id), Err(GameError::AlreadyStarted));
    assert!(c.get_game_state(id).unwrap().is_started);
}

#[test]
fn join_stops_at_ten_players() {
    let mut c = Contract::default();
    let id = c.create_game("p0".to_string());
    for i in 1..10 {
        assert_eq!(c.join_game(id, format!("p{}", i)), Ok(()));
    }
    assert_eq!(c.get_game_state(id).unwrap().players.len(), 10);
    assert_eq!(c.join_game(id, "p10".to_string()), Err(GameError::Full));
    assert_eq!(c.get_game_state(id).unwrap().players.len(), 10);
}

#[test]
fn duplicate_identities_and_late_joins_are_permitted() {
    let mut c = Contract::default();
    let id = c.create_game("alice".to_string());
    assert_eq!(c.join_game(id, "bob".to_string()), Ok(()));
    assert_eq!(c.join_game(id, "bob".to_string()), Ok(()));
    assert_eq!(c.start_game(id), Ok(()));
    assert_eq!(c.join_game(id, "carol".to_string()), Ok(()));
    let g = c.get_game_state(id).unwrap();
    assert_eq!(
        g.players,
        vec![
            "alice".to_string(),
            "bob".to_string(),
            "bob".to_string(),
            "carol".to_string()
        ]
    );
}

#[test]
fn ending_is_turn_gated_and_terminal() {
    let mut c = fresh_started_pair();
    assert_eq!(c.end_game(1, "bob".to_string()), Err(GameError::WrongTurn));
    assert!(c.get_game_state(1).unwrap().is_active);
    assert_eq!(c.end_game(1, "alice".to_string()), Ok(()));
    assert!(!c.get_game_state(1).unwrap().is_active);
    assert_eq!(
        c.submit_action(1, "h".to_string(), "alice".to_string()),
        Err(GameError::NotActive)
    );
    assert_eq!(c.end_game(1, "alice".to_string()), Err(GameError::NotActive));
    assert_eq!(c.join_game(1, "carol".to_string()), Err(GameError::NotActive));
    assert_eq!(c.start_game(1), Err(GameError::NotActive));
}

#[test]
fn submitting_before_start_is_permitted() {
    let mut c = Contract::default();
    let id = c.create_game("alice".to_string());
    assert_eq!(c.submit_action(id, "h1".to_string(), "alice".to_string()), Ok(()));
    let g = c.get_game_state(id).unwrap();
    assert!(!g.is_started);
    assert_eq!(g.turn_count, 1);
    assert_eq!(g.current_player_index, 0);
}

#[test]
fn starting_an_ended_session_is_refused() {
    let mut c = Contract::default();
    let id = c.create_game("alice".to_string());
    assert_eq!(c.join_game(id, "bob".to_string()), Ok(()));
    let hash_before = c.get_game_state(id).unwrap().state_hash;
    assert_eq!(c.end_game(id, "alice".to_string()), Ok(()));
    assert!(!c.get_game_state(id).unwrap().is_active);
    assert_eq!(c.start_game(id), Err(GameError::NotActive));
    let g = c.get_game_state(id).unwrap();
    assert!(!g.is_started);
    assert_eq!(g.state_hash, hash_before);
}

#[test]
fn history_records_actions_in_submission_order() {
    let mut c = fresh_started_pair();
    assert!(c.get_game_actions(1).is_empty());
    assert_eq!(c.submit_action(1, "h1".to_string(), "alice".to_string()), Ok(()));
    assert_eq!(c.submit_action(1, "h2".to_string(), "bob".to_string()), Ok(()));
    assert_eq!(c.submit_action(1, "h3".to_string(), "alice".to_string()), Ok(()));
    let actions = c.get_game_actions(1);
    assert_eq!(actions.len(), 3);
    assert_eq!(actions[0].player, "alice");
    assert_eq!(actions[0].action_hash, "h1");
    assert_eq!(actions[1].player, "bob");
    assert_eq!(actions[1].action_hash, "h2");
    assert_eq!(actions[2].player, "alice");
    assert_eq!(actions[2].action_hash, "h3");
    assert_eq!(c.get_game_state(1).unwrap().turn_count, 3);
}

#[test]
fn rotation_cycles_through_three_players() {
    let mut c = Contract::default();
    let id = c.create_game("a".to_string());
    assert_eq!(c.join_game(id, "b".to_string()), Ok(()));
    assert_eq!(c.join_game(id, "c".to_string()), Ok(()));
    assert_eq!(c.start_game(id), Ok(()));
    for (hash, actor, next_index) in [
        ("h1", "a", 1),
        ("h2", "b", 2),
        ("h3", "c", 0),
        ("h4", "a", 1),
    ] {
        assert_eq!(c.submit_action(id, hash.to_string(), actor.to_string()), Ok(()));
        let g = c.get_game_state(id).unwrap();
        assert_eq!(g.current_player_index, next_index);
    }
    assert_eq!(c.get_game_state(id).unwrap().turn_count, 4);
}

#[test]
fn sessions_get_sequential_ids_and_independent_state() {
    let mut c = Contract::default();
    for i in 1..=12u64 {
        let id = c.create_game("p".to_string());
        assert_eq!(id, i);
    }
    let g = c.get_game_state(12).unwrap();
    assert_eq!(g.state_hash, md5_hex("12p"));
    assert_eq!(c.join_game(3, "q".to_string()), Ok(()));
    assert_eq!(c.get_game_state(3).unwrap().players.len(), 2);
    assert_eq!(c.get_game_state(4).unwrap().players.len(), 1);
}
