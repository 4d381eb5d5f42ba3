use mmtui::domain::{Game, GameStatus, Region, Round, RoundKind, Team, TeamSeed, Tournament};
use mmtui::nav::{detect_active_round, BracketState};

fn team(id: &str) -> Team {
    Team {
        id: id.to_string(),
        name: id.to_string(),
        short_name: id.to_string(),
        abbrev: String::new(),
        color: None,
    }
}

fn game(id: &str, status: GameStatus) -> Game {
    Game {
        id: id.to_string(),
        espn_id: None,
        top: TeamSeed { seed: 1, team: Some(team("t1")), placeholder: None },
        bottom: TeamSeed { seed: 16, team: Some(team("t2")), placeholder: None },
        status,
        score: None,
        winner_id: None,
        period: None,
        clock: None,
        start_time: None,
        location: None,
    }
}

fn tree(rounds: Vec<(RoundKind, Vec<Game>)>) -> Tournament {
    Tournament {
        id: "t".to_string(),
        name: "T".to_string(),
        year: 2026,
        regions: vec![
            Region {
                id: "east".to_string(),
                name: "East".to_string(),
                rounds: rounds
                    .into_iter()
                    .map(|(kind, games)| Round { kind, games })
                    .collect(),
            },
            Region {
                id: "national".to_string(),
                name: "National".to_string(),
                rounds: vec![Round {
                    kind: RoundKind::Championship,
                    games: vec![game("championship", GameStatus::Scheduled)],
                }],
            },
        ],
    }
}

#[test]
fn detect_prefers_live_rounds_over_finished_ones() {
    let t = tree(vec![
        (RoundKind::First, vec![game("1", GameStatus::Final)]),
        (RoundKind::Second, vec![game("2", GameStatus::InProgress)]),
    ]);
    assert_eq!(detect_active_round(&t), RoundKind::Second);
}

#[test]
fn detect_falls_back_to_latest_finished_round() {
    let t = tree(vec![
        (RoundKind::First, vec![game("1", GameStatus::Final)]),
        (RoundKind::Second, vec![game("2", GameStatus::Final)]),
        (RoundKind::Sweet16, vec![game("3", GameStatus::Scheduled)]),
    ]);
    assert_eq!(detect_active_round(&t), RoundKind::Second);
}

#[test]
fn detect_defaults_to_first_round() {
    let t = tree(vec![(RoundKind::First, vec![game("1", GameStatus::Scheduled)])]);
    assert_eq!(detect_active_round(&t), RoundKind::First);
}

#[test]
fn load_resets_cursor_and_detects_round() {
    let mut state = BracketState::default();
    state.selected_game = 3;
    state.scroll_offset = 9;
    state.load(tree(vec![(RoundKind::Second, vec![game("2", GameStatus::InProgress)])]));
    assert_eq!(state.current_round, RoundKind::Second);
    assert_eq!(state.view_round, RoundKind::Second);
    assert_eq!(state.selected_game, 0);
    assert_eq!(state.selected_region, 0);
    assert_eq!(state.scroll_offset, 0);
}

#[test]
fn round_advance_is_idempotent_at_championship() {
    let mut state = BracketState::default();
    state.view_round = RoundKind::Championship;
    state.selected_game = 2;
    state.navigate_round_next();
    assert_eq!(state.view_round, RoundKind::Championship);
    assert_eq!(state.selected_game, 2, "no-op past the boundary keeps the cursor");
    state.navigate_round_next();
    assert_eq!(state.view_round, RoundKind::Championship);
    assert_eq!(state.selected_game, 2);
}

#[test]
fn round_retreat_is_idempotent_at_first_four() {
    let mut state = BracketState::default();
    state.view_round = RoundKind::FirstFour;
    state.scroll_offset = 4;
    state.navigate_round_prev();
    assert_eq!(state.view_round, RoundKind::FirstFour);
    assert_eq!(state.scroll_offset, 4);
    state.navigate_round_prev();
    assert_eq!(state.view_round, RoundKind::FirstFour);
}

#[test]
fn round_moves_reset_game_and_scroll() {
    let mut state = BracketState::default();
    state.view_round = RoundKind::First;
    state.selected_game = 5;
    state.scroll_offset = 7;
    state.navigate_round_next();
    assert_eq!(state.view_round, RoundKind::Second);
    assert_eq!(state.selected_game, 0);
    assert_eq!(state.scroll_offset, 0);
}

#[test]
fn game_navigation_clamps_to_bounds() {
    let mut state = BracketState::default();
    state.load(tree(vec![(
        RoundKind::First,
        vec![game("1", GameStatus::Scheduled), game("2", GameStatus::Scheduled)],
    )]));
    assert_eq!(state.selected_game, 0);
    state.navigate_game_up();
    assert_eq!(state.selected_game, 0);
    state.navigate_game_down();
    assert_eq!(state.selected_game, 1);
    state.navigate_game_down();
    assert_eq!(state.selected_game, 1, "clamped at the last game");
    state.navigate_game_up();
    assert_eq!(state.selected_game, 0);
}

#[test]
fn region_cycle_skips_national_and_wraps() {
    let mut state = BracketState::default();
    state.load(tree(vec![(RoundKind::First, vec![game("1", GameStatus::Scheduled)])]));
    assert_eq!(state.selected_region, 0);
    state.cycle_region();
    assert_eq!(state.selected_region, 0, "one non-national region wraps to itself");
    state.view_round = RoundKind::FinalFour;
    state.selected_region = 0;
    state.cycle_region();
    assert_eq!(state.selected_region, 0, "no-op at the national rounds");
}

#[test]
fn selected_game_id_follows_the_cursor() {
    let mut state = BracketState::default();
    state.load(tree(vec![(
        RoundKind::First,
        vec![game("a", GameStatus::Scheduled), game("b", GameStatus::Scheduled)],
    )]));
    state.view_round = RoundKind::First;
    assert_eq!(state.selected_game_id().as_deref(), Some("a"));
    state.navigate_game_down();
    assert_eq!(state.selected_game_id().as_deref(), Some("b"));
    state.selected_game = 0;
    state.view_round = RoundKind::Championship;
    assert_eq!(
        state.selected_game_id().as_deref(),
        Some("championship"),
        "national rounds resolve through the National region"
    );
    state.view_round = RoundKind::Elite8;
    assert_eq!(state.selected_game_id(), None, "round not populated");
}

#[test]
fn merge_updates_patches_by_id_and_leaves_the_rest() {
    let mut t = tree(vec![(
        RoundKind::First,
        vec![game("a", GameStatus::Scheduled), game("b", GameStatus::Scheduled)],
    )]);
    let before_b = t.regions[0].rounds[0].games[1].clone();
    let mut update = game("a", GameStatus::Final);
    update.score = Some((81, 77));
    update.winner_id = Some("t1".to_string());
    t.merge_updates(vec![update, game("zzz", GameStatus::Final)]);
    let a = &t.regions[0].rounds[0].games[0];
    assert_eq!(a.status, GameStatus::Final);
    assert_eq!(a.score, Some((81, 77)));
    assert_eq!(a.winner_id.as_deref(), Some("t1"));
    let b = &t.regions[0].rounds[0].games[1];
    assert_eq!(b.id, before_b.id);
    assert_eq!(b.status, before_b.status);
    assert_eq!(b.score, before_b.score);
}

#[test]
fn find_game_mut_patches_one_slot_in_place() {
    let mut t = tree(vec![(
        RoundKind::First,
        vec![game("a", GameStatus::Scheduled), game("b", GameStatus::Scheduled)],
    )]);
    assert!(t.find_game_mut("nope").is_none());
    {
        let slot = t.find_game_mut("b").expect("game b is in the tree");
        slot.status = GameStatus::InProgress;
        slot.score = Some((10, 12));
    }
    assert_eq!(t.regions[0].rounds[0].games[1].status, GameStatus::InProgress);
    assert_eq!(t.regions[0].rounds[0].games[1].score, Some((10, 12)));
    assert_eq!(t.regions[0].rounds[0].games[0].status, GameStatus::Scheduled);
}

#[test]
fn winner_resolves_to_the_matching_slot() {
    let mut g = game("a", GameStatus::Final);
    g.winner_id = Some("t1".to_string());
    assert_eq!(g.winner().unwrap().id, "t1", "top slot holds the winner id");
    g.winner_id = Some("t2".to_string());
    assert_eq!(g.winner().unwrap().id, "t2");
    g.winner_id = None;
    assert!(g.winner().is_none());
}
