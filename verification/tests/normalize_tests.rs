use mmtui::domain::{GameStatus, RoundKind};
use mmtui::normalize::{
    map_ncaa_championship, map_ncaa_game, parse_status, primary_bracket, round_number_to_kind,
};
use mmtui::wire::{
    HenrygdChampionship, HenrygdGame, HenrygdRegion, HenrygdResponse, HenrygdTeam,
};

#[test]
fn test_round_number_mapping() {
    assert_eq!(round_number_to_kind(1), RoundKind::FirstFour);
    assert_eq!(round_number_to_kind(2), RoundKind::First);
    assert_eq!(round_number_to_kind(6), RoundKind::FinalFour);
    assert_eq!(round_number_to_kind(7), RoundKind::Championship);
}

#[test]
fn round_number_mapping_defaults_to_first() {
    assert_eq!(round_number_to_kind(0), RoundKind::First);
    assert_eq!(round_number_to_kind(8), RoundKind::First);
    assert_eq!(round_number_to_kind(99), RoundKind::First);
}

#[test]
fn test_parse_status() {
    assert_eq!(parse_status("STATUS_IN_PROGRESS"), GameStatus::InProgress);
    assert_eq!(parse_status("STATUS_FINAL"), GameStatus::Final);
    assert_eq!(parse_status("STATUS_SCHEDULED"), GameStatus::Scheduled);
    assert_eq!(parse_status("STATUS_POSTPONED"), GameStatus::Postponed);
}

#[test]
fn parse_status_covers_halftime_and_overtime() {
    assert_eq!(parse_status("STATUS_HALFTIME"), GameStatus::InProgress);
    assert_eq!(parse_status("STATUS_FINAL_OT"), GameStatus::Final);
    assert_eq!(parse_status("STATUS_CANCELLED"), GameStatus::Postponed);
    assert_eq!(parse_status("STATUS_SUSPENDED"), GameStatus::Postponed);
    assert_eq!(parse_status("anything else"), GameStatus::Scheduled);
}

#[test]
fn test_round_kind_navigation() {
    assert_eq!(RoundKind::First.next(), Some(RoundKind::Second));
    assert_eq!(RoundKind::Championship.next(), None);
    assert_eq!(RoundKind::FirstFour.prev(), None);
    assert_eq!(RoundKind::FinalFour.is_final_four(), true);
    assert_eq!(RoundKind::Elite8.is_final_four(), false);
}

#[test]
fn ncaa_position_to_round_covers_all_rounds() {
    assert_eq!(round_number_to_kind(101 / 100), RoundKind::FirstFour);
    assert_eq!(round_number_to_kind(201 / 100), RoundKind::First);
    assert_eq!(round_number_to_kind(301 / 100), RoundKind::Second);
    assert_eq!(round_number_to_kind(401 / 100), RoundKind::Sweet16);
    assert_eq!(round_number_to_kind(501 / 100), RoundKind::Elite8);
    assert_eq!(round_number_to_kind(601 / 100), RoundKind::FinalFour);
    assert_eq!(round_number_to_kind(701 / 100), RoundKind::Championship);
}

#[test]
fn ncaa_game_with_empty_teams_produces_tba_slots() {
    let raw = HenrygdGame {
        bracket_position_id: 101,
        game_state: "P".into(),
        teams: vec![],
        section_id: 1,
        ..Default::default()
    };
    let game = map_ncaa_game(&raw);
    assert_eq!(game.id, "101");
    assert!(game.espn_id.is_none(), "espn_id must be None pre-bridge");
    assert!(game.top.team.is_none(), "top team should be None when teams is empty");
    assert!(game.bottom.team.is_none(), "bottom team should be None when teams is empty");
    assert_eq!(game.top.placeholder.as_deref(), Some("TBA"));
    assert_eq!(game.status, GameStatus::Scheduled);
    assert!(game.winner_id.is_none());
}

#[test]
fn ncaa_game_with_teams_maps_correctly() {
    let raw = HenrygdGame {
        bracket_position_id: 201,
        game_state: "F".into(),
        teams: vec![
            HenrygdTeam {
                team_id: Some("uconn".into()),
                name: Some("Connecticut".into()),
                short_name: Some("UConn".into()),
                seed: Some(1),
                winner: Some(true),
                description: None,
            },
            HenrygdTeam {
                team_id: Some("stetson".into()),
                name: Some("Stetson".into()),
                short_name: None,
                seed: Some(16),
                winner: Some(false),
                description: None,
            },
        ],
        section_id: 2,
        ..Default::default()
    };
    let game = map_ncaa_game(&raw);
    assert_eq!(game.id, "201");
    assert_eq!(game.winner_id.as_deref(), Some("uconn"));
    assert_eq!(game.top.seed, 1);
    assert_eq!(game.bottom.seed, 16);
    assert_eq!(game.status, GameStatus::Final);
    assert_eq!(game.top.team.as_ref().unwrap().short_name, "UConn");
    assert_eq!(game.bottom.team.as_ref().unwrap().short_name, "Stetson");
}

#[test]
fn ncaa_championship_empty_region_titles_fall_back_to_region_n() {
    let champ = HenrygdChampionship {
        title: "2026 DI Men's Basketball Championship".into(),
        year: 2026,
        games: vec![HenrygdGame {
            bracket_position_id: 201,
            game_state: "P".into(),
            section_id: 1,
            ..Default::default()
        }],
        rounds: vec![],
        regions: vec![HenrygdRegion {
            id: "4031".into(),
            section_id: 1,
            title: String::new(),
            region_code: "TL".into(),
        }],
    };
    let tournament = map_ncaa_championship(champ);
    assert_eq!(tournament.year, 2026);
    let region = tournament.regions.iter().find(|r| r.id != "national");
    assert!(region.is_some());
    assert!(
        region.unwrap().name.starts_with("Region "),
        "empty title should fall back to 'Region N', got: {}",
        region.unwrap().name
    );
    assert_eq!(region.unwrap().name, "Region 1");
    assert_eq!(region.unwrap().id, "region-1");
}

#[test]
fn ncaa_championship_national_section_maps_to_national_region() {
    let champ = HenrygdChampionship {
        title: "2026 Championship".into(),
        year: 2026,
        games: vec![HenrygdGame {
            bracket_position_id: 701,
            game_state: "P".into(),
            section_id: 6,
            ..Default::default()
        }],
        rounds: vec![],
        regions: vec![],
    };
    let tournament = map_ncaa_championship(champ);
    let national = tournament.regions.iter().find(|r| r.id == "national");
    assert!(national.is_some(), "sectionId 6 must produce the National region");
    let rounds = &national.unwrap().rounds;
    assert_eq!(rounds.len(), 1);
    assert_eq!(rounds[0].kind, RoundKind::Championship);
    assert_eq!(rounds[0].games.len(), 1);
    assert_eq!(tournament.id, "ncaa-2026");
}

#[test]
fn ncaa_championship_orders_canonical_regions() {
    let mk_game = |pos: u32, sid: u32| HenrygdGame {
        bracket_position_id: pos,
        game_state: "P".into(),
        section_id: sid,
        ..Default::default()
    };
    let mk_region = |sid: u32, title: &str| HenrygdRegion {
        id: format!("{sid}"),
        section_id: sid,
        title: title.into(),
        region_code: String::new(),
    };
    let champ = HenrygdChampionship {
        title: "t".into(),
        year: 2026,
        games: vec![mk_game(201, 1), mk_game(202, 2), mk_game(203, 3), mk_game(204, 4)],
        rounds: vec![],
        regions: vec![
            mk_region(1, "Midwest"),
            mk_region(2, "South"),
            mk_region(3, "East"),
            mk_region(4, "West"),
        ],
    };
    let t = map_ncaa_championship(champ);
    let names: Vec<&str> = t.regions.iter().map(|r| r.name.as_str()).collect();
    assert_eq!(names, vec!["East", "West", "South", "Midwest"]);
}

#[test]
fn primary_bracket_rejects_empty_game_lists() {
    assert!(primary_bracket(HenrygdResponse { championships: vec![] }).is_none());
    let empty_champ = HenrygdResponse {
        championships: vec![HenrygdChampionship { title: "t".into(), year: 2026, ..Default::default() }],
    };
    assert!(primary_bracket(empty_champ).is_none());
    let full = HenrygdResponse {
        championships: vec![HenrygdChampionship {
            title: "t".into(),
            year: 2026,
            games: vec![HenrygdGame {
                bracket_position_id: 101,
                game_state: "P".into(),
                section_id: 1,
                ..Default::default()
            }],
            ..Default::default()
        }],
    };
    assert!(primary_bracket(full).is_some());
}
