use mmtui::domain::GameStatus;
use mmtui::espn::{
    infer_year_from_path, map_event_to_game, map_matchup, map_summary, map_tournament,
    select_tournament_entry,
};
use mmtui::provider::ApiError;
use mmtui::wire::{
    Bracket, EspnAthlete, EspnAthleteStats, EspnBoxscore, EspnCompetition, EspnCompetitor,
    EspnEvent, EspnMatchup, EspnRank, EspnRound, EspnStatCategory, EspnStatus, EspnStatusType,
    EspnTeam, EspnTeamPlayers, EspnVenue, SummaryResponse, TournamentEntry,
};

fn competitor(id: &str, name: &str, side: &str, score: &str, winner: bool, seed: u8) -> EspnCompetitor {
    EspnCompetitor {
        id: Some(id.to_string()),
        home_away: Some(side.to_string()),
        team: Some(EspnTeam {
            id: Some(id.to_string()),
            display_name: Some(name.to_string()),
            short_display_name: Some(name.to_string()),
            abbreviation: None,
            color: None,
        }),
        score: Some(score.to_string()),
        winner: Some(winner),
        curated_rank: Some(EspnRank { current: Some(seed) }),
        records: None,
        placeholder: None,
    }
}

fn matchup(id: &str, note: &str, competitors: Vec<EspnCompetitor>) -> EspnMatchup {
    EspnMatchup {
        id: Some(id.to_string()),
        event: None,
        competitors: Some(competitors),
        note: Some(note.to_string()),
    }
}

#[test]
fn map_matchup_reads_scores_and_winner() {
    let m = matchup(
        "401",
        "SOUTH",
        vec![
            competitor("duke", "Duke", "home", "87", true, 1),
            competitor("unc", "UNC", "away", "72", false, 4),
        ],
    );
    let g = map_matchup(&m);
    assert_eq!(g.id, "401");
    assert_eq!(g.espn_id.as_deref(), Some("401"));
    assert_eq!(g.score, Some((87, 72)));
    assert_eq!(g.status, GameStatus::Final);
    assert_eq!(g.winner_id.as_deref(), Some("duke"));
    assert_eq!(g.top.team.as_ref().unwrap().id, "duke");
    assert_eq!(g.bottom.team.as_ref().unwrap().id, "unc");
    assert_eq!(g.top.seed, 1);
}

#[test]
fn map_matchup_without_scores_stays_scheduled() {
    let mut a = competitor("a", "A", "home", "0", false, 2);
    a.score = None;
    let b = competitor("b", "B", "away", "0", false, 15);
    let m = matchup("402", "EAST", vec![a, b]);
    let g = map_matchup(&m);
    assert_eq!(g.score, None);
    assert_eq!(g.status, GameStatus::Scheduled);
    assert!(g.winner_id.is_none());
}

#[test]
fn map_event_reads_status_clock_venue_and_start_time() {
    let event = EspnEvent {
        id: Some("401".to_string()),
        name: None,
        status: Some(EspnStatus {
            status_type: Some(EspnStatusType {
                name: Some("STATUS_IN_PROGRESS".to_string()),
                completed: Some(false),
            }),
            period: Some(2),
            display_clock: Some("07:42".to_string()),
        }),
        competitions: Some(vec![EspnCompetition {
            competitors: Some(vec![
                competitor("duke", "Duke", "home", "44", false, 1),
                competitor("unc", "UNC", "away", "41", false, 4),
            ]),
        }]),
        date: Some("2026-03-20T16:00:00Z".to_string()),
        venue: Some(EspnVenue {
            full_name: None,
            city: Some("Indianapolis".to_string()),
            state: Some("IN".to_string()),
        }),
    };
    let g = map_event_to_game(&event);
    assert_eq!(g.id, "401");
    assert_eq!(g.status, GameStatus::InProgress);
    assert_eq!(g.period, Some(2));
    assert_eq!(g.clock.as_deref(), Some("07:42"));
    assert_eq!(g.location.as_deref(), Some("Indianapolis, IN"));
    assert_eq!(g.start_time, Some(1774022400), "RFC 3339 date becomes epoch seconds");
    assert_eq!(g.score, Some((44, 41)));
    assert_eq!(g.top.team.as_ref().unwrap().id, "duke");
}

#[test]
fn map_tournament_groups_by_region_note_and_title_cases_it() {
    let entry = TournamentEntry {
        id: "22".to_string(),
        name: Some("NCAA Men's Basketball Tournament".to_string()),
        bracket: Some(Bracket {
            rounds: Some(vec![
                EspnRound {
                    number: Some(2),
                    name: None,
                    matchups: Some(vec![
                        matchup("1", "SOUTH", vec![
                            competitor("a", "A", "home", "1", false, 1),
                            competitor("b", "B", "away", "2", false, 16),
                        ]),
                        matchup("2", "EAST", vec![
                            competitor("c", "C", "home", "3", false, 2),
                            competitor("d", "D", "away", "4", false, 15),
                        ]),
                    ]),
                    games: None,
                },
                EspnRound {
                    number: Some(6),
                    name: None,
                    matchups: Some(vec![matchup("3", "", vec![])]),
                    games: None,
                },
            ]),
            full: None,
        }),
    };
    let t = map_tournament(entry, 2026);
    assert_eq!(t.year, 2026);
    assert_eq!(t.name, "NCAA Men's Basketball Tournament");
    let names: Vec<&str> = t.regions.iter().map(|r| r.name.as_str()).collect();
    assert_eq!(names, vec!["East", "South", "National"]);
    let east = &t.regions[0];
    assert_eq!(east.id, "east");
    assert_eq!(east.rounds.len(), 1);
    assert_eq!(east.rounds[0].games.len(), 1);
    assert_eq!(east.rounds[0].games[0].id, "2");
    let national = t.regions.iter().find(|r| r.name == "National").unwrap();
    assert_eq!(national.rounds[0].games.len(), 1);
}

#[test]
fn map_tournament_appends_national_after_leftover_names() {
    let entry = TournamentEntry {
        id: "23".to_string(),
        name: Some("NCAA Men's Basketball Tournament".to_string()),
        bracket: Some(Bracket {
            rounds: Some(vec![
                EspnRound {
                    number: Some(6),
                    name: None,
                    matchups: Some(vec![matchup("ff", "", vec![])]),
                    games: None,
                },
                EspnRound {
                    number: Some(2),
                    name: None,
                    matchups: Some(vec![
                        {
                            let mut m = matchup("1", "", vec![]);
                            m.note = None;
                            m
                        },
                        matchup("2", "SOUTH", vec![]),
                    ]),
                    games: None,
                },
            ]),
            full: None,
        }),
    };
    let t = map_tournament(entry, 2026);
    let names: Vec<&str> = t.regions.iter().map(|r| r.name.as_str()).collect();
    assert_eq!(
        names,
        vec!["South", "Region", "National"],
        "the synthetic National region sorts last, after leftover names"
    );
}

#[test]
fn select_tournament_entry_prefers_championship_names() {
    let with_bracket = |id: &str, name: &str| TournamentEntry {
        id: id.to_string(),
        name: Some(name.to_string()),
        bracket: Some(Bracket {
            rounds: Some(vec![EspnRound { number: Some(2), name: None, matchups: None, games: None }]),
            full: None,
        }),
    };
    let entries = vec![
        with_bracket("1", "Postseason NIT"),
        with_bracket("2", "NCAA Men's Tournament"),
    ];
    let picked = select_tournament_entry(entries, 2026).unwrap();
    assert_eq!(picked.id, "2");
}

#[test]
fn select_tournament_entry_falls_back_to_any_bracket() {
    let entries = vec![TournamentEntry {
        id: "9".to_string(),
        name: Some("Postseason NIT".to_string()),
        bracket: Some(Bracket {
            rounds: Some(vec![EspnRound { number: Some(2), name: None, matchups: None, games: None }]),
            full: None,
        }),
    }];
    let picked = select_tournament_entry(entries, 2026).unwrap();
    assert_eq!(picked.id, "9");
}

#[test]
fn select_tournament_entry_reports_empty_years() {
    match select_tournament_entry(vec![], 2026) {
        Err(ApiError::NotFound(msg)) => {
            assert_eq!(msg, "no tournaments returned for year 2026");
        }
        other => panic!("expected NotFound, got {other:?}"),
    }
}

#[test]
fn map_summary_reads_plays_and_totals() {
    let raw = SummaryResponse {
        plays: None,
        boxscore: Some(EspnBoxscore {
            players: Some(vec![EspnTeamPlayers {
                team: Some(EspnTeam {
                    id: Some("duke".to_string()),
                    display_name: Some("Duke Blue Devils".to_string()),
                    short_display_name: Some("Duke".to_string()),
                    abbreviation: Some("DUKE".to_string()),
                    color: None,
                }),
                statistics: Some(vec![EspnStatCategory {
                    name: Some("athletes".to_string()),
                    athletes: Some(vec![EspnAthleteStats {
                        athlete: Some(EspnAthlete { display_name: Some("Player One".to_string()) }),
                        stats: Some(vec!["30".to_string(), "21".to_string(), "7".to_string()]),
                    }]),
                    totals: Some(vec!["200".to_string(), "78".to_string(), "31".to_string()]),
                    keys: Some(vec!["MIN".to_string(), "PTS".to_string(), "REB".to_string()]),
                    labels: None,
                }]),
            }]),
        }),
    };
    let detail = map_summary("401", &raw);
    assert_eq!(detail.game_id, "401");
    assert!(detail.plays.is_empty());
    assert_eq!(detail.home_box.team.as_ref().unwrap().short_name, "Duke");
    assert_eq!(detail.home_box.players.len(), 1);
    assert_eq!(detail.home_box.players[0].name, "Player One");
    assert_eq!(detail.home_box.players[0].points, 21);
    assert_eq!(detail.home_box.players[0].rebounds, 7);
    assert_eq!(detail.home_box.players[0].minutes, "30");
    assert_eq!(detail.home_box.totals.name, "TOTALS");
    assert_eq!(detail.home_box.totals.points, 78);
    assert!(detail.away_box.team.is_none());
}

#[test]
fn infer_year_reads_the_first_plausible_token() {
    assert_eq!(infer_year_from_path("/tmp/bracket_2025.json"), Some(2025));
    assert_eq!(infer_year_from_path("y1999_then_2024"), None);
    assert_eq!(infer_year_from_path("y19_then_2024"), Some(2024));
    assert_eq!(infer_year_from_path("no-year.json"), None);
    assert_eq!(infer_year_from_path("19999.json"), None);
    assert_eq!(infer_year_from_path("2100"), Some(2100));
    assert_eq!(infer_year_from_path("2101"), None);
}
