use mmtui::banner::{ball_row, basketball_frame, round_label, title_rows, FRAME_COUNT};
use mmtui::chat::{ChatMessage, ChatState, CHAT_BACKLOG};
use mmtui::domain::{Game, GameDetail, GameStatus, Play, Region, Round, RoundKind, Team, TeamSeed,
    Tournament};
use mmtui::session::{play_key, AnimationState, AppSettings, LiveFeedState, LoadingState};
use mmtui::text::{i64_to_string, parse_u16, str_contains, str_eq, to_title_case, trim_spaces,
    u64_to_string};
use mmtui::wizard::PickWizardState;

#[test]
fn str_eq_compares_by_characters() {
    assert!(str_eq("abc", "abc"));
    assert!(!str_eq("abc", "abd"));
    assert!(!str_eq("abc", "abcd"));
    assert!(str_eq("", ""));
}

#[test]
fn str_contains_finds_substrings() {
    assert!(str_contains("march madness", "madness"));
    assert!(str_contains("march madness", ""));
    assert!(!str_contains("march", "madness"));
    assert!(str_contains("aaab", "aab"));
}

#[test]
fn parse_u16_reads_digit_strings() {
    assert_eq!(parse_u16("0"), Some(0));
    assert_eq!(parse_u16("87"), Some(87));
    assert_eq!(parse_u16("65535"), Some(65535));
    assert_eq!(parse_u16("65536"), None);
    assert_eq!(parse_u16(""), None);
    assert_eq!(parse_u16("12a"), None);
}

#[test]
fn u64_to_string_renders_decimal_digits() {
    assert_eq!(u64_to_string(0), "0");
    assert_eq!(u64_to_string(2026), "2026");
    assert_eq!(u64_to_string(u64::MAX), u64::MAX.to_string());
}

#[test]
fn i64_to_string_renders_signed_decimals() {
    assert_eq!(i64_to_string(0), "0");
    assert_eq!(i64_to_string(2026), "2026");
    assert_eq!(i64_to_string(-45), "-45");
    assert_eq!(i64_to_string(i64::MIN), i64::MIN.to_string());
}

#[test]
fn to_title_case_normalizes_region_notes() {
    assert_eq!(to_title_case("SOUTH"), "South");
    assert_eq!(to_title_case("midwest"), "Midwest");
    assert_eq!(to_title_case(""), "");
}

#[test]
fn trim_spaces_strips_both_ends() {
    assert_eq!(trim_spaces("  hi there \n"), "hi there");
    assert_eq!(trim_spaces("   "), "");
    assert_eq!(trim_spaces("x"), "x");
}

#[test]
fn chat_ingest_deduplicates_by_id() {
    let mut chat = ChatState::new("fan".into(), "room".into(), "ws://x".into());
    let msg = ChatMessage {
        id: "m1".into(),
        author: "fan".into(),
        body: "hello".into(),
        timestamp: "12:00".into(),
        is_system: false,
    };
    chat.ingest_message(msg.clone());
    assert_eq!(chat.messages.len(), 2);
    chat.ingest_message(msg);
    assert_eq!(chat.messages.len(), 2, "same id must not be listed twice");
}

#[test]
fn chat_backlog_is_bounded() {
    let mut chat = ChatState::new("fan".into(), "room".into(), "ws://x".into());
    for i in 0..(CHAT_BACKLOG + 50) {
        chat.ingest_message(ChatMessage {
            id: format!("m{i}"),
            author: "fan".into(),
            body: format!("b{i}"),
            timestamp: "12:00".into(),
            is_system: false,
        });
    }
    assert_eq!(chat.messages.len(), CHAT_BACKLOG);
    assert_eq!(chat.messages.last().unwrap().body, format!("b{}", CHAT_BACKLOG + 49));
}

#[test]
fn chat_submit_trims_and_echoes() {
    let mut chat = ChatState::new("fan".into(), "room".into(), "ws://x".into());
    chat.input = "  go team  ".into();
    chat.composing = true;
    let out = chat.submit_input().expect("non-empty input must submit");
    assert_eq!(out.body, "go team");
    assert!(out.id.starts_with("fan-"));
    assert!(!chat.composing);
    assert_eq!(chat.input, "");
    assert_eq!(chat.messages.last().unwrap().body, "go team");
}

#[test]
fn chat_submit_of_blank_input_only_closes_composer() {
    let mut chat = ChatState::new("fan".into(), "room".into(), "ws://x".into());
    chat.input = "   ".into();
    chat.composing = true;
    assert!(chat.submit_input().is_none());
    assert!(!chat.composing);
    assert_eq!(chat.messages.len(), 1);
}

#[test]
fn push_system_skips_repeated_notices() {
    let mut chat = ChatState::new("fan".into(), "room".into(), "ws://x".into());
    chat.push_system("offline".into());
    let n = chat.messages.len();
    chat.push_system("offline".into());
    assert_eq!(chat.messages.len(), n, "identical trailing system notice is dropped");
    chat.push_system("online".into());
    assert_eq!(chat.messages.len(), n + 1);
}

#[test]
fn live_feed_marks_unseen_plays_as_new() {
    let mut feed = LiveFeedState::default();
    let play = |desc: &str| Play {
        period: 1,
        clock: "12:00".into(),
        description: desc.into(),
        home_score: 2,
        away_score: 0,
    };
    feed.update_from_detail(&GameDetail {
        game_id: "g1".into(),
        plays: vec![play("dunk")],
        home_box: Default::default(),
        away_box: Default::default(),
    });
    assert_eq!(feed.game_id.as_deref(), Some("g1"));
    assert!(feed.plays[0].is_new);
    feed.update_from_detail(&GameDetail {
        game_id: "g1".into(),
        plays: vec![play("dunk"), play("three")],
        home_box: Default::default(),
        away_box: Default::default(),
    });
    assert!(!feed.plays[0].is_new, "already listed play is not new");
    assert!(feed.plays[1].is_new);
}

#[test]
fn play_key_joins_fields_with_bars() {
    assert_eq!(play_key(2, "01:23", "layup", 45, 47), "2|01:23|45|47|layup");
}

#[test]
fn animation_advance_wraps_frames() {
    let mut a = AnimationState::default();
    a.advance(FRAME_COUNT);
    assert_eq!(a.frame, 1);
    assert_eq!(a.tick, 1);
    a.frame = FRAME_COUNT - 1;
    a.advance(FRAME_COUNT);
    assert_eq!(a.frame, 0);
}

#[test]
fn settings_and_loading_defaults_are_idle() {
    assert!(!AppSettings::load().full_screen);
    let loading = LoadingState::default();
    assert!(!loading.is_loading);
    assert_eq!(loading.spinner_char, ' ');
}

#[test]
fn ball_row_bounces_as_a_triangle_wave() {
    let rows: Vec<u16> = (0..8).map(|t| ball_row(t, 5)).collect();
    assert_eq!(rows, vec![4, 3, 2, 1, 0, 1, 2, 3]);
    assert_eq!(ball_row(7, 0), 0);
    assert_eq!(ball_row(7, 1), 0);
}

#[test]
fn banner_frames_have_fixed_shape() {
    for f in 0..FRAME_COUNT + 1 {
        assert_eq!(basketball_frame(f).len(), 5);
    }
    assert_eq!(title_rows().len(), 4);
    assert_eq!(round_label(RoundKind::Sweet16), "SWEET 16");
    assert_eq!(round_label(RoundKind::Championship), "CHAMPIONSHIP");
}

#[test]
fn wizard_tracks_picks_and_progress() {
    let team = |id: &str| Team {
        id: id.into(),
        name: id.into(),
        short_name: id.into(),
        abbrev: String::new(),
        color: None,
    };
    let game = |id: &str, top: &str, bottom: &str| Game {
        id: id.into(),
        espn_id: None,
        top: TeamSeed { seed: 1, team: Some(team(top)), placeholder: None },
        bottom: TeamSeed { seed: 16, team: Some(team(bottom)), placeholder: None },
        status: GameStatus::Scheduled,
        score: None,
        winner_id: None,
        period: None,
        clock: None,
        start_time: None,
        location: None,
    };
    let tournament = Tournament {
        id: "t".into(),
        name: "T".into(),
        year: 2025,
        regions: vec![Region {
            id: "east".into(),
            name: "East".into(),
            rounds: vec![Round {
                kind: RoundKind::First,
                games: vec![game("g1", "duke", "unc"), game("g2", "uconn", "iowa")],
            }],
        }],
    };
    let mut wizard = PickWizardState {
        year: 0,
        games: vec![],
        current_index: 0,
        selections: vec![],
        completed: false,
    };
    wizard.load_from_tournament_2025_template(&tournament);
    assert_eq!(wizard.year, 2025);
    assert_eq!(wizard.games.len(), 2);
    assert_eq!(wizard.games[0].top_label, "(1) duke");
    assert_eq!(wizard.games[0].bottom_label, "(16) unc");
    wizard.select_top();
    assert_eq!(wizard.current_index, 1);
    wizard.select_bottom();
    assert!(wizard.completed);
    assert_eq!(wizard.selections.len(), 2);
    assert_eq!(wizard.selections[0], ("g1".to_string(), "duke".to_string()));
    assert_eq!(wizard.selections[1], ("g2".to_string(), "iowa".to_string()));
    wizard.back();
    assert!(!wizard.completed);
    assert_eq!(wizard.current_index, 0);
    let export = wizard.to_export("fan".into());
    assert_eq!(export.user_id, "fan");
    assert_eq!(export.year, 2025);
    assert_eq!(export.selections.len(), 2);
    let mut fresh = PickWizardState {
        year: 0,
        games: vec![],
        current_index: 0,
        selections: vec![],
        completed: false,
    };
    fresh.load_from_tournament_2025_template(&tournament);
    fresh.apply_saved_selections(vec![("g1".to_string(), "duke".to_string())]);
    assert!(!fresh.completed);
    assert_eq!(fresh.current_index, 1, "jumps to the first unanswered question");
}
