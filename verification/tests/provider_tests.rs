use mmtui::provider::{
    candidate_tournament_years, season_tournament_year, ApiError, ChainStage, FetchAction,
    ProviderChain, FALLBACK_BRACKET_YEAR,
};

#[test]
fn season_year_uses_current_year_before_november() {
    assert_eq!(season_tournament_year(2026, 2), 2026);
}

#[test]
fn season_year_rolls_forward_in_november_and_december() {
    assert_eq!(season_tournament_year(2026, 11), 2027);
    assert_eq!(season_tournament_year(2026, 12), 2027);
}

#[test]
fn candidate_years_are_nearest_first() {
    assert_eq!(candidate_tournament_years(2026, 2), vec![2026, 2025, 2027]);
}

#[test]
fn candidate_years_always_include_2025_snapshot_fallback() {
    assert!(candidate_tournament_years(2027, 2).contains(&2025));
}

#[test]
fn candidate_years_far_from_fallback_append_it_last() {
    assert_eq!(candidate_tournament_years(2031, 2), vec![2031, 2030, 2032, 2025]);
}

#[test]
fn fallback_year_is_2025() {
    assert_eq!(FALLBACK_BRACKET_YEAR, 2025);
}

#[test]
fn provider_chain_walks_primary_then_candidates_then_embedded() {
    let mut chain = ProviderChain::new(2026, 2);
    assert_eq!(chain.current_action(), FetchAction::FetchPrimary { year: 2026 });
    chain.advance();
    assert_eq!(chain.current_action(), FetchAction::FetchSecondary { year: 2026 });
    chain.advance();
    assert_eq!(chain.current_action(), FetchAction::FetchSecondary { year: 2025 });
    chain.advance();
    assert_eq!(chain.current_action(), FetchAction::FetchSecondary { year: 2027 });
    chain.advance();
    assert_eq!(chain.current_action(), FetchAction::UseEmbedded);
    chain.advance();
    assert_eq!(chain.current_action(), FetchAction::GiveUp);
    chain.advance();
    assert_eq!(chain.current_action(), FetchAction::GiveUp);
    assert_eq!(chain.stage, ChainStage::Exhausted);
}

#[test]
fn api_error_describe_names_the_url() {
    let e = ApiError::Network("timed out".to_string(), "http://example.test/a".to_string());
    assert_eq!(e.describe(), "Network error for http://example.test/a: timed out");
    let nf = ApiError::NotFound("no bracket".to_string());
    assert_eq!(nf.describe(), "Not found: no bracket");
}
