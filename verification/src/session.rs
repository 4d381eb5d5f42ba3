//! Application session state: the tab bar, the animation counters, the
//! live play-by-play view, settings, the network message shapes, and
//! the root state that ties them together.

use vstd::prelude::*;

use crate::chat::ChatState;
use crate::domain::{Game, GameDetail, Play, Tournament};
use crate::nav::BracketState;
use crate::text::{dec_str, str_eq, u64_to_string};
use crate::wizard::PickWizardState;

verus! {

/// The tabs of the interface.
#[derive(Debug, Clone, Copy, Default, PartialEq, Eq, Structural)]
pub enum MenuItem {
    #[default]
    Bracket,
    Scoreboard,
    GameDetail,
    Chat,
    PickWizard,
    Compare,
    Help,
}

/// Spinner shown while a network request is in flight.
#[derive(Debug, Copy, Clone)]
pub struct LoadingState {
    pub is_loading: bool,
    pub spinner_char: char,
}

/// The spinner cell shown after a failed request.
pub const ERROR_CHAR: char = '!';

impl Default for LoadingState {
    /// Idle, with a blank spinner cell.
    fn default() -> (r: Self)
        ensures
            !r.is_loading,
            r.spinner_char == ' ',
    {
        LoadingState { is_loading: false, spinner_char: ' ' }
    }
}

/// What the interface asks the network worker to do.
#[derive(Debug, Clone)]
pub enum NetworkRequest {
    LoadBracket,
    RefreshScores,
    RefreshPrizePoolBalance { address: String },
    LoadGameDetail { bracket_id: String, espn_id: Option<String> },
}

/// What the network worker reports back.
#[derive(Debug)]
pub enum NetworkResponse {
    LoadingStateChanged { loading_state: LoadingState },
    BracketLoaded { tournament: Tournament },
    BracketUpdated { games: Vec<Game> },
    GameDetailLoaded { detail: GameDetail },
    PrizePoolBalanceUpdated { balance_sat: u64 },
    Error { message: String },
}

/// Viewer settings.
#[derive(Debug, Default, Clone)]
pub struct AppSettings {
    pub full_screen: bool,
}

impl AppSettings {
    /// Plain defaults.
    pub fn load() -> (r: Self)
        ensures
            !r.full_screen,
    {
        AppSettings { full_screen: false }
    }
}

/// Banner animation counters.
#[derive(Debug, Default)]
pub struct AnimationState {
    /// Current frame index, wrapping at the frame count.
    pub frame: usize,
    /// Monotonic tick counter driving color cycling and the ball.
    pub tick: u64,
}

impl AnimationState {
    /// Advance one animation step.
    pub fn advance(&mut self, frame_count: usize)
        requires
            frame_count > 0,
        ensures
            final(self).tick == vstd::wrapping::u64_specs::wrapping_add(old(self).tick, 1),
            final(self).frame == (old(self).frame + 1) % (frame_count as int),
    {
        self.tick = self.tick.wrapping_add(1);
        self.frame = (self.frame % frame_count + 1) % frame_count;
        proof {
            vstd::arithmetic::div_mod::lemma_add_mod_noop(
                old(self).frame as int,
                1,
                frame_count as int,
            );
            if frame_count > 1 {
                vstd::arithmetic::div_mod::lemma_small_mod(1, frame_count as nat);
            }
        }
    }
}

/// On-demand detail view state.
#[derive(Debug, Default)]
pub struct GameDetailState {
    pub detail: Option<GameDetail>,
    pub scroll_offset: u16,
}

/// One recent play in the live feed.
#[derive(Debug, Clone, Default)]
pub struct LivePlay {
    pub period: u8,
    pub clock: String,
    pub description: String,
    pub away_score: u16,
    pub home_score: u16,
    /// Set when the play was not in the previous refresh.
    pub is_new: bool,
}

/// A play of the detail feed already appears among the listed plays.
pub open spec fn play_already_listed(plays: Seq<LivePlay>, p: Play) -> bool {
    exists|j: int|
        0 <= j < plays.len() && {
            let q = #[trigger] plays[j];
            &&& q.period == p.period
            &&& q.clock@ == p.clock@
            &&& q.description@ == p.description@
            &&& q.away_score == p.away_score
            &&& q.home_score == p.home_score
        }
}

/// Lightweight recent play-by-play view.
#[derive(Debug, Default)]
pub struct LiveFeedState {
    pub game_id: Option<String>,
    pub plays: Vec<LivePlay>,
}

impl LiveFeedState {
    /// Replace the feed with a fresh detail record, marking the plays
    /// that were not listed before as new.
    #[verifier::loop_isolation(false)]
    pub fn update_from_detail(&mut self, detail: &GameDetail)
        ensures
            final(self).game_id matches Some(id) && id@ == detail.game_id@,
            final(self).plays.len() == detail.plays.len(),
            forall|i: int|
                0 <= i < detail.plays.len() ==> {
                    let q = #[trigger] final(self).plays@[i];
                    let p = detail.plays@[i];
                    &&& q.period == p.period
                    &&& q.clock@ == p.clock@
                    &&& q.description@ == p.description@
                    &&& q.away_score == p.away_score
                    &&& q.home_score == p.home_score
                    &&& q.is_new == !play_already_listed(old(self).plays@, p)
                },
    {
        let ghost prev = self.plays@;
        let mut plays: Vec<LivePlay> = Vec::new();
        let mut i: usize = 0;
        while i < detail.plays.len()
            invariant
                i <= detail.plays.len(),
                plays.len() == i,
                forall|k: int|
                    0 <= k < i ==> {
                        let q = #[trigger] plays@[k];
                        let p = detail.plays@[k];
                        &&& q.period == p.period
                        &&& q.clock@ == p.clock@
                        &&& q.description@ == p.description@
                        &&& q.away_score == p.away_score
                        &&& q.home_score == p.home_score
                        &&& q.is_new == !play_already_listed(prev, p)
                    },
            decreases detail.plays.len() - i,
        {
            let p = &detail.plays[i];
            let mut j: usize = 0;
            let mut listed = false;
            while !listed && j < self.plays.len()
                invariant
                    j <= self.plays.len(),
                    i < detail.plays.len(),
                    *p == detail.plays@[i as int],
                    self.plays@ == prev,
                    listed ==> play_already_listed(prev, *p),
                    !listed ==> forall|k: int|
                        0 <= k < j ==> !{
                            let q = #[trigger] prev[k];
                            &&& q.period == p.period
                            &&& q.clock@ == p.clock@
                            &&& q.description@ == p.description@
                            &&& q.away_score == p.away_score
                            &&& q.home_score == p.home_score
                        },
                decreases self.plays.len() - j + if listed {
                    0int
                } else {
                    1int
                },
            {
                let q = &self.plays[j];
                if q.period == p.period && q.away_score == p.away_score && q.home_score
                    == p.home_score && str_eq(q.clock.as_str(), p.clock.as_str()) && str_eq(
                    q.description.as_str(),
                    p.description.as_str(),
                ) {
                    listed = true;
                } else {
                    j += 1;
                }
            }
            plays.push(
                LivePlay {
                    period: p.period,
                    clock: p.clock.clone(),
                    description: p.description.clone(),
                    away_score: p.away_score,
                    home_score: p.home_score,
                    is_new: !listed,
                },
            );
            i += 1;
        }
        self.game_id = Some(detail.game_id.clone());
        self.plays = plays;
    }
}

/// The de-duplication key of one play: its fields joined with bars.
pub fn play_key(period: u8, clock: &str, desc: &str, away: u16, home: u16) -> (r: String)
    ensures
        r@ == dec_str(period as nat) + "|"@ + clock@ + "|"@ + dec_str(away as nat) + "|"@
            + dec_str(home as nat) + "|"@ + desc@,
{
    u64_to_string(period as u64).concat("|").concat(clock).concat("|").concat(
        u64_to_string(away as u64).as_str(),
    ).concat("|").concat(u64_to_string(home as u64).as_str()).concat("|").concat(desc)
}

/// Root state of the viewer.
#[derive(Debug)]
pub struct AppState {
    pub active_tab: MenuItem,
    pub previous_tab: MenuItem,
    pub show_intro: bool,
    pub show_logs: bool,
    pub last_error: Option<String>,
    pub bracket: BracketState,
    pub game_detail: GameDetailState,
    pub live_feed: LiveFeedState,
    pub chat: ChatState,
    pub pick_wizard: PickWizardState,
    pub animation: AnimationState,
}

impl AppState {
    /// Fresh state around a prepared chat room, opening on the intro.
    pub fn new(chat: ChatState) -> (r: Self)
        ensures
            r.active_tab == MenuItem::Bracket,
            r.previous_tab == MenuItem::Bracket,
            r.show_intro,
            !r.show_logs,
            r.last_error is None,
            r.bracket.tournament is None,
            r.game_detail.detail is None,
            r.live_feed.game_id is None,
            r.chat == chat,
            r.pick_wizard.games.len() == 0,
            r.animation.frame == 0 && r.animation.tick == 0,
    {
        AppState {
            active_tab: MenuItem::Bracket,
            previous_tab: MenuItem::Bracket,
            show_intro: true,
            show_logs: false,
            last_error: None,
            bracket: BracketState {
                tournament: None,
                current_round: crate::domain::RoundKind::FirstFour,
                view_round: crate::domain::RoundKind::FirstFour,
                selected_region: 0,
                selected_game: 0,
                scroll_offset: 0,
            },
            game_detail: GameDetailState { detail: None, scroll_offset: 0 },
            live_feed: LiveFeedState { game_id: None, plays: Vec::new() },
            chat,
            pick_wizard: PickWizardState {
                year: 2025,
                games: Vec::new(),
                current_index: 0,
                selections: Vec::new(),
                completed: false,
            },
            animation: AnimationState { frame: 0, tick: 0 },
        }
    }
}

} // verus!
