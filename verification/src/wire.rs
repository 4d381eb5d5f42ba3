//! Wire shapes of the two data sources, as plain structs. The application
//! shell deserializes network payloads into mirror types and hands them
//! over as these values; the normalizers turn them into the domain tree.

use vstd::prelude::*;

verus! {

// ---------------------------------------------------------------------
// Secondary source: tournament list / scoreboard / summary feed
// ---------------------------------------------------------------------

#[derive(Debug, Clone, Default)]
pub struct TournamentsResponse {
    pub tournaments: Option<Vec<TournamentEntry>>,
}

#[derive(Debug, Clone)]
pub struct TournamentEntry {
    pub id: String,
    pub name: Option<String>,
    pub bracket: Option<Bracket>,
}

#[derive(Debug, Clone, Default)]
pub struct Bracket {
    pub rounds: Option<Vec<EspnRound>>,
    pub full: Option<bool>,
}

#[derive(Debug, Clone)]
pub struct EspnRound {
    pub number: Option<u32>,
    pub name: Option<String>,
    pub matchups: Option<Vec<EspnMatchup>>,
    /// Some responses nest games under a second key instead.
    pub games: Option<Vec<EspnMatchup>>,
}

impl EspnRound {
    /// The round's matchups from both carrying fields, in order.
    pub open spec fn games_iter_spec(self) -> Seq<EspnMatchup> {
        (match self.matchups {
            Option::Some(v) => v@,
            Option::None => Seq::<EspnMatchup>::empty(),
        }) + (match self.games {
            Option::Some(v) => v@,
            Option::None => Seq::<EspnMatchup>::empty(),
        })
    }

    /// Collect the round's matchups from both carrying fields, in order.
    pub fn games_iter(&self) -> (r: Vec<&EspnMatchup>)
        ensures
            r.len() == self.games_iter_spec().len(),
            forall|i: int| 0 <= i < r.len() ==> *(#[trigger] r@[i]) == self.games_iter_spec()[i],
    {
        let mut r: Vec<&EspnMatchup> = Vec::new();
        match &self.matchups {
            Option::Some(v) => {
                let mut i: usize = 0;
                while i < v.len()
                    invariant
                        self.matchups == Some(*v),
                        i <= v.len(),
                        r.len() == i,
                        forall|k: int|
                            0 <= k < i ==> *(#[trigger] r@[k]) == self.games_iter_spec()[k],
                    decreases v.len() - i,
                {
                    r.push(&v[i]);
                    i += 1;
                }
            },
            Option::None => {},
        }
        match &self.games {
            Option::Some(v) => {
                let base = r.len();
                let mut i: usize = 0;
                while i < v.len()
                    invariant
                        self.games == Some(*v),
                        i <= v.len(),
                        r.len() == base + i,
                        base + v.len() == self.games_iter_spec().len(),
                        forall|k: int|
                            0 <= k < base + i ==> *(#[trigger] r@[k]) == self.games_iter_spec()[k],
                    decreases v.len() - i,
                {
                    r.push(&v[i]);
                    i += 1;
                }
            },
            Option::None => {},
        }
        r
    }
}

#[derive(Debug, Clone)]
pub struct EspnMatchup {
    pub id: Option<String>,
    pub event: Option<EspnEvent>,
    pub competitors: Option<Vec<EspnCompetitor>>,
    /// Free-text region note on some endpoints.
    pub note: Option<String>,
}

#[derive(Debug, Clone, Default)]
pub struct ScoreboardResponse {
    pub events: Option<Vec<EspnEvent>>,
}

#[derive(Debug, Clone, Default)]
pub struct EspnEvent {
    pub id: Option<String>,
    pub name: Option<String>,
    pub status: Option<EspnStatus>,
    pub competitions: Option<Vec<EspnCompetition>>,
    /// ISO-8601 start date.
    pub date: Option<String>,
    pub venue: Option<EspnVenue>,
}

#[derive(Debug, Clone)]
pub struct EspnStatus {
    pub status_type: Option<EspnStatusType>,
    pub period: Option<u8>,
    pub display_clock: Option<String>,
}

#[derive(Debug, Clone)]
pub struct EspnStatusType {
    pub name: Option<String>,
    pub completed: Option<bool>,
}

#[derive(Debug, Clone)]
pub struct EspnCompetition {
    pub competitors: Option<Vec<EspnCompetitor>>,
}

#[derive(Debug, Clone, Default)]
pub struct EspnCompetitor {
    pub id: Option<String>,
    /// "home" or "away"; doubles as top/bottom.
    pub home_away: Option<String>,
    pub team: Option<EspnTeam>,
    /// Scores arrive as strings.
    pub score: Option<String>,
    pub winner: Option<bool>,
    pub curated_rank: Option<EspnRank>,
    pub records: Option<Vec<EspnRecord>>,
    /// "Winner of Game #42" and the like.
    pub placeholder: Option<String>,
}

#[derive(Debug, Clone)]
pub struct EspnTeam {
    pub id: Option<String>,
    pub display_name: Option<String>,
    pub short_display_name: Option<String>,
    pub abbreviation: Option<String>,
    pub color: Option<String>,
}

#[derive(Debug, Clone)]
pub struct EspnRank {
    pub current: Option<u8>,
}

#[derive(Debug, Clone)]
pub struct EspnRecord {
    pub record_type: Option<String>,
    pub summary: Option<String>,
}

#[derive(Debug, Clone)]
pub struct EspnVenue {
    pub full_name: Option<String>,
    pub city: Option<String>,
    pub state: Option<String>,
}

#[derive(Debug, Clone, Default)]
pub struct SummaryResponse {
    pub plays: Option<Vec<EspnPlay>>,
    pub boxscore: Option<EspnBoxscore>,
}

#[derive(Debug, Clone)]
pub struct EspnPlay {
    pub period: Option<EspnPeriod>,
    pub clock: Option<EspnClock>,
    pub text: Option<String>,
    pub home_score: Option<u16>,
    pub away_score: Option<u16>,
}

#[derive(Debug, Clone)]
pub struct EspnPeriod {
    pub number: Option<u8>,
}

#[derive(Debug, Clone)]
pub struct EspnClock {
    pub display_value: Option<String>,
}

#[derive(Debug, Clone, Default)]
pub struct EspnBoxscore {
    pub players: Option<Vec<EspnTeamPlayers>>,
}

#[derive(Debug, Clone)]
pub struct EspnTeamPlayers {
    pub team: Option<EspnTeam>,
    pub statistics: Option<Vec<EspnStatCategory>>,
}

#[derive(Debug, Clone)]
pub struct EspnStatCategory {
    pub name: Option<String>,
    pub athletes: Option<Vec<EspnAthleteStats>>,
    pub totals: Option<Vec<String>>,
    pub keys: Option<Vec<String>>,
    pub labels: Option<Vec<String>>,
}

#[derive(Debug, Clone)]
pub struct EspnAthleteStats {
    pub athlete: Option<EspnAthlete>,
    pub stats: Option<Vec<String>>,
}

#[derive(Debug, Clone)]
pub struct EspnAthlete {
    pub display_name: Option<String>,
}

// ---------------------------------------------------------------------
// Primary source: authoritative bracket topology
// ---------------------------------------------------------------------

#[derive(Debug, Clone, Default)]
pub struct HenrygdResponse {
    pub championships: Vec<HenrygdChampionship>,
}

#[derive(Debug, Clone, Default)]
pub struct HenrygdChampionship {
    pub title: String,
    pub year: u16,
    pub games: Vec<HenrygdGame>,
    pub rounds: Vec<HenrygdRound>,
    pub regions: Vec<HenrygdRegion>,
}

#[derive(Debug, Clone, Default)]
pub struct HenrygdGame {
    /// Bracket-position id; its hundreds digit encodes the round number.
    pub bracket_position_id: u32,
    pub victor_bracket_position_id: Option<u32>,
    pub contest_id: Option<u64>,
    pub game_state: String,
    /// Empty before the field is announced.
    pub teams: Vec<HenrygdTeam>,
    pub section_id: u32,
    pub start_date: String,
    pub start_time: String,
}

#[derive(Debug, Clone, Default)]
pub struct HenrygdTeam {
    pub team_id: Option<String>,
    pub name: Option<String>,
    pub short_name: Option<String>,
    pub seed: Option<u8>,
    pub winner: Option<bool>,
    pub description: Option<String>,
}

#[derive(Debug, Clone, Default)]
pub struct HenrygdRound {
    pub id: String,
    pub round_number: u32,
    pub label: String,
    pub subtitle: String,
}

#[derive(Debug, Clone, Default)]
pub struct HenrygdRegion {
    pub id: String,
    pub section_id: u32,
    /// Empty before regions are assigned.
    pub title: String,
    pub region_code: String,
}

} // verus!
