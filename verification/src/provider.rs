//! Provider chain: season-year computation, the ordered candidate-year
//! list for the secondary source, and the explicit strategy ladder that
//! the fetch loop walks (primary source, then each candidate year on the
//! secondary source, then the embedded snapshot, then failure).

use vstd::prelude::*;

verus! {

/// Year of the fixed historical snapshot used as the last resort.
pub const FALLBACK_BRACKET_YEAR: i32 = 2025;

/// Typed failure of the data-acquisition pipeline. The first `String` of
/// the transport variants is the error detail, the second the URL.
#[derive(Debug, Clone)]
pub enum ApiError {
    Network(String, String),
    Api(String, String),
    Parsing(String, String),
    NotFound(String),
    Other(String),
}

impl ApiError {
    /// Human-readable description of the failure.
    pub fn describe(&self) -> (r: String)
        ensures
            r@ == match self {
                ApiError::Network(e, url) => "Network error for "@ + url@ + ": "@ + e@,
                ApiError::Api(e, url) => "API error for "@ + url@ + ": "@ + e@,
                ApiError::Parsing(e, url) => "Parse error for "@ + url@ + ": "@ + e@,
                ApiError::NotFound(msg) => "Not found: "@ + msg@,
                ApiError::Other(msg) => "Error: "@ + msg@,
            },
    {
        match self {
            ApiError::Network(e, url) => String::from_str("Network error for ").concat(
                url.as_str(),
            ).concat(": ").concat(e.as_str()),
            ApiError::Api(e, url) => String::from_str("API error for ").concat(url.as_str())
                .concat(": ").concat(e.as_str()),
            ApiError::Parsing(e, url) => String::from_str("Parse error for ").concat(url.as_str())
                .concat(": ").concat(e.as_str()),
            ApiError::NotFound(msg) => String::from_str("Not found: ").concat(msg.as_str()),
            ApiError::Other(msg) => String::from_str("Error: ").concat(msg.as_str()),
        }
    }
}

/// Whether an HTTP failure is downgraded to "no data yet" instead of an
/// error: exactly the client-error statuses, which a bracket endpoint
/// legitimately returns before the field is announced.
pub fn client_error_means_empty(status: Option<u16>) -> (r: bool)
    ensures
        r == match status {
            Option::Some(s) => 400 <= s < 500,
            Option::None => false,
        },
{
    match status {
        Option::Some(s) => 400 <= s && s < 500,
        Option::None => false,
    }
}

/// The championship year a season is named after: from November onward the
/// tournament played the following spring is meant.
pub open spec fn season_year_spec(year: int, month: int) -> int {
    if month >= 11 {
        year + 1
    } else {
        year
    }
}

/// Compute the season's tournament year from the current date.
pub fn season_tournament_year(year: i32, month: u32) -> (r: i32)
    requires
        1 <= month <= 12,
        year < i32::MAX,
    ensures
        r == season_year_spec(year as int, month as int),
{
    if month >= 11 {
        year + 1
    } else {
        year
    }
}

/// Distance between two years.
pub open spec fn year_dist(a: int, s: int) -> int {
    if a >= s {
        a - s
    } else {
        s - a
    }
}

/// Query order for candidate years: ascending distance to the season
/// year, ties broken by ascending year value.
pub open spec fn candidate_before(a: int, b: int, s: int) -> bool {
    year_dist(a, s) < year_dist(b, s) || (year_dist(a, s) == year_dist(b, s) && a < b)
}

/// The candidate list is exactly the season year, its two neighbours and
/// the fallback year, strictly ordered by the query order (so it is also
/// free of duplicates).
pub open spec fn candidates_ok(c: Seq<i32>, s: int) -> bool {
    &&& c.len() == if year_dist(FALLBACK_BRACKET_YEAR as int, s) <= 1 {
        3int
    } else {
        4int
    }
    &&& forall|k: int|
        0 <= k < c.len() ==> (#[trigger] c[k] == s || c[k] == s - 1 || c[k] == s + 1 || c[k]
            == FALLBACK_BRACKET_YEAR)
    &&& exists|k: int| 0 <= k < c.len() && #[trigger] c[k] == s
    &&& exists|k: int| 0 <= k < c.len() && #[trigger] c[k] == s - 1
    &&& exists|k: int| 0 <= k < c.len() && #[trigger] c[k] == s + 1
    &&& exists|k: int| 0 <= k < c.len() && #[trigger] c[k] == FALLBACK_BRACKET_YEAR
    &&& forall|k1: int, k2: int|
        0 <= k1 < k2 < c.len() ==> candidate_before(#[trigger] c[k1] as int, #[trigger] c[k2] as int, s)
}

/// The years to try against the secondary source, nearest season first,
/// always including the fallback snapshot year, without duplicates.
pub fn candidate_tournament_years(year: i32, month: u32) -> (r: Vec<i32>)
    requires
        1 <= month <= 12,
        i32::MIN < year,
        year + 2 <= i32::MAX,
    ensures
        candidates_ok(r@, season_year_spec(year as int, month as int)),
{
    let s = season_tournament_year(year, month);
    let mut r: Vec<i32> = Vec::new();
    r.push(s);
    r.push(s - 1);
    r.push(s + 1);
    if s < FALLBACK_BRACKET_YEAR - 1 || s > FALLBACK_BRACKET_YEAR + 1 {
        r.push(FALLBACK_BRACKET_YEAR);
        proof {
            assert(r@.len() == 4);
            assert(r@[0] == s && r@[1] == s - 1 && r@[2] == s + 1 && r@[3]
                == FALLBACK_BRACKET_YEAR);
        }
    } else {
        proof {
            assert(r@.len() == 3);
            assert(r@[0] == s && r@[1] == s - 1 && r@[2] == s + 1);
        }
    }
    r
}

/// Where the provider chain currently stands.
#[derive(Debug, Clone, Copy, PartialEq, Eq, Structural)]
pub enum ChainStage {
    /// Ask the primary (authoritative bracket topology) source.
    Primary,
    /// Ask the secondary source for the candidate year at this index.
    Secondary { idx: usize },
    /// Parse the embedded snapshot.
    Embedded,
    /// Every strategy failed.
    Exhausted,
}

/// The next thing the fetch loop should do.
#[derive(Debug, Clone, Copy, PartialEq, Eq, Structural)]
pub enum FetchAction {
    FetchPrimary { year: i32 },
    FetchSecondary { year: i32 },
    UseEmbedded,
    GiveUp,
}

/// The ordered list of strategies for acquiring a bracket. The fetch loop
/// asks for the current action, performs it, and reports failure to move
/// on; any success ends the walk.
#[derive(Debug, Clone)]
pub struct ProviderChain {
    pub season_year: i32,
    pub candidates: Vec<i32>,
    pub stage: ChainStage,
}

impl ProviderChain {
    /// The candidate list matches the season year and the stage index is
    /// never past the list.
    pub open spec fn wf(self) -> bool {
        &&& candidates_ok(self.candidates@, self.season_year as int)
        &&& match self.stage {
            ChainStage::Secondary { idx } => idx <= self.candidates.len(),
            _ => true,
        }
    }

    /// Start the chain for the given current date.
    pub fn new(year: i32, month: u32) -> (r: Self)
        requires
            1 <= month <= 12,
            i32::MIN < year,
            year + 2 <= i32::MAX,
        ensures
            r.wf(),
            r.stage == ChainStage::Primary,
            r.season_year == season_year_spec(year as int, month as int),
    {
        ProviderChain {
            season_year: season_tournament_year(year, month),
            candidates: candidate_tournament_years(year, month),
            stage: ChainStage::Primary,
        }
    }

    /// What the fetch loop should try next.
    pub fn current_action(&self) -> (r: FetchAction)
        requires
            self.wf(),
        ensures
            r == match self.stage {
                ChainStage::Primary => FetchAction::FetchPrimary { year: self.season_year },
                ChainStage::Secondary { idx } => if idx < self.candidates.len() {
                    FetchAction::FetchSecondary { year: self.candidates@[idx as int] }
                } else {
                    FetchAction::UseEmbedded
                },
                ChainStage::Embedded => FetchAction::UseEmbedded,
                ChainStage::Exhausted => FetchAction::GiveUp,
            },
    {
        match self.stage {
            ChainStage::Primary => FetchAction::FetchPrimary { year: self.season_year },
            ChainStage::Secondary { idx } => {
                if idx < self.candidates.len() {
                    FetchAction::FetchSecondary { year: self.candidates[idx] }
                } else {
                    FetchAction::UseEmbedded
                }
            },
            ChainStage::Embedded => FetchAction::UseEmbedded,
            ChainStage::Exhausted => FetchAction::GiveUp,
        }
    }

    /// Record that the current strategy failed and move to the next one.
    /// Exhaustion is final: advancing past it changes nothing.
    pub fn advance(&mut self)
        requires
            old(self).wf(),
        ensures
            final(self).wf(),
            final(self).season_year == old(self).season_year,
            final(self).candidates == old(self).candidates,
            final(self).stage == match old(self).stage {
                ChainStage::Primary => ChainStage::Secondary { idx: 0 },
                ChainStage::Secondary { idx } => if idx + 1 < old(self).candidates.len() {
                    ChainStage::Secondary { idx: (idx + 1) as usize }
                } else {
                    ChainStage::Embedded
                },
                ChainStage::Embedded => ChainStage::Exhausted,
                ChainStage::Exhausted => ChainStage::Exhausted,
            },
    {
        self.stage = match self.stage {
            ChainStage::Primary => ChainStage::Secondary { idx: 0 },
            ChainStage::Secondary { idx } => {
                if self.candidates.len() > 0 && idx < self.candidates.len() - 1 {
                    ChainStage::Secondary { idx: idx + 1 }
                } else {
                    ChainStage::Embedded
                }
            },
            ChainStage::Embedded => ChainStage::Exhausted,
            ChainStage::Exhausted => ChainStage::Exhausted,
        };
    }
}

} // verus!
