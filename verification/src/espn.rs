//! Normalizer for the secondary wire shape (tournament list and
//! scoreboard feed): rounds carry explicit round numbers and matchup
//! lists; each matchup either embeds a full event or bare competitors
//! with a free-text region note.

use vstd::prelude::*;

use crate::clock::{parse_rfc3339_epoch, rfc3339_epoch_seconds};
use crate::domain::{BoxScore, Game, GameDetail, GameStatus, Play, PlayerLine, Region, Round,
    RoundKind, Team, TeamSeed, Tournament};
use crate::normalize::{opt_str_view, parse_status, parse_status_spec, round_number_to_kind,
    round_number_to_kind_spec};
use crate::text::{all_digits, contains_seq, dec_value, digit_val, i64_to_string, is_digit,
    lower_str, parse_u16, parsed_u16, sint_str, str_contains, str_eq, title_cased, to_lowercase,
    to_title_case};
use crate::wire::{EspnAthleteStats, EspnCompetition, EspnCompetitor, EspnEvent, EspnMatchup,
    EspnPlay, EspnRound, EspnStatCategory, EspnTeam, EspnTeamPlayers, ScoreboardResponse,
    SummaryResponse, TournamentEntry};
use crate::provider::ApiError;

verus! {

/// An empty slot: no seed, no team, no placeholder.
pub open spec fn empty_seed(s: TeamSeed) -> bool {
    &&& s.seed == 0
    &&& s.team is None
    &&& s.placeholder is None
}

/// The slot one competitor record maps to.
pub open spec fn competitor_seed_matches(s: TeamSeed, c: EspnCompetitor) -> bool {
    &&& s.seed == (match c.curated_rank {
        Option::Some(r) => match r.current {
            Option::Some(v) => v,
            Option::None => 0u8,
        },
        Option::None => 0u8,
    })
    &&& match c.team {
        Option::Some(t) => {
            &&& s.team is Some
            &&& s.team->0.id@ == (match t.id {
                Option::Some(v) => v@,
                Option::None => Seq::<char>::empty(),
            })
            &&& s.team->0.name@ == (match t.display_name {
                Option::Some(v) => v@,
                Option::None => Seq::<char>::empty(),
            })
            &&& s.team->0.short_name@ == (match t.short_display_name {
                Option::Some(v) => v@,
                Option::None => match t.display_name {
                    Option::Some(v) => v@,
                    Option::None => Seq::<char>::empty(),
                },
            })
            &&& s.team->0.abbrev@ == (match t.abbreviation {
                Option::Some(v) => v@,
                Option::None => Seq::<char>::empty(),
            })
            &&& opt_str_view(s.team->0.color) == opt_str_view(t.color)
        },
        Option::None => s.team is None,
    }
    &&& opt_str_view(s.placeholder) == opt_str_view(c.placeholder)
}

/// Map one competitor record to a slot.
pub fn map_competitor(c: &EspnCompetitor) -> (r: TeamSeed)
    ensures
        competitor_seed_matches(r, *c),
{
    let seed: u8 = match &c.curated_rank {
        Option::Some(rank) => match &rank.current {
            Option::Some(v) => *v,
            Option::None => 0,
        },
        Option::None => 0,
    };
    let team = match &c.team {
        Option::Some(t) => {
            let display = match &t.display_name {
                Option::Some(v) => v.clone(),
                Option::None => String::new(),
            };
            Some(
                Team {
                    id: match &t.id {
                        Option::Some(v) => v.clone(),
                        Option::None => String::new(),
                    },
                    short_name: match &t.short_display_name {
                        Option::Some(v) => v.clone(),
                        Option::None => display.clone(),
                    },
                    name: display,
                    abbrev: match &t.abbreviation {
                        Option::Some(v) => v.clone(),
                        Option::None => String::new(),
                    },
                    color: match &t.color {
                        Option::Some(v) => Some(v.clone()),
                        Option::None => None,
                    },
                },
            )
        },
        Option::None => None,
    };
    TeamSeed {
        seed,
        team,
        placeholder: match &c.placeholder {
            Option::Some(v) => Some(v.clone()),
            Option::None => None,
        },
    }
}

/// The competitor values a reference list stands for.
pub open spec fn deref_comps(v: Seq<&EspnCompetitor>) -> Seq<EspnCompetitor> {
    v.map_values(|c: &EspnCompetitor| *c)
}

/// Index of the first competitor tagged with the given side, from `from`.
pub open spec fn first_with_tag(cs: Seq<EspnCompetitor>, tag: Seq<char>, from: int) -> Option<int>
    decreases cs.len() - from when 0 <= from <= cs.len()
{
    if from >= cs.len() {
        Option::None
    } else if opt_str_view(cs[from].home_away) == Option::Some(tag) {
        Option::Some(from)
    } else {
        first_with_tag(cs, tag, from + 1)
    }
}

/// The competitor filling the top slot: the one tagged "home", else the
/// first listed, else nobody.
pub open spec fn top_index(cs: Seq<EspnCompetitor>) -> Option<int> {
    match first_with_tag(cs, "home"@, 0) {
        Option::Some(i) => Option::Some(i),
        Option::None => if cs.len() > 0 {
            Option::Some(0int)
        } else {
            Option::None
        },
    }
}

/// The competitor filling the bottom slot: the one tagged "away", else
/// the second listed, else nobody.
pub open spec fn bottom_index(cs: Seq<EspnCompetitor>) -> Option<int> {
    match first_with_tag(cs, "away"@, 0) {
        Option::Some(i) => Option::Some(i),
        Option::None => if cs.len() > 1 {
            Option::Some(1int)
        } else {
            Option::None
        },
    }
}

/// A slot holds the mapped competitor at the index, or stays empty.
pub open spec fn slot_matches(s: TeamSeed, cs: Seq<EspnCompetitor>, idx: Option<int>) -> bool {
    match idx {
        Option::Some(i) => 0 <= i < cs.len() && competitor_seed_matches(s, cs[i]),
        Option::None => empty_seed(s),
    }
}

/// Index of the first competitor flagged as the winner, from `from`.
pub open spec fn first_winner_comp(cs: Seq<EspnCompetitor>, from: int) -> Option<int>
    decreases cs.len() - from when 0 <= from <= cs.len()
{
    if from >= cs.len() {
        Option::None
    } else if cs[from].winner == Some(true) {
        Option::Some(from)
    } else {
        first_winner_comp(cs, from + 1)
    }
}

/// The winner id a competitor list yields: the id of the first
/// winner-flagged competitor, when it has one.
pub open spec fn winner_id_matches(w: Option<String>, cs: Seq<EspnCompetitor>) -> bool {
    match first_winner_comp(cs, 0) {
        Option::None => w is None,
        Option::Some(i) => opt_str_view(w) == opt_str_view(cs[i].id),
    }
}

/// The parsed score string of the competitor at an index.
pub open spec fn score_at(cs: Seq<EspnCompetitor>, idx: Option<int>) -> Option<u16> {
    match idx {
        Option::Some(i) => match cs[i].score {
            Option::Some(s) => parsed_u16(s@),
            Option::None => Option::None,
        },
        Option::None => Option::None,
    }
}

/// The (top, bottom) score pair of a bare-competitor matchup: present
/// exactly when both sides' score strings parse.
pub open spec fn pair_score(cs: Seq<EspnCompetitor>) -> Option<(u16, u16)> {
    match (score_at(cs, top_index(cs)), score_at(cs, bottom_index(cs))) {
        (Option::Some(t), Option::Some(b)) => Option::Some((t, b)),
        _ => Option::None,
    }
}

/// Find the first competitor tagged with the given side.
fn find_tagged(cs: &Vec<&EspnCompetitor>, tag: &str) -> (r: Option<usize>)
    ensures
        match r {
            Option::Some(i) => i < cs.len() && first_with_tag(deref_comps(cs@), tag@, 0) == Some(
                i as int,
            ),
            Option::None => first_with_tag(deref_comps(cs@), tag@, 0) is None,
        },
{
    let mut i: usize = 0;
    while i < cs.len()
        invariant
            i <= cs.len(),
            first_with_tag(deref_comps(cs@), tag@, 0) == first_with_tag(
                deref_comps(cs@),
                tag@,
                i as int,
            ),
        decreases cs.len() - i,
    {
        proof {
            assert(deref_comps(cs@)[i as int] == *cs@[i as int]);
        }
        match &cs[i].home_away {
            Option::Some(side) => {
                if str_eq(side.as_str(), tag) {
                    return Some(i);
                }
            },
            Option::None => {},
        }
        i += 1;
    }
    None
}

/// Find the first competitor flagged as the winner.
fn find_winner_comp(cs: &Vec<&EspnCompetitor>) -> (r: Option<usize>)
    ensures
        match r {
            Option::Some(i) => i < cs.len() && first_winner_comp(deref_comps(cs@), 0) == Some(
                i as int,
            ),
            Option::None => first_winner_comp(deref_comps(cs@), 0) is None,
        },
{
    let mut i: usize = 0;
    while i < cs.len()
        invariant
            i <= cs.len(),
            first_winner_comp(deref_comps(cs@), 0) == first_winner_comp(
                deref_comps(cs@),
                i as int,
            ),
        decreases cs.len() - i,
    {
        proof {
            assert(deref_comps(cs@)[i as int] == *cs@[i as int]);
        }
        let is_winner = match &cs[i].winner {
            Option::Some(w) => *w,
            Option::None => false,
        };
        if is_winner {
            return Some(i);
        }
        i += 1;
    }
    None
}

/// Split a competitor list into the (top, bottom) slots: "home" fills the
/// top and "away" the bottom, falling back to list order.
pub fn split_competitors(cs: &Vec<&EspnCompetitor>) -> (r: (TeamSeed, TeamSeed))
    ensures
        slot_matches(r.0, deref_comps(cs@), top_index(deref_comps(cs@))),
        slot_matches(r.1, deref_comps(cs@), bottom_index(deref_comps(cs@))),
{
    proof {
        assert(forall|k: int|
            0 <= k < cs@.len() ==> deref_comps(cs@)[k] == *(#[trigger] cs@[k]));
    }
    let top = match top_index_exec(cs) {
        Option::Some(i) => map_competitor(cs[i]),
        Option::None => TeamSeed { seed: 0, team: None, placeholder: None },
    };
    let bottom = match bottom_index_exec(cs) {
        Option::Some(i) => map_competitor(cs[i]),
        Option::None => TeamSeed { seed: 0, team: None, placeholder: None },
    };
    (top, bottom)
}

/// Resolve the top slot's competitor index.
fn top_index_exec(cs: &Vec<&EspnCompetitor>) -> (r: Option<usize>)
    ensures
        match r {
            Option::Some(i) => i < cs.len() && top_index(deref_comps(cs@)) == Some(i as int),
            Option::None => top_index(deref_comps(cs@)) is None,
        },
{
    match find_tagged(cs, "home") {
        Option::Some(i) => Some(i),
        Option::None => {
            if cs.len() > 0 {
                Some(0)
            } else {
                None
            }
        },
    }
}

/// Resolve the bottom slot's competitor index.
fn bottom_index_exec(cs: &Vec<&EspnCompetitor>) -> (r: Option<usize>)
    ensures
        match r {
            Option::Some(i) => i < cs.len() && bottom_index(deref_comps(cs@)) == Some(i as int),
            Option::None => bottom_index(deref_comps(cs@)) is None,
        },
{
    match find_tagged(cs, "away") {
        Option::Some(i) => Some(i),
        Option::None => {
            if cs.len() > 1 {
                Some(1)
            } else {
                None
            }
        },
    }
}

/// Parse the score string of the competitor at an index.
fn score_for(cs: &Vec<&EspnCompetitor>, idx: Option<usize>) -> (r: Option<u16>)
    requires
        match idx {
            Option::Some(i) => i < cs.len(),
            Option::None => true,
        },
    ensures
        r == score_at(
            deref_comps(cs@),
            match idx {
                Option::Some(i) => Option::Some(i as int),
                Option::None => Option::None::<int>,
            },
        ),
{
    match idx {
        Option::Some(i) => {
            proof {
                assert(deref_comps(cs@)[i as int] == *cs@[i as int]);
            }
            match &cs[i].score {
                Option::Some(s) => parse_u16(s.as_str()),
                Option::None => None,
            }
        },
        Option::None => None,
    }
}

/// The competitors of a list of competitions, flattened in order.
pub open spec fn flat_comps_from(v: Seq<EspnCompetition>) -> Seq<EspnCompetitor>
    decreases v.len(),
{
    if v.len() == 0 {
        Seq::<EspnCompetitor>::empty()
    } else {
        flat_comps_from(v.drop_last()) + (match v.last().competitors {
            Option::Some(c) => c@,
            Option::None => Seq::<EspnCompetitor>::empty(),
        })
    }
}

/// An event's competitors, flattened across its competitions.
pub open spec fn flat_comps(e: EspnEvent) -> Seq<EspnCompetitor> {
    match e.competitions {
        Option::Some(v) => flat_comps_from(v@),
        Option::None => Seq::<EspnCompetitor>::empty(),
    }
}

/// Pushing a reference appends its value.
proof fn lemma_deref_push(v: Seq<&EspnCompetitor>, x: &EspnCompetitor)
    ensures
        deref_comps(v.push(x)) == deref_comps(v).push(*x),
{
    assert(deref_comps(v.push(x)) =~= deref_comps(v).push(*x));
}

/// Collect references to an event's competitors across its competitions.
fn flatten_competitors<'a>(e: &'a EspnEvent) -> (r: Vec<&'a EspnCompetitor>)
    ensures
        deref_comps(r@) == flat_comps(*e),
{
    let mut out: Vec<&EspnCompetitor> = Vec::new();
    proof {
        assert(deref_comps(out@) =~= Seq::<EspnCompetitor>::empty());
    }
    match &e.competitions {
        Option::Some(v) => {
            let mut i: usize = 0;
            proof {
                assert(v@.take(0) =~= Seq::<EspnCompetition>::empty());
            }
            while i < v.len()
                invariant
                    e.competitions == Some(*v),
                    i <= v.len(),
                    deref_comps(out@) == flat_comps_from(v@.take(i as int)),
                decreases v.len() - i,
            {
                proof {
                    assert(v@.take(i + 1).drop_last() =~= v@.take(i as int));
                    assert(v@.take(i + 1).last() == v@[i as int]);
                }
                match &v[i].competitors {
                    Option::Some(cv) => {
                        let mut j: usize = 0;
                        while j < cv.len()
                            invariant
                                e.competitions == Some(*v),
                                i < v.len(),
                                v@[i as int].competitors == Some(*cv),
                                j <= cv.len(),
                                deref_comps(out@) == flat_comps_from(v@.take(i as int))
                                    + cv@.take(j as int),
                            decreases cv.len() - j,
                        {
                            let ghost before = out@;
                            out.push(&cv[j]);
                            proof {
                                lemma_deref_push(before, &cv[j as int]);
                                assert(flat_comps_from(v@.take(i as int)) + cv@.take(j + 1)
                                    =~= (flat_comps_from(v@.take(i as int)) + cv@.take(
                                    j as int,
                                )).push(cv@[j as int]));
                            }
                            j += 1;
                        }
                        proof {
                            assert(cv@.take(cv.len() as int) =~= cv@);
                        }
                    },
                    Option::None => {
                        proof {
                            assert(flat_comps_from(v@.take(i + 1)) =~= flat_comps_from(
                                v@.take(i as int),
                            ));
                        }
                    },
                }
                i += 1;
            }
            proof {
                assert(v@.take(v.len() as int) =~= v@);
            }
        },
        Option::None => {},
    }
    out
}

/// The status an event reports, Scheduled when any link is missing.
pub open spec fn event_status_spec(e: EspnEvent) -> GameStatus {
    match e.status {
        Option::Some(st) => match st.status_type {
            Option::Some(t) => match t.name {
                Option::Some(n) => parse_status_spec(n@),
                Option::None => GameStatus::Scheduled,
            },
            Option::None => GameStatus::Scheduled,
        },
        Option::None => GameStatus::Scheduled,
    }
}

/// The display location of an event: the venue's full name, else
/// "city, state" when both are present.
pub open spec fn venue_location(e: EspnEvent) -> Option<Seq<char>> {
    match e.venue {
        Option::None => Option::None,
        Option::Some(v) => match v.full_name {
            Option::Some(n) => Option::Some(n@),
            Option::None => match (v.city, v.state) {
                (Option::Some(c), Option::Some(s)) => Option::Some(c@ + ", "@ + s@),
                _ => Option::None,
            },
        },
    }
}

/// A side counts for an event score only with both a team and a score.
pub open spec fn has_team_and_score(cs: Seq<EspnCompetitor>, idx: Option<int>) -> bool {
    match idx {
        Option::Some(i) => 0 <= i < cs.len() && cs[i].team is Some && cs[i].score is Some,
        Option::None => false,
    }
}

/// The (top, bottom) score pair of an event: both sides must field a
/// team, carry a score string, and both strings must parse.
pub open spec fn event_score(cs: Seq<EspnCompetitor>) -> Option<(u16, u16)> {
    if has_team_and_score(cs, top_index(cs)) && has_team_and_score(cs, bottom_index(cs)) {
        match (score_at(cs, top_index(cs)), score_at(cs, bottom_index(cs))) {
            (Option::Some(t), Option::Some(b)) => Option::Some((t, b)),
            _ => Option::None,
        }
    } else {
        Option::None
    }
}

/// The game a full event maps to.
pub open spec fn event_game_matches(g: Game, e: EspnEvent) -> bool {
    let cs = flat_comps(e);
    &&& g.id@ == (match e.id {
        Option::Some(v) => v@,
        Option::None => Seq::<char>::empty(),
    })
    &&& opt_str_view(g.espn_id) == Option::Some(g.id@)
    &&& slot_matches(g.top, cs, top_index(cs))
    &&& slot_matches(g.bottom, cs, bottom_index(cs))
    &&& g.status == event_status_spec(e)
    &&& g.score == event_score(cs)
    &&& winner_id_matches(g.winner_id, cs)
    &&& g.period == (match e.status {
        Option::Some(st) => st.period,
        Option::None => Option::None,
    })
    &&& opt_str_view(g.clock) == (match e.status {
        Option::Some(st) => opt_str_view(st.display_clock),
        Option::None => Option::None,
    })
    &&& g.start_time == (match e.date {
        Option::Some(d) => rfc3339_epoch_seconds(d@),
        Option::None => Option::None,
    })
    &&& opt_str_view(g.location) == venue_location(e)
}

/// Map one full event to a domain game.
pub fn map_event_to_game(event: &EspnEvent) -> (r: Game)
    ensures
        event_game_matches(r, *event),
{
    let id = match &event.id {
        Option::Some(v) => v.clone(),
        Option::None => String::new(),
    };
    let status = match &event.status {
        Option::Some(st) => match &st.status_type {
            Option::Some(t) => match &t.name {
                Option::Some(n) => parse_status(n.as_str()),
                Option::None => GameStatus::Scheduled,
            },
            Option::None => GameStatus::Scheduled,
        },
        Option::None => GameStatus::Scheduled,
    };
    let period = match &event.status {
        Option::Some(st) => st.period,
        Option::None => None,
    };
    let clock = match &event.status {
        Option::Some(st) => match &st.display_clock {
            Option::Some(c) => Some(c.clone()),
            Option::None => None,
        },
        Option::None => None,
    };
    let location = match &event.venue {
        Option::Some(v) => match &v.full_name {
            Option::Some(n) => Some(n.clone()),
            Option::None => match (&v.city, &v.state) {
                (Option::Some(c), Option::Some(s)) => Some(
                    c.clone().concat(", ").concat(s.as_str()),
                ),
                _ => None,
            },
        },
        Option::None => None,
    };
    let start_time = match &event.date {
        Option::Some(d) => parse_rfc3339_epoch(d.as_str()),
        Option::None => None,
    };

    let competitors = flatten_competitors(event);
    let (top, bottom) = split_competitors(&competitors);

    let ti = top_index_exec(&competitors);
    let bi = bottom_index_exec(&competitors);
    let top_counts = match ti {
        Option::Some(i) => {
            proof {
                assert(deref_comps(competitors@)[i as int] == *competitors@[i as int]);
            }
            match (&competitors[i].team, &competitors[i].score) {
                (Option::Some(_), Option::Some(_)) => true,
                _ => false,
            }
        },
        Option::None => false,
    };
    let bottom_counts = match bi {
        Option::Some(i) => {
            proof {
                assert(deref_comps(competitors@)[i as int] == *competitors@[i as int]);
            }
            match (&competitors[i].team, &competitors[i].score) {
                (Option::Some(_), Option::Some(_)) => true,
                _ => false,
            }
        },
        Option::None => false,
    };
    let score = if top_counts && bottom_counts {
        match (score_for(&competitors, ti), score_for(&competitors, bi)) {
            (Option::Some(t), Option::Some(b)) => Some((t, b)),
            _ => None,
        }
    } else {
        None
    };

    let winner_id = match find_winner_comp(&competitors) {
        Option::Some(i) => {
            proof {
                assert(deref_comps(competitors@)[i as int] == *competitors@[i as int]);
            }
            match &competitors[i].id {
                Option::Some(w) => Some(w.clone()),
                Option::None => None,
            }
        },
        Option::None => None,
    };

    Game {
        espn_id: Some(id.clone()),
        id,
        top,
        bottom,
        status,
        score,
        winner_id,
        period,
        clock,
        start_time,
        location,
    }
}

/// The game a bare-competitor matchup maps to.
pub open spec fn matchup_direct_matches(g: Game, m: EspnMatchup) -> bool {
    let cs = match m.competitors {
        Option::Some(v) => v@,
        Option::None => Seq::<EspnCompetitor>::empty(),
    };
    &&& g.id@ == (match m.id {
        Option::Some(v) => v@,
        Option::None => Seq::<char>::empty(),
    })
    &&& opt_str_view(g.espn_id) == Option::Some(g.id@)
    &&& slot_matches(g.top, cs, top_index(cs))
    &&& slot_matches(g.bottom, cs, bottom_index(cs))
    &&& g.score == pair_score(cs)
    &&& winner_id_matches(g.winner_id, cs)
    &&& g.status == if pair_score(cs) is Some {
        GameStatus::Final
    } else {
        GameStatus::Scheduled
    }
    &&& g.period is None
    &&& g.clock is None
    &&& g.start_time is None
    &&& g.location is None
}

/// The game a matchup maps to: through its embedded event when it has
/// one, else from its bare competitors.
pub open spec fn matchup_game_matches(g: Game, m: EspnMatchup) -> bool {
    match m.event {
        Option::Some(e) => event_game_matches(g, e),
        Option::None => matchup_direct_matches(g, m),
    }
}

/// Map one matchup to a domain game.
pub fn map_matchup(m: &EspnMatchup) -> (r: Game)
    ensures
        matchup_game_matches(r, *m),
{
    match &m.event {
        Option::Some(event) => {
            return map_event_to_game(event);
        },
        Option::None => {},
    }

    let id = match &m.id {
        Option::Some(v) => v.clone(),
        Option::None => String::new(),
    };

    let mut competitors: Vec<&EspnCompetitor> = Vec::new();
    proof {
        assert(deref_comps(competitors@) =~= Seq::<EspnCompetitor>::empty());
    }
    match &m.competitors {
        Option::Some(v) => {
            let mut i: usize = 0;
            proof {
                assert(v@.take(0) =~= Seq::<EspnCompetitor>::empty());
            }
            while i < v.len()
                invariant
                    m.competitors == Some(*v),
                    i <= v.len(),
                    deref_comps(competitors@) == v@.take(i as int),
                decreases v.len() - i,
            {
                let ghost before = competitors@;
                competitors.push(&v[i]);
                proof {
                    lemma_deref_push(before, &v@[i as int]);
                    assert(v@.take(i + 1) =~= v@.take(i as int).push(v@[i as int]));
                }
                i += 1;
            }
            proof {
                assert(v@.take(v.len() as int) =~= v@);
            }
        },
        Option::None => {},
    }

    let (top, bottom) = split_competitors(&competitors);
    let ti = top_index_exec(&competitors);
    let bi = bottom_index_exec(&competitors);
    let score = match (score_for(&competitors, ti), score_for(&competitors, bi)) {
        (Option::Some(t), Option::Some(b)) => Some((t, b)),
        _ => None,
    };
    let winner_id = match find_winner_comp(&competitors) {
        Option::Some(i) => {
            proof {
                assert(deref_comps(competitors@)[i as int] == *competitors@[i as int]);
            }
            match &competitors[i].id {
                Option::Some(w) => Some(w.clone()),
                Option::None => None,
            }
        },
        Option::None => None,
    };
    let status = if score.is_some() {
        GameStatus::Final
    } else {
        GameStatus::Scheduled
    };

    Game {
        espn_id: Some(id.clone()),
        id,
        top,
        bottom,
        status,
        score,
        winner_id,
        period: None,
        clock: None,
        start_time: None,
        location: None,
    }
}

/// A tournament entry carries a usable bracket: at least one round.
pub open spec fn has_bracket(t: TournamentEntry) -> bool {
    match t.bracket {
        Option::Some(b) => match b.rounds {
            Option::Some(rs) => rs.len() > 0,
            Option::None => false,
        },
        Option::None => false,
    }
}

/// The lowercased name of an entry, empty when it has none.
pub open spec fn entry_lower_name(t: TournamentEntry) -> Seq<char> {
    lower_str(
        match t.name {
            Option::Some(n) => n@,
            Option::None => Seq::<char>::empty(),
        },
    )
}

/// The tournament-name heuristic: one of the championship keywords, and
/// none of the consolation-bracket keywords.
pub open spec fn name_matches(t: TournamentEntry) -> bool {
    let n = entry_lower_name(t);
    &&& (contains_seq(n, "ncaa"@) || contains_seq(n, "march"@) || contains_seq(
        n,
        "championship"@,
    ) || contains_seq(n, "tournament"@))
    &&& !contains_seq(n, "nit"@)
    &&& !contains_seq(n, "invitational"@)
}

/// First entry with a bracket and a matching name, from `from`.
pub open spec fn first_full_entry(entries: Seq<TournamentEntry>, from: int) -> Option<int>
    decreases entries.len() - from when 0 <= from <= entries.len()
{
    if from >= entries.len() {
        Option::None
    } else if has_bracket(entries[from]) && name_matches(entries[from]) {
        Option::Some(from)
    } else {
        first_full_entry(entries, from + 1)
    }
}

/// First entry with a bracket at all, from `from`.
pub open spec fn first_bracket_entry(entries: Seq<TournamentEntry>, from: int) -> Option<int>
    decreases entries.len() - from when 0 <= from <= entries.len()
{
    if from >= entries.len() {
        Option::None
    } else if has_bracket(entries[from]) {
        Option::Some(from)
    } else {
        first_bracket_entry(entries, from + 1)
    }
}

/// Test an entry for a usable bracket.
fn entry_has_bracket(t: &TournamentEntry) -> (r: bool)
    ensures
        r == has_bracket(*t),
{
    match &t.bracket {
        Option::Some(b) => match &b.rounds {
            Option::Some(rs) => rs.len() > 0,
            Option::None => false,
        },
        Option::None => false,
    }
}

/// Test an entry's lowercased name against the championship keywords.
/// This is where a caller can check what the case folding produced.
fn entry_name_matches(t: &TournamentEntry) -> (r: bool)
    ensures
        r == name_matches(*t),
{
    let raw = match &t.name {
        Option::Some(n) => n.clone(),
        Option::None => String::new(),
    };
    let n = to_lowercase(raw.as_str());
    let ns = n.as_str();
    (str_contains(ns, "ncaa") || str_contains(ns, "march") || str_contains(ns, "championship")
        || str_contains(ns, "tournament")) && !str_contains(ns, "nit") && !str_contains(
        ns,
        "invitational",
    )
}

/// Pick the best tournament entry of a year's response: the first entry
/// with a bracket and a championship-like name; else the first with a
/// bracket; else a typed not-found failure naming the year.
#[verifier::loop_isolation(false)]
pub fn select_tournament_entry(entries: Vec<TournamentEntry>, year: i32) -> (r: Result<
    TournamentEntry,
    ApiError,
>)
    ensures
        match r {
            Result::Ok(e) => match first_full_entry(entries@, 0) {
                Option::Some(i) => e == entries@[i],
                Option::None => match first_bracket_entry(entries@, 0) {
                    Option::Some(i) => e == entries@[i],
                    Option::None => false,
                },
            },
            Result::Err(err) => match err {
                ApiError::NotFound(msg) => if entries.len() == 0 {
                    msg@ == "no tournaments returned for year "@ + sint_str(year as int)
                } else {
                    &&& first_full_entry(entries@, 0) is None
                    &&& first_bracket_entry(entries@, 0) is None
                    &&& msg@ == "NCAA tournament bracket not found for year "@ + sint_str(
                        year as int,
                    )
                },
                _ => false,
            },
        },
{
    let ghost orig = entries@;
    let mut list = entries;
    if list.len() == 0 {
        return Err(
            ApiError::NotFound(
                String::from_str("no tournaments returned for year ").concat(
                    i64_to_string(year as i64).as_str(),
                ),
            ),
        );
    }

    let mut i: usize = 0;
    while i < list.len()
        invariant
            i <= list.len(),
            list@ == orig,
            first_full_entry(orig, 0) == first_full_entry(orig, i as int),
        decreases list.len() - i,
    {
        if entry_has_bracket(&list[i]) && entry_name_matches(&list[i]) {
            proof {
                assert(first_full_entry(orig, i as int) == Some(i as int));
            }
            return Ok(list.swap_remove(i));
        }
        i += 1;
    }

    let mut i: usize = 0;
    while i < list.len()
        invariant
            i <= list.len(),
            list@ == orig,
            first_full_entry(orig, 0) is None,
            first_bracket_entry(orig, 0) == first_bracket_entry(orig, i as int),
        decreases list.len() - i,
    {
        if entry_has_bracket(&list[i]) {
            proof {
                assert(first_bracket_entry(orig, i as int) == Some(i as int));
            }
            return Ok(list.swap_remove(i));
        }
        i += 1;
    }

    Err(
        ApiError::NotFound(
            String::from_str("NCAA tournament bracket not found for year ").concat(
                i64_to_string(year as i64).as_str(),
            ),
        ),
    )
}


/// The round a wire round plays at; a missing number counts as the first
/// main round.
pub open spec fn wire_round_kind(wr: EspnRound) -> RoundKind {
    round_number_to_kind_spec(
        match wr.number {
            Option::Some(n) => n as int,
            Option::None => 2,
        },
    )
}

/// The region key of one matchup: its free-text note in title case, or
/// the bare "Region" label when it has none.
pub open spec fn matchup_region_key(m: EspnMatchup) -> Seq<char> {
    match m.note {
        Option::Some(n) => title_cased(n@),
        Option::None => "Region"@,
    }
}

/// The matchups of a round that key under a region name, in feed order.
pub open spec fn key_filter(ms: Seq<EspnMatchup>, x: Seq<char>) -> Seq<EspnMatchup>
    decreases ms.len(),
{
    if ms.len() == 0 {
        Seq::<EspnMatchup>::empty()
    } else {
        let rest = key_filter(ms.drop_last(), x);
        if matchup_region_key(ms.last()) == x {
            rest.push(ms.last())
        } else {
            rest
        }
    }
}

/// What one wire round contributes to a region: everything for the
/// national rounds of the "National" region, the key-filtered matchups
/// for the regular rounds.
pub open spec fn round_contribution(wr: EspnRound, x: Seq<char>) -> Seq<EspnMatchup> {
    let ms = wr.games_iter_spec();
    if wire_round_kind(wr).is_final_four_spec() {
        if x == "National"@ {
            ms
        } else {
            Seq::<EspnMatchup>::empty()
        }
    } else {
        key_filter(ms, x)
    }
}

/// Indices of the wire rounds contributing games to a region, ascending.
pub open spec fn contributing_rounds(rounds: Seq<EspnRound>, x: Seq<char>, from: int) -> Seq<int>
    decreases rounds.len() - from when 0 <= from <= rounds.len()
{
    if from >= rounds.len() {
        Seq::<int>::empty()
    } else {
        let rest = contributing_rounds(rounds, x, from + 1);
        if round_contribution(rounds[from], x).len() > 0 {
            seq![from] + rest
        } else {
            rest
        }
    }
}

/// The round list of one region: one round per contributing wire round,
/// in wire order, each holding its contribution mapped game for game.
pub open spec fn espn_region_rounds_match(
    rlist: Seq<Round>,
    rounds: Seq<EspnRound>,
    x: Seq<char>,
) -> bool {
    let idxs = contributing_rounds(rounds, x, 0);
    &&& rlist.len() == idxs.len()
    &&& forall|k: int|
        0 <= k < rlist.len() ==> {
            let round = #[trigger] rlist[k];
            &&& 0 <= idxs[k] < rounds.len()
            &&& round.kind == wire_round_kind(rounds[idxs[k]])
            &&& round.games.len() == round_contribution(rounds[idxs[k]], x).len()
            &&& forall|j: int|
                0 <= j < round.games.len() ==> matchup_game_matches(
                    #[trigger] round.games@[j],
                    round_contribution(rounds[idxs[k]], x)[j],
                )
        }
}

/// The region keys one wire round mentions, in order.
pub open spec fn round_keys(wr: EspnRound) -> Seq<Seq<char>> {
    let ms = wr.games_iter_spec();
    if wire_round_kind(wr).is_final_four_spec() {
        if ms.len() > 0 {
            seq!["National"@]
        } else {
            Seq::<Seq<char>>::empty()
        }
    } else {
        ms.map_values(|m: EspnMatchup| matchup_region_key(m))
    }
}

/// All region keys of all wire rounds, in order.
pub open spec fn all_keys(rounds: Seq<EspnRound>) -> Seq<Seq<char>>
    decreases rounds.len(),
{
    if rounds.len() == 0 {
        Seq::<Seq<char>>::empty()
    } else {
        all_keys(rounds.drop_last()) + round_keys(rounds.last())
    }
}

/// First appearances of the keys, in order.
pub open spec fn distinct_keys(keys: Seq<Seq<char>>) -> Seq<Seq<char>>
    decreases keys.len(),
{
    if keys.len() == 0 {
        Seq::<Seq<char>>::empty()
    } else {
        let rest = distinct_keys(keys.drop_last());
        if rest.contains(keys.last()) {
            rest
        } else {
            rest.push(keys.last())
        }
    }
}

/// One of the four canonical regional names.
pub open spec fn is_canonical_name(n: Seq<char>) -> bool {
    n == "East"@ || n == "West"@ || n == "South"@ || n == "Midwest"@
}

/// The present canonical regional names, in their fixed order.
pub open spec fn pulled(d: Seq<Seq<char>>) -> Seq<Seq<char>> {
    (if d.contains("East"@) {
        seq!["East"@]
    } else {
        Seq::<Seq<char>>::empty()
    }) + (if d.contains("West"@) {
        seq!["West"@]
    } else {
        Seq::<Seq<char>>::empty()
    }) + (if d.contains("South"@) {
        seq!["South"@]
    } else {
        Seq::<Seq<char>>::empty()
    }) + (if d.contains("Midwest"@) {
        seq!["Midwest"@]
    } else {
        Seq::<Seq<char>>::empty()
    })
}

/// The names outside the canonical list and the national tail, in
/// first-appearance order.
pub open spec fn middle_names(d: Seq<Seq<char>>) -> Seq<Seq<char>>
    decreases d.len(),
{
    if d.len() == 0 {
        Seq::<Seq<char>>::empty()
    } else {
        let rest = middle_names(d.drop_last());
        if is_canonical_name(d.last()) || d.last() == "National"@ {
            rest
        } else {
            rest.push(d.last())
        }
    }
}

/// The synthetic "National" region, when present, closes the list.
pub open spec fn national_tail(d: Seq<Seq<char>>) -> Seq<Seq<char>> {
    if d.contains("National"@) {
        seq!["National"@]
    } else {
        Seq::<Seq<char>>::empty()
    }
}

/// The wire rounds an entry's bracket carries.
pub open spec fn entry_rounds(entry: TournamentEntry) -> Seq<EspnRound> {
    match entry.bracket {
        Option::Some(b) => match b.rounds {
            Option::Some(rs) => rs@,
            Option::None => Seq::<EspnRound>::empty(),
        },
        Option::None => Seq::<EspnRound>::empty(),
    }
}

/// The region names of the output: canonical names first in their fixed
/// order, then the rest as first seen, and "National" always last.
pub open spec fn ordered_region_names(rounds: Seq<EspnRound>) -> Seq<Seq<char>> {
    let d = distinct_keys(all_keys(rounds));
    pulled(d) + middle_names(d) + national_tail(d)
}

/// The views of a string list.
pub open spec fn str_views(v: Seq<String>) -> Seq<Seq<char>> {
    v.map_values(|s: String| s@)
}

/// Pushing a string appends its view.
proof fn lemma_str_views_push(v: Seq<String>, s: String)
    ensures
        str_views(v.push(s)) == str_views(v).push(s@),
{
    assert(str_views(v.push(s)) =~= str_views(v).push(s@));
}

/// The region key of one matchup.
fn matchup_key(m: &EspnMatchup) -> (r: String)
    ensures
        r@ == matchup_region_key(*m),
{
    match &m.note {
        Option::Some(n) => to_title_case(n.as_str()),
        Option::None => String::from_str("Region"),
    }
}

/// Whether a name is already listed.
fn contains_name(v: &Vec<String>, name: &str) -> (r: bool)
    ensures
        r == str_views(v@).contains(name@),
{
    let mut i: usize = 0;
    while i < v.len()
        invariant
            i <= v.len(),
            forall|k: int| 0 <= k < i ==> str_views(v@)[k] != name@,
        decreases v.len() - i,
    {
        proof {
            assert(str_views(v@)[i as int] == v@[i as int]@);
        }
        if str_eq(v[i].as_str(), name) {
            proof {
                assert(str_views(v@)[i as int] == name@);
            }
            return true;
        }
        i += 1;
    }
    proof {
        assert forall|k: int| 0 <= k < str_views(v@).len() implies str_views(v@)[k] != name@ by {
        }
    }
    false
}

/// The round kind of a wire round.
fn exec_wire_round_kind(wr: &EspnRound) -> (r: RoundKind)
    ensures
        r == wire_round_kind(*wr),
{
    let number: u32 = match &wr.number {
        Option::Some(n) => *n,
        Option::None => 2,
    };
    round_number_to_kind(number)
}

/// Collect the distinct region keys of the bracket, first seen first.
#[verifier::loop_isolation(false)]
fn collect_region_names(rounds: &Vec<EspnRound>) -> (r: Vec<String>)
    ensures
        str_views(r@) == distinct_keys(all_keys(rounds@)),
{
    let mut out: Vec<String> = Vec::new();
    proof {
        assert(rounds@.take(0) =~= Seq::<EspnRound>::empty());
        assert(str_views(out@) =~= distinct_keys(all_keys(rounds@.take(0))));
    }
    let mut i: usize = 0;
    while i < rounds.len()
        invariant
            i <= rounds.len(),
            str_views(out@) == distinct_keys(all_keys(rounds@.take(i as int))),
        decreases rounds.len() - i,
    {
        proof {
            assert(rounds@.take(i + 1).drop_last() =~= rounds@.take(i as int));
            assert(rounds@.take(i + 1).last() == rounds@[i as int]);
        }
        let wr = &rounds[i];
        let kind = exec_wire_round_kind(wr);
        let ms = wr.games_iter();
        let ghost base = all_keys(rounds@.take(i as int));
        if kind.is_final_four() {
            if ms.len() > 0 {
                let ghost before = out@;
                if !contains_name(&out, "National") {
                    let pushed = String::from_str("National");
                    let ghost gp = pushed;
                    out.push(pushed);
                    proof {
                        lemma_str_views_push(before, gp);
                    }
                }
                proof {
                    let keys = base + round_keys(rounds@[i as int]);
                    assert(keys.drop_last() =~= base);
                    assert(keys.last() == "National"@);
                    assert(all_keys(rounds@.take(i + 1)) == keys);
                }
            } else {
                proof {
                    assert(all_keys(rounds@.take(i + 1)) =~= base);
                }
            }
        } else {
            let mut j: usize = 0;
            proof {
                let keyfn = |m: EspnMatchup| matchup_region_key(m);
                assert(base + wr.games_iter_spec().take(0).map_values(keyfn) =~= base);
            }
            while j < ms.len()
                invariant
                    i < rounds.len(),
                    *wr == rounds@[i as int],
                    !wire_round_kind(*wr).is_final_four_spec(),
                    ms.len() == wr.games_iter_spec().len(),
                    forall|q: int|
                        0 <= q < ms.len() ==> *(#[trigger] ms@[q]) == wr.games_iter_spec()[q],
                    j <= ms.len(),
                    str_views(out@) == distinct_keys(
                        base + wr.games_iter_spec().take(j as int).map_values(
                            |m: EspnMatchup| matchup_region_key(m),
                        ),
                    ),
                decreases ms.len() - j,
            {
                let ghost keyfn = |m: EspnMatchup| matchup_region_key(m);
                let ghost keys_j = base + wr.games_iter_spec().take(j as int).map_values(keyfn);
                let ghost keys_j1 = base + wr.games_iter_spec().take(j + 1).map_values(keyfn);
                proof {
                    let cur = wr.games_iter_spec()[j as int];
                    assert(wr.games_iter_spec().take(j + 1).map_values(keyfn) =~= wr
                        .games_iter_spec().take(j as int).map_values(keyfn).push(keyfn(cur)));
                    assert(keys_j1 =~= keys_j.push(matchup_region_key(cur)));
                    assert(keys_j1.drop_last() =~= keys_j);
                }
                let key = matchup_key(ms[j]);
                let ghost gkey = key;
                let ghost before = out@;
                if !contains_name(&out, key.as_str()) {
                    out.push(key);
                    proof {
                        lemma_str_views_push(before, gkey);
                    }
                }
                j += 1;
            }
            proof {
                let keyfn = |m: EspnMatchup| matchup_region_key(m);
                assert(wr.games_iter_spec().take(ms.len() as int) =~= wr.games_iter_spec());
                assert(all_keys(rounds@.take(i + 1)) =~= base + wr.games_iter_spec().map_values(
                    keyfn,
                ));
            }
        }
        i += 1;
    }
    proof {
        assert(rounds@.take(rounds.len() as int) =~= rounds@);
    }
    out
}

/// Arrange the collected names: canonical list first, the rest as seen.
#[verifier::loop_isolation(false)]
#[verifier::rlimit(60)]
fn order_region_names(names: &Vec<String>) -> (r: Vec<String>)
    ensures
        str_views(r@) == pulled(str_views(names@)) + middle_names(str_views(names@))
            + national_tail(str_views(names@)),
{
    let ghost d = str_views(names@);
    let mut out: Vec<String> = Vec::new();
    if contains_name(names, "East") {
        let ghost before = out@;
        let pushed = String::from_str("East");
        let ghost gp = pushed;
        out.push(pushed);
        proof {
            lemma_str_views_push(before, gp);
        }
    }
    if contains_name(names, "West") {
        let ghost before = out@;
        let pushed = String::from_str("West");
        let ghost gp = pushed;
        out.push(pushed);
        proof {
            lemma_str_views_push(before, gp);
        }
    }
    if contains_name(names, "South") {
        let ghost before = out@;
        let pushed = String::from_str("South");
        let ghost gp = pushed;
        out.push(pushed);
        proof {
            lemma_str_views_push(before, gp);
        }
    }
    if contains_name(names, "Midwest") {
        let ghost before = out@;
        let pushed = String::from_str("Midwest");
        let ghost gp = pushed;
        out.push(pushed);
        proof {
            lemma_str_views_push(before, gp);
        }
    }
    proof {
        assert(str_views(out@) =~= pulled(d));
    }
    let mut i: usize = 0;
    proof {
        assert(d.take(0) =~= Seq::<Seq<char>>::empty());
    }
    while i < names.len()
        invariant
            i <= names.len(),
            str_views(out@) == pulled(d) + middle_names(d.take(i as int)),
        decreases names.len() - i,
    {
        proof {
            assert(d.take(i + 1).drop_last() =~= d.take(i as int));
            assert(d.take(i + 1).last() == d[i as int]);
            assert(d[i as int] == names@[i as int]@);
        }
        let n = &names[i];
        let ns = n.as_str();
        let skip = str_eq(ns, "East") || str_eq(ns, "West") || str_eq(ns, "South") || str_eq(
            ns,
            "Midwest",
        ) || str_eq(ns, "National");
        if !skip {
            let ghost before = out@;
            let pushed = n.clone();
            let ghost gp = pushed;
            out.push(pushed);
            proof {
                lemma_str_views_push(before, gp);
                assert(pulled(d) + middle_names(d.take(i + 1)) =~= (pulled(d) + middle_names(
                    d.take(i as int),
                )).push(d[i as int]));
            }
        }
        i += 1;
    }
    proof {
        assert(d.take(names.len() as int) =~= d);
    }
    if contains_name(names, "National") {
        let ghost before = out@;
        let pushed = String::from_str("National");
        let ghost gp = pushed;
        out.push(pushed);
        proof {
            lemma_str_views_push(before, gp);
        }
    }
    proof {
        assert(str_views(out@) =~= pulled(d) + middle_names(d) + national_tail(d));
    }
    out
}

/// Build the round list of one region from the wire rounds.
#[verifier::loop_isolation(false)]
fn build_region_rounds(rounds: &Vec<EspnRound>, x: &str) -> (r: Vec<Round>)
    ensures
        espn_region_rounds_match(r@, rounds@, x@),
{
    let mut out: Vec<Round> = Vec::new();
    let ghost mut idxs: Seq<int> = Seq::<int>::empty();
    let mut i: usize = 0;
    proof {
        assert(idxs + contributing_rounds(rounds@, x@, 0) =~= contributing_rounds(
            rounds@,
            x@,
            0,
        ));
    }
    while i < rounds.len()
        invariant
            i <= rounds.len(),
            idxs.len() == out.len(),
            contributing_rounds(rounds@, x@, 0) == idxs + contributing_rounds(
                rounds@,
                x@,
                i as int,
            ),
            forall|k: int|
                0 <= k < out.len() ==> {
                    let round = #[trigger] out@[k];
                    &&& 0 <= idxs[k] < rounds@.len()
                    &&& round.kind == wire_round_kind(rounds@[idxs[k]])
                    &&& round.games.len() == round_contribution(rounds@[idxs[k]], x@).len()
                    &&& forall|j: int|
                        0 <= j < round.games.len() ==> matchup_game_matches(
                            #[trigger] round.games@[j],
                            round_contribution(rounds@[idxs[k]], x@)[j],
                        )
                },
        decreases rounds.len() - i,
    {
        let wr = &rounds[i];
        let kind = exec_wire_round_kind(wr);
        let ms = wr.games_iter();
        if kind.is_final_four() {
            if str_eq(x, "National") && ms.len() > 0 {
                let mut games: Vec<Game> = Vec::new();
                let mut j: usize = 0;
                while j < ms.len()
                    invariant
                        i < rounds.len(),
                        *wr == rounds@[i as int],
                        ms.len() == wr.games_iter_spec().len(),
                        forall|q: int|
                            0 <= q < ms.len() ==> *(#[trigger] ms@[q]) == wr.games_iter_spec()[q],
                        j <= ms.len(),
                        games.len() == j,
                        forall|q: int|
                            0 <= q < j ==> matchup_game_matches(
                                #[trigger] games@[q],
                                wr.games_iter_spec()[q],
                            ),
                    decreases ms.len() - j,
                {
                    games.push(map_matchup(ms[j]));
                    j += 1;
                }
                out.push(Round { kind, games });
                proof {
                    idxs = idxs.push(i as int);
                    assert(idxs + contributing_rounds(rounds@, x@, i + 1) =~= idxs.drop_last()
                        + (seq![i as int] + contributing_rounds(rounds@, x@, i + 1)));
                }
            } else {
                proof {
                    assert(round_contribution(rounds@[i as int], x@).len() == 0);
                }
            }
        } else {
            let mut games: Vec<Game> = Vec::new();
            let mut j: usize = 0;
            proof {
                assert(wr.games_iter_spec().take(0) =~= Seq::<EspnMatchup>::empty());
            }
            while j < ms.len()
                invariant
                    i < rounds.len(),
                    *wr == rounds@[i as int],
                    !wire_round_kind(*wr).is_final_four_spec(),
                    ms.len() == wr.games_iter_spec().len(),
                    forall|q: int|
                        0 <= q < ms.len() ==> *(#[trigger] ms@[q]) == wr.games_iter_spec()[q],
                    j <= ms.len(),
                    games.len() == key_filter(wr.games_iter_spec().take(j as int), x@).len(),
                    forall|q: int|
                        0 <= q < games.len() ==> matchup_game_matches(
                            #[trigger] games@[q],
                            key_filter(wr.games_iter_spec().take(j as int), x@)[q],
                        ),
                decreases ms.len() - j,
            {
                proof {
                    let cur = wr.games_iter_spec()[j as int];
                    assert(wr.games_iter_spec().take(j + 1).drop_last() =~= wr.games_iter_spec()
                        .take(j as int));
                    assert(wr.games_iter_spec().take(j + 1).last() == cur);
                }
                let ghost prev = key_filter(wr.games_iter_spec().take(j as int), x@);
                let key = matchup_key(ms[j]);
                if str_eq(key.as_str(), x) {
                    games.push(map_matchup(ms[j]));
                    proof {
                        assert(key_filter(wr.games_iter_spec().take(j + 1), x@) == prev.push(
                            wr.games_iter_spec()[j as int],
                        ));
                    }
                } else {
                    proof {
                        assert(key_filter(wr.games_iter_spec().take(j + 1), x@) == prev);
                    }
                }
                j += 1;
            }
            proof {
                assert(wr.games_iter_spec().take(ms.len() as int) =~= wr.games_iter_spec());
            }
            if games.len() > 0 {
                out.push(Round { kind, games });
                proof {
                    idxs = idxs.push(i as int);
                    assert(idxs + contributing_rounds(rounds@, x@, i + 1) =~= idxs.drop_last()
                        + (seq![i as int] + contributing_rounds(rounds@, x@, i + 1)));
                }
            }
        }
        i += 1;
    }
    proof {
        assert(contributing_rounds(rounds@, x@, rounds.len() as int) =~= Seq::<int>::empty());
        assert(idxs + Seq::<int>::empty() =~= idxs);
    }
    out
}

/// Map a secondary-source tournament entry into the domain tree: each
/// matchup is keyed to a region by its note, the national rounds collapse
/// into the "National" region, and regions come out canonical names
/// first, then as first seen.
#[verifier::loop_isolation(false)]
pub fn map_tournament(entry: TournamentEntry, year: u16) -> (r: Tournament)
    ensures
        r.id == entry.id,
        r.name@ == (match entry.name {
            Option::Some(n) => n@,
            Option::None => "NCAA Tournament"@,
        }),
        r.year == year,
        r.regions.len() == ordered_region_names(entry_rounds(entry)).len(),
        forall|k: int|
            0 <= k < r.regions.len() ==> {
                let reg = #[trigger] r.regions@[k];
                let names = ordered_region_names(entry_rounds(entry));
                &&& reg.name@ == names[k]
                &&& reg.id@ == lower_str(names[k])
                &&& espn_region_rounds_match(reg.rounds@, entry_rounds(entry), names[k])
            },
{
    let ghost entry0 = entry;
    let TournamentEntry { id, name, bracket } = entry;
    let name = match name {
        Option::Some(n) => n,
        Option::None => String::from_str("NCAA Tournament"),
    };
    let rounds: Vec<EspnRound> = match bracket {
        Option::Some(b) => match b.rounds {
            Option::Some(rs) => rs,
            Option::None => Vec::new(),
        },
        Option::None => Vec::new(),
    };
    proof {
        assert(rounds@ == entry_rounds(entry0));
    }

    let collected = collect_region_names(&rounds);
    let ordered = order_region_names(&collected);
    proof {
        assert(str_views(ordered@) == ordered_region_names(rounds@));
    }

    let mut regions: Vec<Region> = Vec::new();
    let mut k: usize = 0;
    while k < ordered.len()
        invariant
            k <= ordered.len(),
            regions.len() == k,
            forall|m: int|
                0 <= m < k ==> {
                    let reg = #[trigger] regions@[m];
                    &&& reg.name@ == str_views(ordered@)[m]
                    &&& reg.id@ == lower_str(str_views(ordered@)[m])
                    &&& espn_region_rounds_match(reg.rounds@, rounds@, str_views(ordered@)[m])
                },
        decreases ordered.len() - k,
    {
        proof {
            assert(str_views(ordered@)[k as int] == ordered@[k as int]@);
        }
        let rname = ordered[k].clone();
        let rid = to_lowercase(rname.as_str());
        let rrounds = build_region_rounds(&rounds, rname.as_str());
        regions.push(Region { id: rid, name: rname, rounds: rrounds });
        k += 1;
    }

    Tournament { id, name, year, regions }
}

/// Map a whole scoreboard response to the partial-update game list.
pub fn map_scoreboard(raw: &ScoreboardResponse) -> (r: Vec<Game>)
    ensures
        ({
            let events = match raw.events {
                Option::Some(v) => v@,
                Option::None => Seq::<EspnEvent>::empty(),
            };
            &&& r.len() == events.len()
            &&& forall|i: int|
                0 <= i < r.len() ==> event_game_matches(#[trigger] r@[i], events[i])
        }),
{
    let mut out: Vec<Game> = Vec::new();
    match &raw.events {
        Option::Some(v) => {
            let mut i: usize = 0;
            while i < v.len()
                invariant
                    raw.events == Some(*v),
                    i <= v.len(),
                    out.len() == i,
                    forall|k: int|
                        0 <= k < i ==> event_game_matches(#[trigger] out@[k], v@[k]),
                decreases v.len() - i,
            {
                out.push(map_event_to_game(&v[i]));
                i += 1;
            }
        },
        Option::None => {},
    }
    out
}

/// Index of the first key equal to `key`, from `from`.
pub open spec fn key_index(keys: Seq<String>, key: Seq<char>, from: int) -> Option<int>
    decreases keys.len() - from when 0 <= from <= keys.len()
{
    if from >= keys.len() {
        Option::None
    } else if keys[from]@ == key {
        Option::Some(from)
    } else {
        key_index(keys, key, from + 1)
    }
}

/// The raw stat text under a key: empty when the key is missing or the
/// stat list is too short.
pub open spec fn stat_view(stats: Seq<String>, keys: Seq<String>, key: Seq<char>) -> Seq<char> {
    match key_index(keys, key, 0) {
        Option::Some(i) => if i < stats.len() {
            stats[i]@
        } else {
            Seq::<char>::empty()
        },
        Option::None => Seq::<char>::empty(),
    }
}

/// The numeric stat under a key, zero when it does not parse.
pub open spec fn stat_u16(stats: Seq<String>, keys: Seq<String>, key: Seq<char>) -> u16 {
    match parsed_u16(stat_view(stats, keys, key)) {
        Option::Some(v) => v,
        Option::None => 0u16,
    }
}

/// One stat line read out of the keyed stat columns.
pub open spec fn player_line_matches(
    r: PlayerLine,
    name: Seq<char>,
    stats: Seq<String>,
    keys: Seq<String>,
) -> bool {
    &&& r.name@ == name
    &&& r.points == stat_u16(stats, keys, "PTS"@)
    &&& r.rebounds == stat_u16(stats, keys, "REB"@)
    &&& r.assists == stat_u16(stats, keys, "AST"@)
    &&& r.minutes@ == stat_view(stats, keys, "MIN"@)
    &&& r.fg@ == stat_view(stats, keys, "FG"@)
    &&& r.fg3@ == stat_view(stats, keys, "3PT"@)
}

/// Read the raw stat text under a key.
fn get_stat(stats: &Vec<String>, keys: &Vec<String>, key: &str) -> (r: String)
    ensures
        r@ == stat_view(stats@, keys@, key@),
{
    let mut i: usize = 0;
    while i < keys.len()
        invariant
            i <= keys.len(),
            key_index(keys@, key@, 0) == key_index(keys@, key@, i as int),
        decreases keys.len() - i,
    {
        if str_eq(keys[i].as_str(), key) {
            if i < stats.len() {
                return stats[i].clone();
            }
            return String::new();
        }
        i += 1;
    }
    String::new()
}

/// Parse the numeric stat under a key, zero when absent.
fn get_stat_u16(stats: &Vec<String>, keys: &Vec<String>, key: &str) -> (r: u16)
    ensures
        r == stat_u16(stats@, keys@, key@),
{
    let raw = get_stat(stats, keys, key);
    match parse_u16(raw.as_str()) {
        Option::Some(v) => v,
        Option::None => 0,
    }
}

/// Assemble one stat line from the keyed stat columns.
pub fn parse_player_stats(name: String, stats: &Vec<String>, keys: &Vec<String>) -> (r: PlayerLine)
    ensures
        player_line_matches(r, name@, stats@, keys@),
{
    PlayerLine {
        points: get_stat_u16(stats, keys, "PTS"),
        rebounds: get_stat_u16(stats, keys, "REB"),
        assists: get_stat_u16(stats, keys, "AST"),
        minutes: get_stat(stats, keys, "MIN"),
        fg: get_stat(stats, keys, "FG"),
        fg3: get_stat(stats, keys, "3PT"),
        name,
    }
}

/// An all-empty stat line.
pub open spec fn default_player_line(r: PlayerLine) -> bool {
    player_line_matches(r, Seq::<char>::empty(), Seq::<String>::empty(), Seq::<String>::empty())
}

/// The team header of a box score.
pub open spec fn box_team_matches(r: Option<Team>, wire: Option<EspnTeam>) -> bool {
    match wire {
        Option::Some(t) => {
            &&& r is Some
            &&& r->0.id@ == (match t.id {
                Option::Some(v) => v@,
                Option::None => Seq::<char>::empty(),
            })
            &&& r->0.name@ == (match t.display_name {
                Option::Some(v) => v@,
                Option::None => Seq::<char>::empty(),
            })
            &&& r->0.short_name@ == (match t.short_display_name {
                Option::Some(v) => v@,
                Option::None => Seq::<char>::empty(),
            })
            &&& r->0.abbrev@ == (match t.abbreviation {
                Option::Some(v) => v@,
                Option::None => Seq::<char>::empty(),
            })
            &&& opt_str_view(r->0.color) == opt_str_view(t.color)
        },
        Option::None => r is None,
    }
}

/// First stat category named "athletes", from `from`.
pub open spec fn first_athletes_cat(cats: Seq<EspnStatCategory>, from: int) -> Option<int>
    decreases cats.len() - from when 0 <= from <= cats.len()
{
    if from >= cats.len() {
        Option::None
    } else if opt_str_view(cats[from].name) == Option::Some("athletes"@) {
        Option::Some(from)
    } else {
        first_athletes_cat(cats, from + 1)
    }
}

/// A player's display name, empty when missing.
pub open spec fn athlete_name(a: EspnAthleteStats) -> Seq<char> {
    match a.athlete {
        Option::Some(ath) => match ath.display_name {
            Option::Some(n) => n@,
            Option::None => Seq::<char>::empty(),
        },
        Option::None => Seq::<char>::empty(),
    }
}

/// A player's raw stat columns, empty when missing.
pub open spec fn athlete_stats(a: EspnAthleteStats) -> Seq<String> {
    match a.stats {
        Option::Some(v) => v@,
        Option::None => Seq::<String>::empty(),
    }
}

/// The box score one team's player data maps to.
pub open spec fn box_score_matches(r: BoxScore, team_data: EspnTeamPlayers) -> bool {
    let cats = match team_data.statistics {
        Option::Some(v) => v@,
        Option::None => Seq::<EspnStatCategory>::empty(),
    };
    &&& box_team_matches(r.team, team_data.team)
    &&& match first_athletes_cat(cats, 0) {
        Option::None => r.players.len() == 0 && default_player_line(r.totals),
        Option::Some(ci) => {
            let cat = cats[ci];
            let keys = match cat.keys {
                Option::Some(v) => v@,
                Option::None => Seq::<String>::empty(),
            };
            let athletes = match cat.athletes {
                Option::Some(v) => v@,
                Option::None => Seq::<EspnAthleteStats>::empty(),
            };
            let raw_totals = match cat.totals {
                Option::Some(v) => v@,
                Option::None => Seq::<String>::empty(),
            };
            &&& r.players.len() == athletes.len()
            &&& forall|i: int|
                0 <= i < athletes.len() ==> player_line_matches(
                    #[trigger] r.players@[i],
                    athlete_name(athletes[i]),
                    athlete_stats(athletes[i]),
                    keys,
                )
            &&& player_line_matches(r.totals, "TOTALS"@, raw_totals, keys)
        },
    }
}

/// Build one team's box score from its keyed player stats.
#[verifier::loop_isolation(false)]
pub fn build_box_score(team_data: &EspnTeamPlayers) -> (r: BoxScore)
    ensures
        box_score_matches(r, *team_data),
{
    let team = match &team_data.team {
        Option::Some(t) => Some(
            Team {
                id: match &t.id {
                    Option::Some(v) => v.clone(),
                    Option::None => String::new(),
                },
                name: match &t.display_name {
                    Option::Some(v) => v.clone(),
                    Option::None => String::new(),
                },
                short_name: match &t.short_display_name {
                    Option::Some(v) => v.clone(),
                    Option::None => String::new(),
                },
                abbrev: match &t.abbreviation {
                    Option::Some(v) => v.clone(),
                    Option::None => String::new(),
                },
                color: match &t.color {
                    Option::Some(v) => Some(v.clone()),
                    Option::None => None,
                },
            },
        ),
        Option::None => None,
    };

    let empty_keys: Vec<String> = Vec::new();
    let empty_stats: Vec<String> = Vec::new();

    let cats: &Vec<EspnStatCategory> = match &team_data.statistics {
        Option::Some(v) => v,
        Option::None => {
            let totals = parse_player_stats(String::new(), &empty_stats, &empty_keys);
            return BoxScore { team, players: Vec::new(), totals };
        },
    };

    let mut ci: usize = 0;
    while ci < cats.len()
        invariant
            ci <= cats.len(),
            first_athletes_cat(cats@, 0) == first_athletes_cat(cats@, ci as int),
        decreases cats.len() - ci,
    {
        let is_athletes = match &cats[ci].name {
            Option::Some(n) => str_eq(n.as_str(), "athletes"),
            Option::None => false,
        };
        if is_athletes {
            let cat = &cats[ci];
            let keys: &Vec<String> = match &cat.keys {
                Option::Some(v) => v,
                Option::None => &empty_keys,
            };
            let mut players: Vec<PlayerLine> = Vec::new();
            match &cat.athletes {
                Option::Some(athletes) => {
                    let mut i: usize = 0;
                    while i < athletes.len()
                        invariant
                            cat.athletes == Some(*athletes),
                            i <= athletes.len(),
                            players.len() == i,
                            forall|k: int|
                                0 <= k < i ==> player_line_matches(
                                    #[trigger] players@[k],
                                    athlete_name(athletes@[k]),
                                    athlete_stats(athletes@[k]),
                                    (match cat.keys {
                                        Option::Some(v) => v@,
                                        Option::None => Seq::<String>::empty(),
                                    }),
                                ),
                        decreases athletes.len() - i,
                    {
                        let a = &athletes[i];
                        let pname = match &a.athlete {
                            Option::Some(ath) => match &ath.display_name {
                                Option::Some(n) => n.clone(),
                                Option::None => String::new(),
                            },
                            Option::None => String::new(),
                        };
                        let line = match &a.stats {
                            Option::Some(stv) => parse_player_stats(pname, stv, keys),
                            Option::None => parse_player_stats(pname, &empty_stats, keys),
                        };
                        players.push(line);
                        i += 1;
                    }
                },
                Option::None => {},
            }
            let totals = match &cat.totals {
                Option::Some(tv) => parse_player_stats(String::from_str("TOTALS"), tv, keys),
                Option::None => parse_player_stats(
                    String::from_str("TOTALS"),
                    &empty_stats,
                    keys,
                ),
            };
            return BoxScore { team, players, totals };
        }
        ci += 1;
    }

    let totals = parse_player_stats(String::new(), &empty_stats, &empty_keys);
    BoxScore { team, players: Vec::new(), totals }
}

/// One play-by-play entry read from the wire.
pub open spec fn play_matches(r: Play, p: EspnPlay) -> bool {
    &&& r.period == (match p.period {
        Option::Some(pd) => match pd.number {
            Option::Some(n) => n,
            Option::None => 0u8,
        },
        Option::None => 0u8,
    })
    &&& r.clock@ == (match p.clock {
        Option::Some(c) => match c.display_value {
            Option::Some(v) => v@,
            Option::None => Seq::<char>::empty(),
        },
        Option::None => Seq::<char>::empty(),
    })
    &&& r.description@ == (match p.text {
        Option::Some(t) => t@,
        Option::None => Seq::<char>::empty(),
    })
    &&& r.home_score == (match p.home_score {
        Option::Some(v) => v,
        Option::None => 0u16,
    })
    &&& r.away_score == (match p.away_score {
        Option::Some(v) => v,
        Option::None => 0u16,
    })
}

/// The detail record a summary response maps to: plays in feed order,
/// the first listed team as the home box, the last listed as the away
/// box, empty boxes when the feed carries fewer than two.
pub open spec fn summary_matches(r: GameDetail, game_id: Seq<char>, raw: SummaryResponse) -> bool {
    let plays = match raw.plays {
        Option::Some(v) => v@,
        Option::None => Seq::<EspnPlay>::empty(),
    };
    let teams = match raw.boxscore {
        Option::Some(b) => match b.players {
            Option::Some(v) => v@,
            Option::None => Seq::<EspnTeamPlayers>::empty(),
        },
        Option::None => Seq::<EspnTeamPlayers>::empty(),
    };
    &&& r.game_id@ == game_id
    &&& r.plays.len() == plays.len()
    &&& forall|i: int| 0 <= i < plays.len() ==> play_matches(#[trigger] r.plays@[i], plays[i])
    &&& if teams.len() >= 1 {
        box_score_matches(r.home_box, teams[0])
    } else {
        empty_box_score(r.home_box)
    }
    &&& if teams.len() >= 2 {
        box_score_matches(r.away_box, teams[teams.len() - 1])
    } else {
        empty_box_score(r.away_box)
    }
}

/// A box score with no team, no players and an empty totals line.
pub open spec fn empty_box_score(b: BoxScore) -> bool {
    &&& b.team is None
    &&& b.players.len() == 0
    &&& default_player_line(b.totals)
}

/// Map a summary response to the detailed game record.
#[verifier::loop_isolation(false)]
pub fn map_summary(game_id: &str, raw: &SummaryResponse) -> (r: GameDetail)
    ensures
        summary_matches(r, game_id@, *raw),
{
    let mut plays: Vec<Play> = Vec::new();
    match &raw.plays {
        Option::Some(v) => {
            let mut i: usize = 0;
            while i < v.len()
                invariant
                    raw.plays == Some(*v),
                    i <= v.len(),
                    plays.len() == i,
                    forall|k: int| 0 <= k < i ==> play_matches(#[trigger] plays@[k], v@[k]),
                decreases v.len() - i,
            {
                let p = &v[i];
                plays.push(
                    Play {
                        period: match &p.period {
                            Option::Some(pd) => match &pd.number {
                                Option::Some(n) => *n,
                                Option::None => 0,
                            },
                            Option::None => 0,
                        },
                        clock: match &p.clock {
                            Option::Some(c) => match &c.display_value {
                                Option::Some(dv) => dv.clone(),
                                Option::None => String::new(),
                            },
                            Option::None => String::new(),
                        },
                        description: match &p.text {
                            Option::Some(t) => t.clone(),
                            Option::None => String::new(),
                        },
                        home_score: match &p.home_score {
                            Option::Some(s) => *s,
                            Option::None => 0,
                        },
                        away_score: match &p.away_score {
                            Option::Some(s) => *s,
                            Option::None => 0,
                        },
                    },
                );
                i += 1;
            }
        },
        Option::None => {},
    }

    let empty_keys: Vec<String> = Vec::new();
    let empty_stats: Vec<String> = Vec::new();
    let mut home_box = BoxScore {
        team: None,
        players: Vec::new(),
        totals: parse_player_stats(String::new(), &empty_stats, &empty_keys),
    };
    let mut away_box = BoxScore {
        team: None,
        players: Vec::new(),
        totals: parse_player_stats(String::new(), &empty_stats, &empty_keys),
    };
    match &raw.boxscore {
        Option::Some(b) => match &b.players {
            Option::Some(tv) => {
                if tv.len() >= 1 {
                    home_box = build_box_score(&tv[0]);
                }
                if tv.len() >= 2 {
                    away_box = build_box_score(&tv[tv.len() - 1]);
                }
            },
            Option::None => {},
        },
        Option::None => {},
    }

    GameDetail { game_id: game_id.to_owned(), plays, home_box, away_box }
}

/// End of the digit run starting at `i`.
pub open spec fn digit_run_end(s: Seq<char>, i: int) -> int
    decreases s.len() - i when 0 <= i <= s.len()
{
    if i >= s.len() || !is_digit(s[i]) {
        i
    } else {
        digit_run_end(s, i + 1)
    }
}

/// Scan for the first run of exactly four digits; only a value between
/// 2000 and 2100 counts as a year. `run` counts the digits ending at `i`.
pub open spec fn infer_scan(s: Seq<char>, i: int, run: int) -> Option<u16>
    decreases s.len() - i when 0 <= i <= s.len()
{
    if i >= s.len() {
        if run == 4 && 2000 <= dec_value(s.subrange(i - 4, i)) <= 2100 {
            Option::Some(dec_value(s.subrange(i - 4, i)) as u16)
        } else {
            Option::None
        }
    } else if is_digit(s[i]) {
        infer_scan(s, i + 1, run + 1)
    } else if run == 4 {
        if 2000 <= dec_value(s.subrange(i - 4, i)) <= 2100 {
            Option::Some(dec_value(s.subrange(i - 4, i)) as u16)
        } else {
            Option::None
        }
    } else {
        infer_scan(s, i + 1, 0)
    }
}

/// The tournament year a file path hints at: its first four-digit run,
/// accepted only between 2000 and 2100.
pub open spec fn inferred_year(s: Seq<char>) -> Option<u16> {
    infer_scan(s, 0, 0)
}

/// A four-digit numeral stays under five digits' worth.
proof fn lemma_dec4_bound(s: Seq<char>)
    requires
        s.len() == 4,
        all_digits(s),
    ensures
        0 <= dec_value(s) <= 9999,
{
    let s3 = s.drop_last();
    let s2 = s3.drop_last();
    let s1 = s2.drop_last();
    let s0 = s1.drop_last();
    assert(s0.len() == 0);
    assert(dec_value(s0) == 0);
    assert(s1.last() == s[0] && s2.last() == s[1] && s3.last() == s[2] && s.last() == s[3]);
    assert(is_digit(s[0]) && is_digit(s[1]) && is_digit(s[2]) && is_digit(s[3]));
    assert(dec_value(s1) == dec_value(s0) * 10 + digit_val(s1.last()));
    assert(dec_value(s2) == dec_value(s1) * 10 + digit_val(s2.last()));
    assert(dec_value(s3) == dec_value(s2) * 10 + digit_val(s3.last()));
    assert(dec_value(s) == dec_value(s3) * 10 + digit_val(s.last()));
}

/// Read a plausible tournament year out of a file path.
#[verifier::loop_isolation(false)]
pub fn infer_year_from_path(path: &str) -> (r: Option<u16>)
    ensures
        r == inferred_year(path@),
{
    let len = path.unicode_len();
    let mut i: usize = 0;
    let mut run: usize = 0;
    while i < len
        invariant
            len == path@.len(),
            i <= len,
            run <= i,
            forall|k: int| i - run <= k < i ==> is_digit(#[trigger] path@[k]),
            inferred_year(path@) == infer_scan(path@, i as int, run as int),
        decreases len - i,
    {
        let c = path.get_char(i);
        if c >= '0' && c <= '9' {
            run += 1;
            i += 1;
        } else {
            if run == 4 {
                let tok = path.substring_char(i - 4, i);
                proof {
                    assert(all_digits(tok@));
                    lemma_dec4_bound(tok@);
                }
                match parse_u16(tok) {
                    Option::Some(v) => {
                        if 2000 <= v && v <= 2100 {
                            return Some(v);
                        }
                        return None;
                    },
                    Option::None => {
                        return None;
                    },
                }
            }
            run = 0;
            i += 1;
        }
    }
    if run == 4 {
        let tok = path.substring_char(len - 4, len);
        proof {
            assert(all_digits(tok@));
            lemma_dec4_bound(tok@);
        }
        match parse_u16(tok) {
            Option::Some(v) => {
                if 2000 <= v && v <= 2100 {
                    return Some(v);
                }
            },
            Option::None => {},
        }
    }
    None
}

} // verus!
