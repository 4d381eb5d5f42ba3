//! Normalizer for the primary wire shape (authoritative bracket
//! topology): games carry a bracket-position id whose hundreds digit
//! encodes the round, a section id grouping them into regions, and a
//! coarse game-state letter. A reserved section id holds the national
//! semifinals and final.

use vstd::prelude::*;

use crate::domain::{Game, GameStatus, Region, Round, RoundKind, Team, TeamSeed, Tournament};
use crate::text::{dashed, dec_str, lower_str, str_eq, to_lowercase, replace_spaces_with_dashes,
    u64_to_string};
use crate::wire::{HenrygdChampionship, HenrygdGame, HenrygdRegion, HenrygdResponse, HenrygdTeam};

verus! {

/// The section id that always maps to the synthetic "National" region.
pub const NATIONAL_SECTION: u32 = 6;

/// The round a wire round number denotes. Total over 1..=7; anything
/// else falls back to the first main round.
pub open spec fn round_number_to_kind_spec(number: int) -> RoundKind {
    if number == 1 {
        RoundKind::FirstFour
    } else if number == 2 {
        RoundKind::First
    } else if number == 3 {
        RoundKind::Second
    } else if number == 4 {
        RoundKind::Sweet16
    } else if number == 5 {
        RoundKind::Elite8
    } else if number == 6 {
        RoundKind::FinalFour
    } else if number == 7 {
        RoundKind::Championship
    } else {
        RoundKind::First
    }
}

/// Map a wire round number to its round.
pub fn round_number_to_kind(number: u32) -> (r: RoundKind)
    ensures
        r == round_number_to_kind_spec(number as int),
{
    if number == 1 {
        RoundKind::FirstFour
    } else if number == 2 {
        RoundKind::First
    } else if number == 3 {
        RoundKind::Second
    } else if number == 4 {
        RoundKind::Sweet16
    } else if number == 5 {
        RoundKind::Elite8
    } else if number == 6 {
        RoundKind::FinalFour
    } else if number == 7 {
        RoundKind::Championship
    } else {
        RoundKind::First
    }
}

/// The round of the seven-round ladder with the given rank.
pub open spec fn kind_of_rank_spec(rank: int) -> RoundKind {
    round_number_to_kind_spec(rank + 1)
}

/// The status a scoreboard status-name denotes.
pub open spec fn parse_status_spec(s: Seq<char>) -> GameStatus {
    if s == "STATUS_IN_PROGRESS"@ || s == "STATUS_HALFTIME"@ {
        GameStatus::InProgress
    } else if s == "STATUS_FINAL"@ || s == "STATUS_FINAL_OT"@ {
        GameStatus::Final
    } else if s == "STATUS_POSTPONED"@ || s == "STATUS_CANCELLED"@ || s == "STATUS_SUSPENDED"@ {
        GameStatus::Postponed
    } else {
        GameStatus::Scheduled
    }
}

/// Map a scoreboard status name to a status.
pub fn parse_status(s: &str) -> (r: GameStatus)
    ensures
        r == parse_status_spec(s@),
{
    if str_eq(s, "STATUS_IN_PROGRESS") || str_eq(s, "STATUS_HALFTIME") {
        GameStatus::InProgress
    } else if str_eq(s, "STATUS_FINAL") || str_eq(s, "STATUS_FINAL_OT") {
        GameStatus::Final
    } else if str_eq(s, "STATUS_POSTPONED") || str_eq(s, "STATUS_CANCELLED") || str_eq(
        s,
        "STATUS_SUSPENDED",
    ) {
        GameStatus::Postponed
    } else {
        GameStatus::Scheduled
    }
}

/// The status a primary-source game-state letter denotes.
pub open spec fn ncaa_state_spec(s: Seq<char>) -> GameStatus {
    if s == "L"@ {
        GameStatus::InProgress
    } else if s == "F"@ {
        GameStatus::Final
    } else {
        GameStatus::Scheduled
    }
}

/// The view of an optional string.
pub open spec fn opt_str_view(o: Option<String>) -> Option<Seq<char>> {
    match o {
        Option::Some(s) => Option::Some(s@),
        Option::None => Option::None,
    }
}

/// An unresolved slot: no seed, no team, a bare "TBA" placeholder.
pub open spec fn tba_seed(s: TeamSeed) -> bool {
    &&& s.seed == 0
    &&& s.team is None
    &&& opt_str_view(s.placeholder) == Option::Some("TBA"@)
}

/// The slot a primary-source team entry maps to.
pub open spec fn team_seed_matches(s: TeamSeed, t: HenrygdTeam) -> bool {
    &&& s.seed == (match t.seed {
        Option::Some(v) => v,
        Option::None => 0u8,
    })
    &&& match t.team_id {
        Option::Some(id) => {
            &&& s.team is Some
            &&& s.team->0.id@ == id@
            &&& s.team->0.name@ == (match t.name {
                Option::Some(n) => n@,
                Option::None => Seq::<char>::empty(),
            })
            &&& s.team->0.short_name@ == (match t.short_name {
                Option::Some(sn) => sn@,
                Option::None => match t.name {
                    Option::Some(n) => n@,
                    Option::None => Seq::<char>::empty(),
                },
            })
            &&& s.team->0.abbrev@ == Seq::<char>::empty()
            &&& s.team->0.color is None
            &&& s.placeholder is None
        },
        Option::None => {
            &&& s.team is None
            &&& opt_str_view(s.placeholder) == Option::Some(
                match t.description {
                    Option::Some(d) => d@,
                    Option::None => "TBA"@,
                },
            )
        },
    }
}

/// Map one primary-source team entry to a slot.
pub fn map_ncaa_team(t: &HenrygdTeam) -> (r: TeamSeed)
    ensures
        team_seed_matches(r, *t),
{
    let seed = match &t.seed {
        Option::Some(v) => *v,
        Option::None => 0,
    };
    match &t.team_id {
        Option::Some(id) => {
            let name = match &t.name {
                Option::Some(n) => n.clone(),
                Option::None => String::new(),
            };
            let short_name = match &t.short_name {
                Option::Some(sn) => sn.clone(),
                Option::None => match &t.name {
                    Option::Some(n) => n.clone(),
                    Option::None => String::new(),
                },
            };
            TeamSeed {
                seed,
                team: Some(
                    Team {
                        id: id.clone(),
                        name,
                        short_name,
                        abbrev: String::new(),
                        color: None,
                    },
                ),
                placeholder: None,
            }
        },
        Option::None => {
            let placeholder = match &t.description {
                Option::Some(d) => d.clone(),
                Option::None => String::from_str("TBA"),
            };
            TeamSeed { seed, team: None, placeholder: Some(placeholder) }
        },
    }
}

/// Index of the first team entry flagged as the winner, from `from` on.
pub open spec fn first_winner(teams: Seq<HenrygdTeam>, from: int) -> Option<int>
    decreases teams.len() - from when 0 <= from <= teams.len()
{
    if from >= teams.len() {
        Option::None
    } else if teams[from].winner == Some(true) {
        Option::Some(from)
    } else {
        first_winner(teams, from + 1)
    }
}

/// The game a primary-source game maps to: bracket-position id as its
/// id, placeholder slots where team entries are missing, the winner id
/// from the winner flag, and no live data (the primary bracket feed
/// carries none).
pub open spec fn ncaa_game_matches(r: Game, g: HenrygdGame) -> bool {
    &&& r.id@ == dec_str(g.bracket_position_id as nat)
    &&& r.espn_id is None
    &&& if g.teams.len() >= 1 {
        team_seed_matches(r.top, g.teams@[0])
    } else {
        tba_seed(r.top)
    }
    &&& if g.teams.len() >= 2 {
        team_seed_matches(r.bottom, g.teams@[1])
    } else {
        tba_seed(r.bottom)
    }
    &&& match first_winner(g.teams@, 0) {
        Option::None => r.winner_id is None,
        Option::Some(i) => opt_str_view(r.winner_id) == opt_str_view(g.teams@[i].team_id),
    }
    &&& r.status == ncaa_state_spec(g.game_state@)
    &&& r.score is None
    &&& r.period is None
    &&& r.clock is None
    &&& r.start_time is None
    &&& r.location is None
}

/// Map one primary-source game to a domain game.
pub fn map_ncaa_game(g: &HenrygdGame) -> (r: Game)
    ensures
        ncaa_game_matches(r, *g),
{
    let top = if g.teams.len() >= 1 {
        map_ncaa_team(&g.teams[0])
    } else {
        TeamSeed { seed: 0, team: None, placeholder: Some(String::from_str("TBA")) }
    };
    let bottom = if g.teams.len() >= 2 {
        map_ncaa_team(&g.teams[1])
    } else {
        TeamSeed { seed: 0, team: None, placeholder: Some(String::from_str("TBA")) }
    };

    let mut winner_id: Option<String> = None;
    let mut i: usize = 0;
    let mut found = false;
    while !found && i < g.teams.len()
        invariant
            i <= g.teams.len(),
            !found ==> first_winner(g.teams@, 0) == first_winner(g.teams@, i as int),
            !found ==> winner_id is None,
            found ==> {
                &&& first_winner(g.teams@, 0) matches Some(w)
                &&& 0 <= first_winner(g.teams@, 0)->0 < g.teams.len()
                &&& opt_str_view(winner_id) == opt_str_view(
                    g.teams@[first_winner(g.teams@, 0)->0].team_id,
                )
            },
        decreases g.teams.len() - i + if found { 0int } else { 1int },
    {
        let t = &g.teams[i];
        let is_winner = match &t.winner {
            Option::Some(w) => *w,
            Option::None => false,
        };
        if is_winner {
            winner_id = match &t.team_id {
                Option::Some(id) => Some(id.clone()),
                Option::None => None,
            };
            found = true;
        } else {
            i += 1;
        }
    }

    let status = if str_eq(g.game_state.as_str(), "L") {
        GameStatus::InProgress
    } else if str_eq(g.game_state.as_str(), "F") {
        GameStatus::Final
    } else {
        GameStatus::Scheduled
    };

    Game {
        id: u64_to_string(g.bracket_position_id as u64),
        espn_id: None,
        top,
        bottom,
        status,
        score: None,
        winner_id,
        period: None,
        clock: None,
        start_time: None,
        location: None,
    }
}

/// Index of the last region entry carrying a section id; when the feed
/// repeats a section id, the later entry wins.
pub open spec fn last_region_entry(regions: Seq<HenrygdRegion>, sid: u32) -> Option<int>
    decreases regions.len(),
{
    if regions.len() == 0 {
        Option::None
    } else if regions.last().section_id == sid {
        Option::Some(regions.len() - 1)
    } else {
        last_region_entry(regions.drop_last(), sid)
    }
}

/// The display name of one region entry: its title, or a synthesized
/// "Region {n}" label while titles are still empty.
pub open spec fn region_title_spec(reg: HenrygdRegion) -> Seq<char> {
    if reg.title@.len() == 0 {
        "Region "@ + dec_str(reg.section_id as nat)
    } else {
        reg.title@
    }
}

/// The display name a section id resolves to.
pub open spec fn section_name_spec(regions: Seq<HenrygdRegion>, sid: u32) -> Seq<char> {
    match last_region_entry(regions, sid) {
        Option::Some(i) => region_title_spec(regions[i]),
        Option::None => "Region "@ + dec_str(sid as nat),
    }
}

/// Synthesize the "Region {n}" fallback label.
fn synthesized_region_name(sid: u32) -> (r: String)
    ensures
        r@ == "Region "@ + dec_str(sid as nat),
{
    String::from_str("Region ").concat(u64_to_string(sid as u64).as_str())
}

/// Resolve the display name of a section id.
pub fn name_for_section(regions: &Vec<HenrygdRegion>, sid: u32) -> (r: String)
    ensures
        r@ == section_name_spec(regions@, sid),
{
    let mut i: usize = regions.len();
    proof {
        assert(regions@.take(regions.len() as int) =~= regions@);
    }
    while i > 0
        invariant
            i <= regions.len(),
            last_region_entry(regions@, sid) == last_region_entry(regions@.take(i as int), sid),
        decreases i,
    {
        proof {
            assert(regions@.take(i as int).drop_last() =~= regions@.take(i as int - 1));
            assert(regions@.take(i as int).last() == regions@[i as int - 1]);
        }
        let reg = &regions[i - 1];
        if reg.section_id == sid {
            if !reg.title.as_str().is_empty() {
                return reg.title.clone();
            }
            return synthesized_region_name(reg.section_id);
        }
        i -= 1;
    }
    proof {
        assert(regions@.take(0) =~= Seq::<HenrygdRegion>::empty());
    }
    synthesized_region_name(sid)
}

/// Whether a game belongs to the (section, round) bucket.
pub open spec fn game_in_bucket(g: HenrygdGame, sid: u32, kind: RoundKind) -> bool {
    g.section_id == sid && round_number_to_kind_spec(g.bracket_position_id as int / 100) == kind
}

/// The games of one (section, round) bucket, in feed order.
pub open spec fn bucket_games(games: Seq<HenrygdGame>, sid: u32, kind: RoundKind) -> Seq<
    HenrygdGame,
>
    decreases games.len(),
{
    if games.len() == 0 {
        Seq::<HenrygdGame>::empty()
    } else {
        let rest = bucket_games(games.drop_last(), sid, kind);
        if game_in_bucket(games.last(), sid, kind) {
            rest.push(games.last())
        } else {
            rest
        }
    }
}

/// The rounds a section yields, earliest kind first, skipping kinds with
/// no games.
pub open spec fn present_kinds(games: Seq<HenrygdGame>, sid: u32, rank: int) -> Seq<RoundKind>
    decreases 7 - rank when 0 <= rank <= 7
{
    if rank >= 7 {
        Seq::<RoundKind>::empty()
    } else {
        let rest = present_kinds(games, sid, rank + 1);
        if bucket_games(games, sid, kind_of_rank_spec(rank)).len() > 0 {
            seq![kind_of_rank_spec(rank)] + rest
        } else {
            rest
        }
    }
}

/// The round list of one section: one round per kind with games, in
/// ladder order, each holding its bucket mapped game for game.
pub open spec fn region_rounds_match(
    rounds: Seq<Round>,
    games: Seq<HenrygdGame>,
    sid: u32,
) -> bool {
    let kinds = present_kinds(games, sid, 0);
    &&& rounds.len() == kinds.len()
    &&& forall|k: int|
        0 <= k < rounds.len() ==> {
            let round = #[trigger] rounds[k];
            &&& round.kind == kinds[k]
            &&& round.games.len() == bucket_games(games, sid, kinds[k]).len()
            &&& forall|j: int|
                0 <= j < round.games.len() ==> ncaa_game_matches(
                    #[trigger] round.games@[j],
                    bucket_games(games, sid, kinds[k])[j],
                )
        }
}

/// Collect and map the games of one (section, round) bucket.
fn collect_bucket(games: &Vec<HenrygdGame>, sid: u32, kind: RoundKind) -> (r: Vec<Game>)
    ensures
        r.len() == bucket_games(games@, sid, kind).len(),
        forall|j: int|
            0 <= j < r.len() ==> ncaa_game_matches(
                #[trigger] r@[j],
                bucket_games(games@, sid, kind)[j],
            ),
{
    let mut out: Vec<Game> = Vec::new();
    let mut i: usize = 0;
    while i < games.len()
        invariant
            i <= games.len(),
            out.len() == bucket_games(games@.take(i as int), sid, kind).len(),
            forall|j: int|
                0 <= j < out.len() ==> ncaa_game_matches(
                    #[trigger] out@[j],
                    bucket_games(games@.take(i as int), sid, kind)[j],
                ),
        decreases games.len() - i,
    {
        proof {
            assert(games@.take(i + 1).drop_last() =~= games@.take(i as int));
            assert(games@.take(i + 1).last() == games@[i as int]);
        }
        let ghost prev = bucket_games(games@.take(i as int), sid, kind);
        let g = &games[i];
        let round_number = g.bracket_position_id / 100;
        let g_kind = round_number_to_kind(round_number);
        if g.section_id == sid && g_kind == kind {
            out.push(map_ncaa_game(g));
            proof {
                assert(bucket_games(games@.take(i + 1), sid, kind) == prev.push(
                    games@[i as int],
                ));
            }
        } else {
            proof {
                assert(bucket_games(games@.take(i + 1), sid, kind) == prev);
            }
        }
        i += 1;
    }
    proof {
        assert(games@.take(games.len() as int) =~= games@);
    }
    out
}

/// Build the ordered round list of one section.
fn build_section_rounds(games: &Vec<HenrygdGame>, sid: u32) -> (r: Vec<Round>)
    ensures
        region_rounds_match(r@, games@, sid),
{
    let mut rounds: Vec<Round> = Vec::new();
    let mut rank: u32 = 0;
    while rank < 7
        invariant
            rank <= 7,
            present_kinds(games@, sid, 0) == rounds@.map_values(|r: Round| r.kind)
                + present_kinds(games@, sid, rank as int),
            forall|k: int|
                0 <= k < rounds.len() ==> {
                    let round = #[trigger] rounds@[k];
                    &&& round.games.len() == bucket_games(games@, sid, round.kind).len()
                    &&& forall|j: int|
                        0 <= j < round.games.len() ==> ncaa_game_matches(
                            #[trigger] round.games@[j],
                            bucket_games(games@, sid, round.kind)[j],
                        )
                },
        decreases 7 - rank,
    {
        let kind = round_number_to_kind(rank + 1);
        let bucket = collect_bucket(games, sid, kind);
        if bucket.len() > 0 {
            let ghost before = rounds@;
            rounds.push(Round { kind, games: bucket });
            proof {
                assert(rounds@.map_values(|r: Round| r.kind) =~= before.map_values(
                    |r: Round| r.kind,
                ).push(kind));
            }
        }
        rank += 1;
    }
    proof {
        let kinds = present_kinds(games@, sid, 0);
        assert(kinds =~= rounds@.map_values(|r: Round| r.kind));
        assert forall|k: int| 0 <= k < rounds@.len() implies (#[trigger] rounds@[k]).kind
            == kinds[k] by {
            assert(rounds@.map_values(|r: Round| r.kind)[k] == rounds@[k].kind);
        }
    }
    rounds
}

/// Insert a section id into an ordered id list, keeping it duplicate
/// free.
pub open spec fn insert_sorted(s: Seq<u32>, x: u32) -> Seq<u32>
    decreases s.len(),
{
    if s.len() == 0 {
        seq![x]
    } else if s.last() < x {
        s.push(x)
    } else if s.last() == x {
        s
    } else {
        insert_sorted(s.drop_last(), x).push(s.last())
    }
}

/// The distinct non-national section ids of the games, ascending.
pub open spec fn asc_sections(games: Seq<HenrygdGame>) -> Seq<u32>
    decreases games.len(),
{
    if games.len() == 0 {
        Seq::<u32>::empty()
    } else {
        let rest = asc_sections(games.drop_last());
        if games.last().section_id == NATIONAL_SECTION {
            rest
        } else {
            insert_sorted(rest, games.last().section_id)
        }
    }
}

/// Insert a section id in place, keeping the list ordered.
fn insert_sorted_exec(v: &mut Vec<u32>, x: u32)
    ensures
        final(v)@ == insert_sorted(old(v)@, x),
    decreases old(v).len(),
{
    if v.len() == 0 {
        v.push(x);
        return;
    }
    let last = v[v.len() - 1];
    if last < x {
        v.push(x);
    } else if last == x {
    } else {
        let popped = match v.pop() {
            Option::Some(p) => p,
            Option::None => {
                return;
            },
        };
        insert_sorted_exec(v, x);
        v.push(popped);
    }
}

/// Collect the distinct non-national section ids, ascending.
fn collect_sections(games: &Vec<HenrygdGame>) -> (r: Vec<u32>)
    ensures
        r@ == asc_sections(games@),
{
    let mut out: Vec<u32> = Vec::new();
    let mut i: usize = 0;
    proof {
        assert(games@.take(0) =~= Seq::<HenrygdGame>::empty());
    }
    while i < games.len()
        invariant
            i <= games.len(),
            out@ == asc_sections(games@.take(i as int)),
        decreases games.len() - i,
    {
        proof {
            assert(games@.take(i + 1).drop_last() =~= games@.take(i as int));
            assert(games@.take(i + 1).last() == games@[i as int]);
        }
        let sid = games[i].section_id;
        if sid != NATIONAL_SECTION {
            insert_sorted_exec(&mut out, sid);
        }
        i += 1;
    }
    proof {
        assert(games@.take(games.len() as int) =~= games@);
    }
    out
}

/// Index of the first listed section id whose display name is `name`.
pub open spec fn first_id_named(
    ids: Seq<u32>,
    regions: Seq<HenrygdRegion>,
    name: Seq<char>,
    from: int,
) -> Option<int>
    decreases ids.len() - from when 0 <= from <= ids.len()
{
    if from >= ids.len() {
        Option::None
    } else if section_name_spec(regions, ids[from]) == name {
        Option::Some(from)
    } else {
        first_id_named(ids, regions, name, from + 1)
    }
}

/// The singleton of a picked id, or nothing.
pub open spec fn pick_seq(o: Option<int>, ids: Seq<u32>) -> Seq<u32> {
    match o {
        Option::Some(k) => seq![ids[k]],
        Option::None => Seq::<u32>::empty(),
    }
}

/// The section ids rearranged into the canonical East, West, South,
/// Midwest order, keeping only the names that resolve.
pub open spec fn canonical_order(ids: Seq<u32>, regions: Seq<HenrygdRegion>) -> Seq<u32> {
    pick_seq(first_id_named(ids, regions, "East"@, 0), ids) + pick_seq(
        first_id_named(ids, regions, "West"@, 0),
        ids,
    ) + pick_seq(first_id_named(ids, regions, "South"@, 0), ids) + pick_seq(
        first_id_named(ids, regions, "Midwest"@, 0),
        ids,
    )
}

/// The section order the output uses: the canonical arrangement when it
/// covers every section, otherwise ascending section ids.
pub open spec fn ordered_sections(champ: HenrygdChampionship) -> Seq<u32> {
    let ids = asc_sections(champ.games@);
    let named = canonical_order(ids, champ.regions@);
    if named.len() == ids.len() {
        named
    } else {
        ids
    }
}

/// Some game belongs to the reserved national section.
pub open spec fn has_national(games: Seq<HenrygdGame>) -> bool {
    exists|i: int| 0 <= i < games.len() && (#[trigger] games[i]).section_id == NATIONAL_SECTION
}

/// Find the first listed section id whose display name is `name`.
fn find_id_named(ids: &Vec<u32>, regions: &Vec<HenrygdRegion>, name: &str) -> (r: Option<usize>)
    ensures
        match r {
            Option::Some(k) => k < ids.len() && first_id_named(ids@, regions@, name@, 0) == Some(
                k as int,
            ),
            Option::None => first_id_named(ids@, regions@, name@, 0) is None,
        },
{
    let mut k: usize = 0;
    while k < ids.len()
        invariant
            k <= ids.len(),
            first_id_named(ids@, regions@, name@, 0) == first_id_named(
                ids@,
                regions@,
                name@,
                k as int,
            ),
        decreases ids.len() - k,
    {
        let candidate = name_for_section(regions, ids[k]);
        if str_eq(candidate.as_str(), name) {
            return Some(k);
        }
        k += 1;
    }
    None
}

/// One output region of a regular section: named after the section, its
/// id the dashed lowercase name, its rounds the section's buckets.
pub open spec fn ncaa_region_matches(reg: Region, champ: HenrygdChampionship, sid: u32) -> bool {
    &&& reg.name@ == section_name_spec(champ.regions@, sid)
    &&& reg.id@ == dashed(lower_str(section_name_spec(champ.regions@, sid)))
    &&& region_rounds_match(reg.rounds@, champ.games@, sid)
}

/// The synthetic national region holding the reserved section's games.
pub open spec fn national_region_matches(reg: Region, champ: HenrygdChampionship) -> bool {
    &&& reg.name@ == "National"@
    &&& reg.id@ == "national"@
    &&& region_rounds_match(reg.rounds@, champ.games@, NATIONAL_SECTION)
}

/// The whole tree a primary-source championship maps to.
pub open spec fn ncaa_tournament_matches(r: Tournament, champ: HenrygdChampionship) -> bool {
    &&& r.name == champ.title
    &&& r.year == champ.year
    &&& r.id@ == "ncaa-"@ + dec_str(champ.year as nat)
    &&& r.regions.len() == ordered_sections(champ).len() + if has_national(champ.games@) {
        1int
    } else {
        0int
    }
    &&& forall|k: int|
        0 <= k < ordered_sections(champ).len() ==> ncaa_region_matches(
            #[trigger] r.regions@[k],
            champ,
            ordered_sections(champ)[k],
        )
    &&& has_national(champ.games@) ==> national_region_matches(
        r.regions@[r.regions.len() - 1],
        champ,
    )
}

/// Map a primary-source championship into the domain tree: games are
/// bucketed by section id and round, sections become regions in
/// canonical or ascending order, and the reserved section becomes the
/// national region, always last.
pub fn map_ncaa_championship(champ: HenrygdChampionship) -> (r: Tournament)
    ensures
        ncaa_tournament_matches(r, champ),
{
    let ids = collect_sections(&champ.games);

    let mut named: Vec<u32> = Vec::new();
    match find_id_named(&ids, &champ.regions, "East") {
        Option::Some(k) => named.push(ids[k]),
        Option::None => {},
    }
    match find_id_named(&ids, &champ.regions, "West") {
        Option::Some(k) => named.push(ids[k]),
        Option::None => {},
    }
    match find_id_named(&ids, &champ.regions, "South") {
        Option::Some(k) => named.push(ids[k]),
        Option::None => {},
    }
    match find_id_named(&ids, &champ.regions, "Midwest") {
        Option::Some(k) => named.push(ids[k]),
        Option::None => {},
    }
    proof {
        assert(named@ =~= canonical_order(ids@, champ.regions@));
    }
    let ordered = if named.len() == ids.len() {
        named
    } else {
        ids
    };
    proof {
        assert(ordered@ == ordered_sections(champ));
    }

    let mut regions: Vec<Region> = Vec::new();
    let mut k: usize = 0;
    while k < ordered.len()
        invariant
            k <= ordered.len(),
            ordered@ == ordered_sections(champ),
            regions.len() == k,
            forall|m: int|
                0 <= m < k ==> ncaa_region_matches(#[trigger] regions@[m], champ, ordered@[m]),
        decreases ordered.len() - k,
    {
        let sid = ordered[k];
        let name = name_for_section(&champ.regions, sid);
        let lowered = to_lowercase(name.as_str());
        let id = replace_spaces_with_dashes(lowered.as_str());
        let rounds = build_section_rounds(&champ.games, sid);
        regions.push(Region { id, name, rounds });
        k += 1;
    }

    let mut found_national = false;
    let mut i: usize = 0;
    while i < champ.games.len()
        invariant
            i <= champ.games.len(),
            found_national == exists|j: int|
                0 <= j < i && (#[trigger] champ.games@[j]).section_id == NATIONAL_SECTION,
        decreases champ.games.len() - i,
    {
        if champ.games[i].section_id == NATIONAL_SECTION {
            found_national = true;
        }
        i += 1;
    }
    if found_national {
        let rounds = build_section_rounds(&champ.games, NATIONAL_SECTION);
        regions.push(
            Region {
                id: String::from_str("national"),
                name: String::from_str("National"),
                rounds,
            },
        );
    }

    Tournament {
        id: String::from_str("ncaa-").concat(u64_to_string(champ.year as u64).as_str()),
        name: champ.title,
        year: champ.year,
        regions,
    }
}

/// Evaluate one primary-source response: usable exactly when its first
/// championship carries at least one game; the chain moves on otherwise.
pub fn primary_bracket(raw: HenrygdResponse) -> (r: Option<Tournament>)
    ensures
        r is Some <==> (raw.championships.len() > 0 && raw.championships@[0].games.len() > 0),
        r is Some ==> ncaa_tournament_matches(r->0, raw.championships@[0]),
{
    let mut championships = raw.championships;
    if championships.len() == 0 {
        return None;
    }
    let champ = championships.remove(0);
    if champ.games.len() == 0 {
        return None;
    }
    Some(map_ncaa_championship(champ))
}

} // verus!
