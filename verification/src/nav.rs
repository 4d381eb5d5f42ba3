//! Navigation controller: cursor state over the tournament tree, active
//! round auto-detection, and the clamped round/game/region moves.

use vstd::prelude::*;

use crate::domain::{merge_result, Game, GameStatus, Region, Round, RoundKind, Tournament};
use crate::text::str_eq;

verus! {

/// Index of the first region from `from` onward whose name is `name`.
pub open spec fn first_region_named(regions: Seq<Region>, name: Seq<char>, from: int) -> Option<
    int,
>
    decreases regions.len() - from when 0 <= from <= regions.len()
{
    if from >= regions.len() {
        Option::None
    } else if regions[from].name@ == name {
        Option::Some(from)
    } else {
        first_region_named(regions, name, from + 1)
    }
}

/// Index of the first round from `from` onward with the given kind.
pub open spec fn first_round_with_kind(rounds: Seq<Round>, kind: RoundKind, from: int) -> Option<
    int,
>
    decreases rounds.len() - from when 0 <= from <= rounds.len()
{
    if from >= rounds.len() {
        Option::None
    } else if rounds[from].kind == kind {
        Option::Some(from)
    } else {
        first_round_with_kind(rounds, kind, from + 1)
    }
}

/// Find the first region with the given name.
pub fn find_region_named(regions: &Vec<Region>, name: &str) -> (r: Option<usize>)
    ensures
        match r {
            Option::Some(i) => i < regions.len() && first_region_named(regions@, name@, 0) == Some(
                i as int,
            ),
            Option::None => first_region_named(regions@, name@, 0) is None,
        },
{
    let mut i: usize = 0;
    while i < regions.len()
        invariant
            i <= regions.len(),
            first_region_named(regions@, name@, 0) == first_region_named(
                regions@,
                name@,
                i as int,
            ),
        decreases regions.len() - i,
    {
        if str_eq(regions[i].name.as_str(), name) {
            return Some(i);
        }
        i += 1;
    }
    None
}

/// Find the first round with the given kind.
pub fn find_round_with_kind(rounds: &Vec<Round>, kind: RoundKind) -> (r: Option<usize>)
    ensures
        match r {
            Option::Some(i) => i < rounds.len() && first_round_with_kind(rounds@, kind, 0) == Some(
                i as int,
            ),
            Option::None => first_round_with_kind(rounds@, kind, 0) is None,
        },
{
    let mut i: usize = 0;
    while i < rounds.len()
        invariant
            i <= rounds.len(),
            first_round_with_kind(rounds@, kind, 0) == first_round_with_kind(
                rounds@,
                kind,
                i as int,
            ),
        decreases rounds.len() - i,
    {
        if rounds[i].kind == kind {
            return Some(i);
        }
        i += 1;
    }
    None
}

/// Some game of the given round kind anywhere in the tree has the given
/// status.
pub open spec fn round_has_status_spec(t: Tournament, kind: RoundKind, status: GameStatus) -> bool {
    exists|ri: int, di: int, gi: int|
        t.pos_valid(ri, di, gi) && t.regions@[ri].rounds@[di].kind == kind
            && #[trigger] t.game_at(ri, di, gi).status == status
}

/// Scan the whole tree for a game of this round kind in this status.
pub fn round_has_status(t: &Tournament, kind: RoundKind, status: GameStatus) -> (r: bool)
    ensures
        r == round_has_status_spec(*t, kind, status),
{
    let mut ri: usize = 0;
    while ri < t.regions.len()
        invariant
            forall|r: int, d: int, g: int|
                t.pos_valid(r, d, g) && r < ri && t.regions@[r].rounds@[d].kind == kind
                    ==> #[trigger] t.game_at(r, d, g).status != status,
        decreases t.regions.len() - ri,
    {
        let region = &t.regions[ri];
        let mut di: usize = 0;
        while di < region.rounds.len()
            invariant
                ri < t.regions.len(),
                *region == t.regions@[ri as int],
                forall|r: int, d: int, g: int|
                    t.pos_valid(r, d, g) && r < ri && t.regions@[r].rounds@[d].kind == kind
                        ==> #[trigger] t.game_at(r, d, g).status != status,
                forall|d: int, g: int|
                    t.pos_valid(ri as int, d, g) && d < di && t.regions@[ri as int].rounds@[d].kind
                        == kind ==> #[trigger] t.game_at(ri as int, d, g).status != status,
            decreases region.rounds.len() - di,
        {
            let round = &region.rounds[di];
            if round.kind == kind {
                let mut gi: usize = 0;
                while gi < round.games.len()
                    invariant
                        ri < t.regions.len(),
                        di < region.rounds.len(),
                        *region == t.regions@[ri as int],
                        *round == region.rounds@[di as int],
                        round.kind == kind,
                        forall|g: int|
                            t.pos_valid(ri as int, di as int, g) && g < gi ==> #[trigger] t.game_at(
                                ri as int,
                                di as int,
                                g,
                            ).status != status,
                    decreases round.games.len() - gi,
                {
                    if round.games[gi].status == status {
                        proof {
                            assert(t.pos_valid(ri as int, di as int, gi as int));
                            assert(t.game_at(ri as int, di as int, gi as int).status == status);
                        }
                        return true;
                    }
                    gi += 1;
                }
            }
            di += 1;
        }
        ri += 1;
    }
    false
}

/// The round the viewer should open on: the earliest round with a live
/// game; failing that, the latest round with a finished game; failing
/// that, the first main round.
pub open spec fn detect_active_round_spec(t: Tournament) -> RoundKind {
    if round_has_status_spec(t, RoundKind::FirstFour, GameStatus::InProgress) {
        RoundKind::FirstFour
    } else if round_has_status_spec(t, RoundKind::First, GameStatus::InProgress) {
        RoundKind::First
    } else if round_has_status_spec(t, RoundKind::Second, GameStatus::InProgress) {
        RoundKind::Second
    } else if round_has_status_spec(t, RoundKind::Sweet16, GameStatus::InProgress) {
        RoundKind::Sweet16
    } else if round_has_status_spec(t, RoundKind::Elite8, GameStatus::InProgress) {
        RoundKind::Elite8
    } else if round_has_status_spec(t, RoundKind::FinalFour, GameStatus::InProgress) {
        RoundKind::FinalFour
    } else if round_has_status_spec(t, RoundKind::Championship, GameStatus::InProgress) {
        RoundKind::Championship
    } else if round_has_status_spec(t, RoundKind::Championship, GameStatus::Final) {
        RoundKind::Championship
    } else if round_has_status_spec(t, RoundKind::FinalFour, GameStatus::Final) {
        RoundKind::FinalFour
    } else if round_has_status_spec(t, RoundKind::Elite8, GameStatus::Final) {
        RoundKind::Elite8
    } else if round_has_status_spec(t, RoundKind::Sweet16, GameStatus::Final) {
        RoundKind::Sweet16
    } else if round_has_status_spec(t, RoundKind::Second, GameStatus::Final) {
        RoundKind::Second
    } else if round_has_status_spec(t, RoundKind::First, GameStatus::Final) {
        RoundKind::First
    } else if round_has_status_spec(t, RoundKind::FirstFour, GameStatus::Final) {
        RoundKind::FirstFour
    } else {
        RoundKind::First
    }
}

/// Auto-detect the active round of a freshly loaded or patched tree.
pub fn detect_active_round(t: &Tournament) -> (r: RoundKind)
    ensures
        r == detect_active_round_spec(*t),
{
    if round_has_status(t, RoundKind::FirstFour, GameStatus::InProgress) {
        return RoundKind::FirstFour;
    }
    if round_has_status(t, RoundKind::First, GameStatus::InProgress) {
        return RoundKind::First;
    }
    if round_has_status(t, RoundKind::Second, GameStatus::InProgress) {
        return RoundKind::Second;
    }
    if round_has_status(t, RoundKind::Sweet16, GameStatus::InProgress) {
        return RoundKind::Sweet16;
    }
    if round_has_status(t, RoundKind::Elite8, GameStatus::InProgress) {
        return RoundKind::Elite8;
    }
    if round_has_status(t, RoundKind::FinalFour, GameStatus::InProgress) {
        return RoundKind::FinalFour;
    }
    if round_has_status(t, RoundKind::Championship, GameStatus::InProgress) {
        return RoundKind::Championship;
    }
    if round_has_status(t, RoundKind::Championship, GameStatus::Final) {
        return RoundKind::Championship;
    }
    if round_has_status(t, RoundKind::FinalFour, GameStatus::Final) {
        return RoundKind::FinalFour;
    }
    if round_has_status(t, RoundKind::Elite8, GameStatus::Final) {
        return RoundKind::Elite8;
    }
    if round_has_status(t, RoundKind::Sweet16, GameStatus::Final) {
        return RoundKind::Sweet16;
    }
    if round_has_status(t, RoundKind::Second, GameStatus::Final) {
        return RoundKind::Second;
    }
    if round_has_status(t, RoundKind::First, GameStatus::Final) {
        return RoundKind::First;
    }
    if round_has_status(t, RoundKind::FirstFour, GameStatus::Final) {
        return RoundKind::FirstFour;
    }
    RoundKind::First
}

/// Cursor state over the tournament tree.
#[derive(Debug, Default)]
pub struct BracketState {
    pub tournament: Option<Tournament>,
    /// Auto-detected live round; drives the initial view.
    pub current_round: RoundKind,
    /// The round the user has navigated to.
    pub view_round: RoundKind,
    /// Selected region index; ignored at the national rounds.
    pub selected_region: usize,
    /// Selected game index within the current region and round.
    pub selected_game: usize,
    /// Vertical scroll offset when games exceed the terminal height.
    pub scroll_offset: u16,
}

impl BracketState {
    /// The region the cursor reads from: the "National" region at the
    /// national rounds, else the selected one.
    pub open spec fn viewed_region_index(self) -> Option<int> {
        match self.tournament {
            Option::None => Option::None,
            Option::Some(t) => if self.view_round.is_final_four_spec() {
                first_region_named(t.regions@, "National"@, 0)
            } else if self.selected_region < t.regions.len() {
                Option::Some(self.selected_region as int)
            } else {
                Option::None
            },
        }
    }

    /// How many games the current (region, round) pair holds.
    pub open spec fn games_in_view_spec(self) -> int {
        match self.viewed_region_index() {
            Option::None => 0,
            Option::Some(ri) => {
                let rounds = self.tournament->0.regions@[ri].rounds;
                match first_round_with_kind(rounds@, self.view_round, 0) {
                    Option::None => 0,
                    Option::Some(di) => rounds@[di].games.len() as int,
                }
            },
        }
    }

    /// The id of the game under the cursor, if every link resolves.
    pub open spec fn selected_game_id_spec(self) -> Option<Seq<char>> {
        match self.viewed_region_index() {
            Option::None => Option::None,
            Option::Some(ri) => {
                let rounds = self.tournament->0.regions@[ri].rounds;
                match first_round_with_kind(rounds@, self.view_round, 0) {
                    Option::None => Option::None,
                    Option::Some(di) => if self.selected_game < rounds@[di].games.len() {
                        Option::Some(rounds@[di].games@[self.selected_game as int].id@)
                    } else {
                        Option::None
                    },
                }
            },
        }
    }

    /// Store a freshly loaded tournament: detect the active round, open
    /// the view there, and reset the cursor.
    pub fn load(&mut self, tournament: Tournament)
        ensures
            final(self).tournament == Some(tournament),
            final(self).current_round == detect_active_round_spec(tournament),
            final(self).view_round == final(self).current_round,
            final(self).selected_region == 0,
            final(self).selected_game == 0,
            final(self).scroll_offset == 0,
    {
        self.current_round = detect_active_round(&tournament);
        self.view_round = self.current_round;
        self.selected_game = 0;
        self.selected_region = 0;
        self.scroll_offset = 0;
        self.tournament = Some(tournament);
    }

    /// Merge partial game updates from a score refresh, then re-detect
    /// the active round, leaving the cursor untouched. The update
    /// equations hold under the tree invariant that game ids are unique.
    pub fn merge_updates(&mut self, games: Vec<Game>)
        ensures
            old(self).tournament is None ==> *final(self) == *old(self),
            old(self).tournament is Some ==> {
                &&& final(self).tournament is Some
                &&& (old(self).tournament->0.game_ids_unique() ==> merge_result(
                    old(self).tournament->0,
                    games@,
                    final(self).tournament->0,
                ))
                &&& final(self).current_round == detect_active_round_spec(
                    final(self).tournament->0,
                )
                &&& final(self).view_round == old(self).view_round
                &&& final(self).selected_region == old(self).selected_region
                &&& final(self).selected_game == old(self).selected_game
                &&& final(self).scroll_offset == old(self).scroll_offset
            },
    {
        match &mut self.tournament {
            Option::Some(t) => {
                t.merge_updates(games);
                self.current_round = detect_active_round(t);
            },
            Option::None => {},
        }
    }

    /// The state after one round-advance: one round later with the game
    /// cursor reset, or unchanged at the title-game boundary.
    pub open spec fn round_advanced(self) -> BracketState {
        match self.view_round.next_spec() {
            Option::None => self,
            Option::Some(n) => BracketState {
                view_round: n,
                selected_game: 0,
                scroll_offset: 0,
                ..self
            },
        }
    }

    /// The state after one round-retreat: one round earlier with the game
    /// cursor reset, or unchanged at the play-in boundary.
    pub open spec fn round_retreated(self) -> BracketState {
        match self.view_round.prev_spec() {
            Option::None => self,
            Option::Some(p) => BracketState {
                view_round: p,
                selected_game: 0,
                scroll_offset: 0,
                ..self
            },
        }
    }

    /// Move the view one round later; a no-op at the title game.
    pub fn navigate_round_next(&mut self)
        ensures
            *final(self) == old(self).round_advanced(),
    {
        match self.view_round.next() {
            Option::Some(next) => {
                self.view_round = next;
                self.selected_game = 0;
                self.scroll_offset = 0;
            },
            Option::None => {},
        }
    }

    /// Move the view one round earlier; a no-op at the play-in round.
    pub fn navigate_round_prev(&mut self)
        ensures
            *final(self) == old(self).round_retreated(),
    {
        match self.view_round.prev() {
            Option::Some(prev) => {
                self.view_round = prev;
                self.selected_game = 0;
                self.scroll_offset = 0;
            },
            Option::None => {},
        }
    }

    /// Select the next game down, clamped to the last game of the view.
    pub fn navigate_game_down(&mut self)
        ensures
            final(self).selected_game == if old(self).selected_game + 1 < old(
                self,
            ).games_in_view_spec() {
                old(self).selected_game + 1
            } else {
                old(self).selected_game as int
            },
            final(self).tournament == old(self).tournament,
            final(self).current_round == old(self).current_round,
            final(self).view_round == old(self).view_round,
            final(self).selected_region == old(self).selected_region,
            final(self).scroll_offset == old(self).scroll_offset,
    {
        let count = self.games_in_view();
        let max = if count > 0 {
            count - 1
        } else {
            0
        };
        if self.selected_game < max {
            self.selected_game += 1;
        }
    }

    /// Select the previous game up, clamped at the first game.
    pub fn navigate_game_up(&mut self)
        ensures
            final(self).selected_game == if old(self).selected_game > 0 {
                old(self).selected_game - 1
            } else {
                0int
            },
            final(self).tournament == old(self).tournament,
            final(self).current_round == old(self).current_round,
            final(self).view_round == old(self).view_round,
            final(self).selected_region == old(self).selected_region,
            final(self).scroll_offset == old(self).scroll_offset,
    {
        if self.selected_game > 0 {
            self.selected_game -= 1;
        }
    }

    /// How many non-national regions region cycling walks over: one less
    /// than the region count when a tree is loaded, else the four of a
    /// standard bracket.
    pub open spec fn region_cycle_count(self) -> int {
        let count = match self.tournament {
            Option::Some(t) => if t.regions.len() > 0 {
                t.regions.len() - 1
            } else {
                0int
            },
            Option::None => 4,
        };
        if count > 0 {
            count
        } else {
            1
        }
    }

    /// Advance the selected region cyclically; a no-op while the view is
    /// on a national round.
    pub fn cycle_region(&mut self)
        requires
            old(self).selected_region < usize::MAX,
        ensures
            old(self).view_round.is_final_four_spec() ==> *final(self) == *old(self),
            !old(self).view_round.is_final_four_spec() ==> {
                &&& final(self).selected_region == (old(self).selected_region + 1) % old(
                    self,
                ).region_cycle_count()
                &&& final(self).selected_game == 0
                &&& final(self).scroll_offset == 0
                &&& final(self).tournament == old(self).tournament
                &&& final(self).current_round == old(self).current_round
                &&& final(self).view_round == old(self).view_round
            },
    {
        if !self.view_round.is_final_four() {
            let count: usize = match &self.tournament {
                Option::Some(t) => {
                    if t.regions.len() > 0 {
                        t.regions.len() - 1
                    } else {
                        0
                    }
                },
                Option::None => 4,
            };
            let modulus = if count > 0 {
                count
            } else {
                1
            };
            self.selected_region = (self.selected_region + 1) % modulus;
            self.selected_game = 0;
            self.scroll_offset = 0;
        }
    }

    /// The id of the game under the cursor, if any.
    pub fn selected_game_id(&self) -> (r: Option<String>)
        ensures
            match r {
                Option::Some(id) => self.selected_game_id_spec() == Some(id@),
                Option::None => self.selected_game_id_spec() is None,
            },
    {
        let t = match &self.tournament {
            Option::Some(t) => t,
            Option::None => {
                return None;
            },
        };
        let ri = if self.view_round.is_final_four() {
            match find_region_named(&t.regions, "National") {
                Option::Some(i) => i,
                Option::None => {
                    return None;
                },
            }
        } else {
            if self.selected_region < t.regions.len() {
                self.selected_region
            } else {
                return None;
            }
        };
        let rounds = &t.regions[ri].rounds;
        let di = match find_round_with_kind(rounds, self.view_round) {
            Option::Some(i) => i,
            Option::None => {
                return None;
            },
        };
        let games = &rounds[di].games;
        if self.selected_game < games.len() {
            Some(games[self.selected_game].id.clone())
        } else {
            None
        }
    }

    /// How many games the current (region, round) pair holds.
    fn games_in_view(&self) -> (r: usize)
        ensures
            r == self.games_in_view_spec(),
    {
        let t = match &self.tournament {
            Option::Some(t) => t,
            Option::None => {
                return 0;
            },
        };
        let ri = if self.view_round.is_final_four() {
            match find_region_named(&t.regions, "National") {
                Option::Some(i) => i,
                Option::None => {
                    return 0;
                },
            }
        } else {
            if self.selected_region < t.regions.len() {
                self.selected_region
            } else {
                return 0;
            }
        };
        let rounds = &t.regions[ri].rounds;
        match find_round_with_kind(rounds, self.view_round) {
            Option::Some(di) => rounds[di].games.len(),
            Option::None => 0,
        }
    }
}

/// Round advance is idempotent at the title-game boundary: once the view
/// stands on the championship, advancing any number of times changes
/// nothing.
pub proof fn lemma_round_advance_idempotent_at_boundary(s: BracketState)
    requires
        s.view_round == RoundKind::Championship,
    ensures
        s.round_advanced() == s,
        s.round_advanced().round_advanced() == s.round_advanced(),
{
}

/// Round retreat is idempotent at the play-in boundary: once the view
/// stands on the first four, retreating any number of times changes
/// nothing.
pub proof fn lemma_round_retreat_idempotent_at_boundary(s: BracketState)
    requires
        s.view_round == RoundKind::FirstFour,
    ensures
        s.round_retreated() == s,
        s.round_retreated().round_retreated() == s.round_retreated(),
{
}

} // verus!
