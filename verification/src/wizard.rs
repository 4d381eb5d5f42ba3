//! Pick wizard state: a flattened question list over the bracket
//! template, the user's selections as an association list, and the
//! export shape that is written to the picks file.

use vstd::prelude::*;

use crate::domain::{RoundKind, TeamSeed, Tournament};
use crate::text::{dec_str, u64_to_string};

verus! {

/// One question of the wizard: a game and its two pickable sides.
#[derive(Debug, Clone)]
pub struct WizardGame {
    pub game_id: String,
    pub round: RoundKind,
    pub top_label: String,
    pub bottom_label: String,
    pub top_team_id: Option<String>,
    pub bottom_team_id: Option<String>,
}

/// The saved-pick shape: a user, a year, and game-id to pick pairs.
#[derive(Debug, Clone)]
pub struct BracketPicks {
    pub user_id: String,
    pub year: u16,
    pub selections: Vec<(String, String)>,
}

/// The label of one slot: "({seed}) {name}", a dash for an unknown seed,
/// the placeholder or "TBD" for an unresolved team.
pub open spec fn seed_label(ts: TeamSeed) -> Seq<char> {
    let seed = if ts.seed > 0 {
        dec_str(ts.seed as nat)
    } else {
        "-"@
    };
    let team = match ts.team {
        Option::Some(t) => t.short_name@,
        Option::None => match ts.placeholder {
            Option::Some(p) => p@,
            Option::None => "TBD"@,
        },
    };
    "("@ + seed + ") "@ + team
}

/// Render the label of one slot.
pub fn format_seed_team(ts: &TeamSeed) -> (r: String)
    ensures
        r@ == seed_label(*ts),
{
    let seed = if ts.seed > 0 {
        u64_to_string(ts.seed as u64)
    } else {
        String::from_str("-")
    };
    let team = match &ts.team {
        Option::Some(t) => t.short_name.clone(),
        Option::None => match &ts.placeholder {
            Option::Some(p) => p.clone(),
            Option::None => String::from_str("TBD"),
        },
    };
    String::from_str("(").concat(seed.as_str()).concat(") ").concat(team.as_str())
}

/// Index of the first selection pair under a key, from `from`.
pub open spec fn first_key_index(sel: Seq<(String, String)>, key: Seq<char>, from: int) -> Option<
    int,
>
    decreases sel.len() - from when 0 <= from <= sel.len()
{
    if from >= sel.len() {
        Option::None
    } else if sel[from].0@ == key {
        Option::Some(from)
    } else {
        first_key_index(sel, key, from + 1)
    }
}

/// Some selection pair carries this key.
pub open spec fn has_key(sel: Seq<(String, String)>, key: Seq<char>) -> bool {
    exists|i: int| 0 <= i < sel.len() && (#[trigger] sel[i]).0@ == key
}

/// One store step of the association list: the first pair under the key
/// gets the new value, or a fresh pair is appended.
pub open spec fn assoc_set_shape(
    pre: Seq<(String, String)>,
    post: Seq<(String, String)>,
    key: Seq<char>,
    value: Seq<char>,
) -> bool {
    match first_key_index(pre, key, 0) {
        Option::Some(i) => {
            &&& post.len() == pre.len()
            &&& post[i].0 == pre[i].0
            &&& post[i].1@ == value
            &&& forall|j: int| 0 <= j < pre.len() && j != i ==> post[j] == #[trigger] pre[j]
        },
        Option::None => {
            &&& post.len() == pre.len() + 1
            &&& post.drop_last() == pre
            &&& post.last().0@ == key
            &&& post.last().1@ == value
        },
    }
}

/// Index of the first wizard game without a saved pick, from `from`.
pub open spec fn first_unpicked(
    games: Seq<WizardGame>,
    sel: Seq<(String, String)>,
    from: int,
) -> Option<int>
    decreases games.len() - from when 0 <= from <= games.len()
{
    if from >= games.len() {
        Option::None
    } else if !has_key(sel, games[from].game_id@) {
        Option::Some(from)
    } else {
        first_unpicked(games, sel, from + 1)
    }
}

/// The wizard's walk through the bracket template.
#[derive(Debug)]
pub struct PickWizardState {
    pub year: u16,
    pub games: Vec<WizardGame>,
    pub current_index: usize,
    pub selections: Vec<(String, String)>,
    pub completed: bool,
}

impl PickWizardState {
    /// A question list drawn from the tree: every entry names a game of
    /// the tree with its labels, and questions come round by round.
    pub open spec fn games_from(self, t: Tournament) -> bool {
        &&& forall|k: int|
            0 <= k < self.games.len() ==> {
                let w = #[trigger] self.games@[k];
                exists|ri: int, di: int, gi: int|
                    {
                        &&& t.pos_valid(ri, di, gi)
                        &&& {
                            let g = #[trigger] t.game_at(ri, di, gi);
                            &&& w.game_id == g.id
                            &&& w.round == t.regions@[ri].rounds@[di].kind
                            &&& w.top_label@ == seed_label(g.top)
                            &&& w.bottom_label@ == seed_label(g.bottom)
                            &&& w.top_team_id == (match g.top.team {
                                Option::Some(tm) => Option::Some(tm.id),
                                Option::None => Option::None,
                            })
                            &&& w.bottom_team_id == (match g.bottom.team {
                                Option::Some(tm) => Option::Some(tm.id),
                                Option::None => Option::None,
                            })
                        }
                    }
            }
        &&& forall|k1: int, k2: int|
            0 <= k1 < k2 < self.games.len() ==> (#[trigger] self.games@[k1]).round.rank() <= (
            #[trigger] self.games@[k2]).round.rank()
    }

    /// Rebuild the question list from the template tree, first four to
    /// championship, regional rounds region by region, national rounds
    /// from the national region; selections and progress reset.
    pub fn load_from_tournament_2025_template(&mut self, tournament: &Tournament)
        ensures
            final(self).year == 2025,
            final(self).current_index == 0,
            final(self).selections.len() == 0,
            !final(self).completed,
            final(self).games_from(*tournament),
    {
        self.year = 2025;
        self.games = Vec::new();
        self.current_index = 0;
        self.selections = Vec::new();
        self.completed = false;

        let mut rank: u32 = 0;
        while rank < 7
            invariant
                rank <= 7,
                self.year == 2025,
                self.current_index == 0,
                self.selections.len() == 0,
                !self.completed,
                self.games_from(*tournament),
                forall|k: int|
                    0 <= k < self.games.len() ==> (#[trigger] self.games@[k]).round.rank()
                        < rank,
            decreases 7 - rank,
        {
            let round = crate::normalize::round_number_to_kind(rank + 1);
            if round.is_final_four() {
                match crate::nav::find_region_named(&tournament.regions, "National") {
                    Option::Some(ri) => {
                        self.push_region_round(tournament, ri, round, rank);
                    },
                    Option::None => {},
                }
            } else {
                let mut ri: usize = 0;
                while ri < tournament.regions.len()
                    invariant
                        ri <= tournament.regions.len(),
                        rank < 7,
                        round.rank() == rank,
                        self.year == 2025,
                        self.current_index == 0,
                        self.selections.len() == 0,
                        !self.completed,
                        self.games_from(*tournament),
                        forall|k: int|
                            0 <= k < self.games.len() ==> (#[trigger] self.games@[k]).round.rank() <= rank,
                    decreases tournament.regions.len() - ri,
                {
                    let is_national = crate::text::str_eq(
                        tournament.regions[ri].name.as_str(),
                        "National",
                    );
                    if !is_national {
                        self.push_region_round(tournament, ri, round, rank);
                    }
                    ri += 1;
                }
            }
            rank += 1;
        }
    }

    /// Append every game of one (region, round) pair as a question.
    fn push_region_round(&mut self, tournament: &Tournament, ri: usize, round: RoundKind, rank: u32)
        requires
            ri < tournament.regions.len(),
            round.rank() == rank,
            rank < 7,
            old(self).games_from(*tournament),
            forall|k: int|
                0 <= k < old(self).games.len() ==> (#[trigger] old(self).games@[k]).round.rank()
                    <= rank,
        ensures
            final(self).games_from(*tournament),
            forall|k: int|
                0 <= k < final(self).games.len() ==> (#[trigger] final(self).games@[k]).round.rank() <= rank,
            final(self).year == old(self).year,
            final(self).current_index == old(self).current_index,
            final(self).selections == old(self).selections,
            final(self).completed == old(self).completed,
    {
        let region = &tournament.regions[ri];
        let mut di: usize = 0;
        while di < region.rounds.len()
            invariant
                ri < tournament.regions.len(),
                *region == tournament.regions@[ri as int],
                di <= region.rounds.len(),
                round.rank() == rank,
                self.games_from(*tournament),
                forall|k: int|
                    0 <= k < self.games.len() ==> (#[trigger] self.games@[k]).round.rank()
                        <= rank,
                self.year == old(self).year,
                self.current_index == old(self).current_index,
                self.selections == old(self).selections,
                self.completed == old(self).completed,
            decreases region.rounds.len() - di,
        {
            if region.rounds[di].kind == round {
                let games = &region.rounds[di].games;
                let mut gi: usize = 0;
                while gi < games.len()
                    invariant
                        ri < tournament.regions.len(),
                        di < region.rounds.len(),
                        *region == tournament.regions@[ri as int],
                        *games == region.rounds@[di as int].games,
                        region.rounds@[di as int].kind == round,
                        gi <= games.len(),
                        round.rank() == rank,
                        self.games_from(*tournament),
                        forall|k: int|
                            0 <= k < self.games.len() ==> (#[trigger] self.games@[k]).round.rank() <= rank,
                        self.year == old(self).year,
                        self.current_index == old(self).current_index,
                        self.selections == old(self).selections,
                        self.completed == old(self).completed,
                    decreases games.len() - gi,
                {
                    let g = &games[gi];
                    let w = WizardGame {
                        game_id: g.id.clone(),
                        round,
                        top_label: format_seed_team(&g.top),
                        bottom_label: format_seed_team(&g.bottom),
                        top_team_id: match &g.top.team {
                            Option::Some(t) => Some(t.id.clone()),
                            Option::None => None,
                        },
                        bottom_team_id: match &g.bottom.team {
                            Option::Some(t) => Some(t.id.clone()),
                            Option::None => None,
                        },
                    };
                    self.games.push(w);
                    proof {
                        assert(tournament.pos_valid(ri as int, di as int, gi as int));
                        assert(self.games@.last().game_id == tournament.game_at(
                            ri as int,
                            di as int,
                            gi as int,
                        ).id);
                    }
                    gi += 1;
                }
            }
            di += 1;
        }
    }

    /// The question under the cursor, if any.
    pub fn current_game(&self) -> (r: Option<&WizardGame>)
        ensures
            match r {
                Option::Some(w) => self.current_index < self.games.len() && *w == self.games@[self.current_index as int],
                Option::None => self.current_index >= self.games.len(),
            },
    {
        if self.current_index < self.games.len() {
            Some(&self.games[self.current_index])
        } else {
            None
        }
    }

    /// Store one pick and move on.
    fn select_side(&mut self, top: bool)
        ensures
            old(self).current_index >= old(self).games.len() ==> *final(self) == *old(self),
            old(self).current_index < old(self).games.len() ==> {
                let w = old(self).games@[old(self).current_index as int];
                let value = if top {
                    match w.top_team_id {
                        Option::Some(id) => id@,
                        Option::None => "top:"@ + w.game_id@,
                    }
                } else {
                    match w.bottom_team_id {
                        Option::Some(id) => id@,
                        Option::None => "bottom:"@ + w.game_id@,
                    }
                };
                &&& assoc_set_shape(
                    old(self).selections@,
                    final(self).selections@,
                    w.game_id@,
                    value,
                )
                &&& advanced_cursor(*old(self), *final(self))
                &&& final(self).games == old(self).games
                &&& final(self).year == old(self).year
            },
    {
        let w = match self.current_game() {
            Option::Some(w) => w,
            Option::None => {
                return ;
            },
        };
        let game_id = w.game_id.clone();
        let value = if top {
            match &w.top_team_id {
                Option::Some(id) => id.clone(),
                Option::None => String::from_str("top:").concat(w.game_id.as_str()),
            }
        } else {
            match &w.bottom_team_id {
                Option::Some(id) => id.clone(),
                Option::None => String::from_str("bottom:").concat(w.game_id.as_str()),
            }
        };
        let mut i: usize = 0;
        let mut placed = false;
        while !placed && i < self.selections.len()
            invariant
                i <= self.selections.len(),
                !placed ==> first_key_index(old(self).selections@, game_id@, 0)
                    == first_key_index(old(self).selections@, game_id@, i as int),
                !placed ==> *self == *old(self),
                game_id@ == old(self).games@[old(self).current_index as int].game_id@,
                placed ==> assoc_set_shape(
                    old(self).selections@,
                    self.selections@,
                    game_id@,
                    value@,
                ),
                placed ==> self.games == old(self).games && self.year == old(self).year
                    && self.current_index == old(self).current_index && self.completed == old(
                    self,
                ).completed,
                value@ == if top {
                    match old(self).games@[old(self).current_index as int].top_team_id {
                        Option::Some(id) => id@,
                        Option::None => "top:"@ + old(self).games@[old(
                            self,
                        ).current_index as int].game_id@,
                    }
                } else {
                    match old(self).games@[old(self).current_index as int].bottom_team_id {
                        Option::Some(id) => id@,
                        Option::None => "bottom:"@ + old(self).games@[old(
                            self,
                        ).current_index as int].game_id@,
                    }
                },
                old(self).current_index < old(self).games.len(),
            decreases self.selections.len() - i + if placed {
                0int
            } else {
                1int
            },
        {
            if crate::text::str_eq(self.selections[i].0.as_str(), game_id.as_str()) {
                let k0 = self.selections[i].0.clone();
                self.selections[i] = (k0, value.clone());
                placed = true;
            } else {
                i += 1;
            }
        }
        if !placed {
            self.selections.push((game_id, value));
            proof {
                assert(self.selections@.drop_last() =~= old(self).selections@);
            }
        }
        self.advance();
    }

    /// Pick the top side of the current question.
    pub fn select_top(&mut self)
        ensures
            old(self).current_index >= old(self).games.len() ==> *final(self) == *old(self),
            old(self).current_index < old(self).games.len() ==> {
                let w = old(self).games@[old(self).current_index as int];
                let value = match w.top_team_id {
                    Option::Some(id) => id@,
                    Option::None => "top:"@ + w.game_id@,
                };
                &&& assoc_set_shape(
                    old(self).selections@,
                    final(self).selections@,
                    w.game_id@,
                    value,
                )
                &&& advanced_cursor(*old(self), *final(self))
                &&& final(self).games == old(self).games
                &&& final(self).year == old(self).year
            },
    {
        self.select_side(true);
    }

    /// Pick the bottom side of the current question.
    pub fn select_bottom(&mut self)
        ensures
            old(self).current_index >= old(self).games.len() ==> *final(self) == *old(self),
            old(self).current_index < old(self).games.len() ==> {
                let w = old(self).games@[old(self).current_index as int];
                let value = match w.bottom_team_id {
                    Option::Some(id) => id@,
                    Option::None => "bottom:"@ + w.game_id@,
                };
                &&& assoc_set_shape(
                    old(self).selections@,
                    final(self).selections@,
                    w.game_id@,
                    value,
                )
                &&& advanced_cursor(*old(self), *final(self))
                &&& final(self).games == old(self).games
                &&& final(self).year == old(self).year
            },
    {
        self.select_side(false);
    }

    /// Step to the next question, or mark the walk complete at the end.
    pub fn advance(&mut self)
        ensures
            advanced_cursor(*old(self), *final(self)),
            final(self).games == old(self).games,
            final(self).selections == old(self).selections,
            final(self).year == old(self).year,
    {
        if self.games.len() > 0 && self.current_index < self.games.len() - 1 {
            self.current_index += 1;
        } else {
            self.completed = true;
        }
    }

    /// Step back one question and clear the completion mark.
    pub fn back(&mut self)
        ensures
            final(self).current_index == if old(self).current_index > 0 {
                old(self).current_index - 1
            } else {
                0int
            },
            !final(self).completed,
            final(self).games == old(self).games,
            final(self).selections == old(self).selections,
            final(self).year == old(self).year,
    {
        if self.current_index > 0 {
            self.current_index -= 1;
        }
        self.completed = false;
    }

    /// Export the picks for saving under a user id.
    pub fn to_export(&self, user_id: String) -> (r: BracketPicks)
        ensures
            r.user_id == user_id,
            r.year == self.year,
            r.selections@.len() == self.selections@.len(),
            forall|i: int|
                0 <= i < self.selections@.len() ==> #[trigger] r.selections@[i]
                    == self.selections@[i],
    {
        let mut selections: Vec<(String, String)> = Vec::new();
        let mut i: usize = 0;
        while i < self.selections.len()
            invariant
                i <= self.selections.len(),
                selections.len() == i,
                forall|k: int|
                    0 <= k < i ==> #[trigger] selections@[k] == self.selections@[k],
            decreases self.selections.len() - i,
        {
            let pair = &self.selections[i];
            selections.push((pair.0.clone(), pair.1.clone()));
            i += 1;
        }
        BracketPicks { user_id, year: self.year, selections }
    }

    /// Adopt saved selections: progress jumps to the first unanswered
    /// question, or the walk is marked complete.
    #[verifier::loop_isolation(false)]
    pub fn apply_saved_selections(&mut self, selections: Vec<(String, String)>)
        ensures
            final(self).selections@ == selections@,
            final(self).completed == (first_unpicked(
                final(self).games@,
                selections@,
                0,
            ) is None),
            final(self).current_index == (match first_unpicked(
                final(self).games@,
                selections@,
                0,
            ) {
                Option::Some(i) => i,
                Option::None => if final(self).games.len() > 0 {
                    final(self).games.len() - 1
                } else {
                    0int
                },
            }),
            final(self).games == old(self).games,
            final(self).year == old(self).year,
    {
        let ghost sel = selections@;
        self.selections = selections;
        let mut first_un: Option<usize> = None;
        let mut i: usize = 0;
        while i < self.games.len()
            invariant
                i <= self.games.len(),
                self.selections@ == sel,
                self.games == old(self).games,
                self.year == old(self).year,
                match first_un {
                    Option::Some(u) => u < i && first_unpicked(self.games@, sel, 0) == Some(
                        u as int,
                    ),
                    Option::None => first_unpicked(self.games@, sel, 0) == first_unpicked(
                        self.games@,
                        sel,
                        i as int,
                    ),
                },
            decreases self.games.len() - i,
        {
            if first_un.is_none() {
                let gid = self.games[i].game_id.clone();
                let mut j: usize = 0;
                let mut found = false;
                while !found && j < self.selections.len()
                    invariant
                        j <= self.selections.len(),
                        gid@ == self.games@[i as int].game_id@,
                        i < self.games.len(),
                        self.selections@ == sel,
                        !found ==> forall|k: int| 0 <= k < j ==> (#[trigger] sel[k]).0@ != gid@,
                        found ==> has_key(sel, gid@),
                    decreases self.selections.len() - j + if found {
                        0int
                    } else {
                        1int
                    },
                {
                    if crate::text::str_eq(self.selections[j].0.as_str(), gid.as_str()) {
                        proof {
                            assert((sel[j as int]).0@ == gid@);
                        }
                        found = true;
                    } else {
                        j += 1;
                    }
                }
                if !found {
                    proof {
                        assert(!has_key(sel, self.games@[i as int].game_id@));
                        assert(first_unpicked(self.games@, sel, i as int) == Some(i as int));
                    }
                    first_un = Some(i);
                }
            }
            i += 1;
        }
        match first_un {
            Option::Some(u) => {
                self.completed = false;
                self.current_index = u;
            },
            Option::None => {
                self.completed = true;
                self.current_index = if self.games.len() > 0 {
                    self.games.len() - 1
                } else {
                    0
                };
            },
        }
    }
}

/// How the cursor moves after a pick: one step forward, or the complete
/// mark at the last question.
pub open spec fn advanced_cursor(pre: PickWizardState, post: PickWizardState) -> bool {
    if pre.current_index + 1 < pre.games.len() {
        post.current_index == pre.current_index + 1 && post.completed == pre.completed
    } else {
        post.current_index == pre.current_index && post.completed
    }
}

} // verus!
