//! The canonical tournament tree: Tournament -> Region -> Round -> Game ->
//! TeamSeed, plus the totally ordered round ladder.

use vstd::prelude::*;

use crate::text::str_eq;

verus! {

/// The stage of a single-elimination tournament, ordered from the play-in
/// games to the title game.
#[derive(Debug, Clone, Copy, Default, PartialEq, Eq, Structural)]
pub enum RoundKind {
    #[default]
    FirstFour,
    First,
    Second,
    Sweet16,
    Elite8,
    FinalFour,
    Championship,
}

impl RoundKind {
    /// Position of this round in the fixed total order.
    pub open spec fn rank(self) -> int {
        match self {
            RoundKind::FirstFour => 0,
            RoundKind::First => 1,
            RoundKind::Second => 2,
            RoundKind::Sweet16 => 3,
            RoundKind::Elite8 => 4,
            RoundKind::FinalFour => 5,
            RoundKind::Championship => 6,
        }
    }

    /// The round one step earlier in the ladder, if any.
    pub open spec fn prev_spec(self) -> Option<RoundKind> {
        match self {
            RoundKind::FirstFour => None,
            RoundKind::First => Some(RoundKind::FirstFour),
            RoundKind::Second => Some(RoundKind::First),
            RoundKind::Sweet16 => Some(RoundKind::Second),
            RoundKind::Elite8 => Some(RoundKind::Sweet16),
            RoundKind::FinalFour => Some(RoundKind::Elite8),
            RoundKind::Championship => Some(RoundKind::FinalFour),
        }
    }

    /// The round one step later in the ladder, if any.
    pub open spec fn next_spec(self) -> Option<RoundKind> {
        match self {
            RoundKind::FirstFour => Some(RoundKind::First),
            RoundKind::First => Some(RoundKind::Second),
            RoundKind::Second => Some(RoundKind::Sweet16),
            RoundKind::Sweet16 => Some(RoundKind::Elite8),
            RoundKind::Elite8 => Some(RoundKind::FinalFour),
            RoundKind::FinalFour => Some(RoundKind::Championship),
            RoundKind::Championship => None,
        }
    }

    /// Display label for this round.
    pub fn label(&self) -> (r: &'static str)
        ensures
            r@ == self.label_spec(),
    {
        match self {
            RoundKind::FirstFour => "First Four",
            RoundKind::First => "1st Round",
            RoundKind::Second => "2nd Round",
            RoundKind::Sweet16 => "Sweet 16",
            RoundKind::Elite8 => "Elite Eight",
            RoundKind::FinalFour => "Final Four",
            RoundKind::Championship => "Championship",
        }
    }

    /// The label each round displays under.
    pub open spec fn label_spec(self) -> Seq<char> {
        match self {
            RoundKind::FirstFour => "First Four"@,
            RoundKind::First => "1st Round"@,
            RoundKind::Second => "2nd Round"@,
            RoundKind::Sweet16 => "Sweet 16"@,
            RoundKind::Elite8 => "Elite Eight"@,
            RoundKind::FinalFour => "Final Four"@,
            RoundKind::Championship => "Championship"@,
        }
    }

    /// True for the two rounds played at the national site.
    pub open spec fn is_final_four_spec(self) -> bool {
        self == RoundKind::FinalFour || self == RoundKind::Championship
    }

    /// True for the two rounds played at the national site.
    pub fn is_final_four(&self) -> (r: bool)
        ensures
            r == self.is_final_four_spec(),
    {
        match self {
            RoundKind::FinalFour | RoundKind::Championship => true,
            _ => false,
        }
    }

    /// Step one round earlier; clamped at the play-in round.
    pub fn prev(self) -> (r: Option<Self>)
        ensures
            r == self.prev_spec(),
            r is Some ==> r->0.rank() == self.rank() - 1,
    {
        match self {
            RoundKind::FirstFour => None,
            RoundKind::First => Some(RoundKind::FirstFour),
            RoundKind::Second => Some(RoundKind::First),
            RoundKind::Sweet16 => Some(RoundKind::Second),
            RoundKind::Elite8 => Some(RoundKind::Sweet16),
            RoundKind::FinalFour => Some(RoundKind::Elite8),
            RoundKind::Championship => Some(RoundKind::FinalFour),
        }
    }

    /// Step one round later; clamped at the title game.
    pub fn next(self) -> (r: Option<Self>)
        ensures
            r == self.next_spec(),
            r is Some ==> r->0.rank() == self.rank() + 1,
    {
        match self {
            RoundKind::FirstFour => Some(RoundKind::First),
            RoundKind::First => Some(RoundKind::Second),
            RoundKind::Second => Some(RoundKind::Sweet16),
            RoundKind::Sweet16 => Some(RoundKind::Elite8),
            RoundKind::Elite8 => Some(RoundKind::FinalFour),
            RoundKind::FinalFour => Some(RoundKind::Championship),
            RoundKind::Championship => None,
        }
    }

    /// Play-in games sit one row below the clean power-of-two alignment;
    /// this is the downward nudge applied when drawing them.
    pub fn vertical_offset(&self) -> (r: u16)
        ensures
            r == if self is FirstFour { 1u16 } else { 0u16 },
    {
        match self {
            RoundKind::FirstFour => 1,
            _ => 0,
        }
    }
}

/// Coarse state of one game.
#[derive(Debug, Clone, Copy, Default, PartialEq, Eq, Structural)]
pub enum GameStatus {
    #[default]
    Scheduled,
    InProgress,
    Final,
    Postponed,
}

/// One competing school.
#[derive(Debug, Clone, Default)]
pub struct Team {
    pub id: String,
    pub name: String,
    pub short_name: String,
    pub abbrev: String,
    pub color: Option<String>,
}

/// One slot of a game: a seed number plus either a resolved team or a
/// placeholder label ("TBA", "Winner of Game #42").
#[derive(Debug, Clone, Default)]
pub struct TeamSeed {
    pub seed: u8,
    pub team: Option<Team>,
    pub placeholder: Option<String>,
}

/// One game of the bracket. `start_time` holds seconds since the Unix
/// epoch; `score` is `(top, bottom)`.
#[derive(Debug, Clone, Default)]
pub struct Game {
    pub id: String,
    pub espn_id: Option<String>,
    pub top: TeamSeed,
    pub bottom: TeamSeed,
    pub status: GameStatus,
    pub score: Option<(u16, u16)>,
    pub winner_id: Option<String>,
    pub period: Option<u8>,
    pub clock: Option<String>,
    pub start_time: Option<i64>,
    pub location: Option<String>,
}

impl Game {
    /// The winning slot's team: the top team when its id matches the
    /// winner id, otherwise whatever the bottom slot holds.
    pub open spec fn winner_spec(self) -> Option<Team> {
        match self.winner_id {
            Option::None => Option::None,
            Option::Some(wid) => if self.top.team is Some && self.top.team->0.id@ == wid@ {
                self.top.team
            } else {
                self.bottom.team
            },
        }
    }

    /// True while the game is being played.
    pub fn is_live(&self) -> (r: bool)
        ensures
            r == (self.status == GameStatus::InProgress),
    {
        self.status == GameStatus::InProgress
    }

    /// Resolve the winner from the stored winner id.
    pub fn winner(&self) -> (r: Option<&Team>)
        ensures
            match r {
                Option::None => self.winner_spec() is None,
                Option::Some(t) => self.winner_spec() == Some(*t),
            },
    {
        let wid = match &self.winner_id {
            Option::None => {
                return None;
            },
            Option::Some(w) => w,
        };
        match &self.top.team {
            Option::Some(t) if str_eq(t.id.as_str(), wid.as_str()) => Some(t),
            _ => self.bottom.team.as_ref(),
        }
    }
}

/// All games of one round.
#[derive(Debug, Clone, Default)]
pub struct Round {
    pub kind: RoundKind,
    pub games: Vec<Game>,
}

/// One of the four regional brackets, or the synthetic "National" region
/// holding the semifinals and the title game.
#[derive(Debug, Clone, Default)]
pub struct Region {
    pub id: String,
    pub name: String,
    pub rounds: Vec<Round>,
}

/// The whole tournament tree.
#[derive(Debug, Clone, Default)]
pub struct Tournament {
    pub id: String,
    pub name: String,
    pub year: u16,
    pub regions: Vec<Region>,
}

/// Detailed game data (play-by-play and box score) fetched on demand.
#[derive(Debug, Clone, Default)]
pub struct GameDetail {
    pub game_id: String,
    pub plays: Vec<Play>,
    pub home_box: BoxScore,
    pub away_box: BoxScore,
}

/// One play-by-play entry.
#[derive(Debug, Clone, Default)]
pub struct Play {
    pub period: u8,
    pub clock: String,
    pub description: String,
    pub home_score: u16,
    pub away_score: u16,
}

/// One team's box score.
#[derive(Debug, Clone, Default)]
pub struct BoxScore {
    pub team: Option<Team>,
    pub players: Vec<PlayerLine>,
    pub totals: PlayerLine,
}

/// One player's stat line.
#[derive(Debug, Clone, Default)]
pub struct PlayerLine {
    pub name: String,
    pub points: u16,
    pub rebounds: u16,
    pub assists: u16,
    pub minutes: String,
    pub fg: String,
    pub fg3: String,
}

/// The game a partial update leaves at a slot whose original occupant was
/// `g`: the last update carrying `g`'s id, or `g` itself if none does.
pub open spec fn merge_one(g: Game, updates: Seq<Game>) -> Game
    decreases updates.len(),
{
    if updates.len() == 0 {
        g
    } else if updates.last().id@ == g.id@ {
        updates.last()
    } else {
        merge_one(g, updates.drop_last())
    }
}

/// Merging never changes which id a slot holds.
pub proof fn lemma_merge_one_id(g: Game, updates: Seq<Game>)
    ensures
        merge_one(g, updates).id@ == g.id@,
    decreases updates.len(),
{
    if updates.len() > 0 && !(updates.last().id@ == g.id@) {
        lemma_merge_one_id(g, updates.drop_last());
    }
}

/// How a tree looks after an id-keyed patch: structure and labels are
/// untouched, and every game slot holds the last update with its id, or
/// its old value when the batch carries none.
pub open spec fn merge_result(t0: Tournament, updates: Seq<Game>, t1: Tournament) -> bool {
    &&& t1.id == t0.id
    &&& t1.name == t0.name
    &&& t1.year == t0.year
    &&& t1.regions.len() == t0.regions.len()
    &&& forall|ri: int|
        0 <= ri < t0.regions.len() ==> {
            let r1 = #[trigger] t1.regions@[ri];
            let r0 = t0.regions@[ri];
            r1.id == r0.id && r1.name == r0.name && r1.rounds.len() == r0.rounds.len()
        }
    &&& forall|ri: int, di: int|
        0 <= ri < t0.regions.len() && 0 <= di < t0.regions@[ri].rounds.len() ==> {
            let d1 = #[trigger] t1.regions@[ri].rounds@[di];
            let d0 = t0.regions@[ri].rounds@[di];
            d1.kind == d0.kind && d1.games.len() == d0.games.len()
        }
    &&& forall|ri: int, di: int, gi: int|
        t0.pos_valid(ri, di, gi) ==> #[trigger] t1.game_at(ri, di, gi) == merge_one(
            t0.game_at(ri, di, gi),
            updates,
        )
}

/// `t1` is `t0` with exactly the game at one address replaced.
pub open spec fn patched_at(
    t0: Tournament,
    t1: Tournament,
    ri: int,
    di: int,
    gi: int,
    g: Game,
) -> bool {
    &&& t1.id == t0.id
    &&& t1.name == t0.name
    &&& t1.year == t0.year
    &&& t1.regions.len() == t0.regions.len()
    &&& forall|r2: int|
        0 <= r2 < t0.regions.len() ==> {
            let reg1 = #[trigger] t1.regions@[r2];
            let reg0 = t0.regions@[r2];
            reg1.id == reg0.id && reg1.name == reg0.name && reg1.rounds.len() == reg0.rounds.len()
        }
    &&& forall|r2: int, d2: int|
        0 <= r2 < t0.regions.len() && 0 <= d2 < t0.regions@[r2].rounds.len() ==> {
            let rd1 = #[trigger] t1.regions@[r2].rounds@[d2];
            let rd0 = t0.regions@[r2].rounds@[d2];
            rd1.kind == rd0.kind && rd1.games.len() == rd0.games.len()
        }
    &&& forall|r2: int, d2: int, g2: int|
        t0.pos_valid(r2, d2, g2) && !(r2 == ri && d2 == di && g2 == gi)
            ==> #[trigger] t1.game_at(r2, d2, g2) == t0.game_at(r2, d2, g2)
    &&& t1.game_at(ri, di, gi) == g
}

impl Tournament {
    /// `(ri, di, gi)` addresses a game of this tree.
    pub open spec fn pos_valid(self, ri: int, di: int, gi: int) -> bool {
        &&& 0 <= ri < self.regions.len()
        &&& 0 <= di < self.regions@[ri].rounds.len()
        &&& 0 <= gi < self.regions@[ri].rounds@[di].games.len()
    }

    /// The game at an address.
    pub open spec fn game_at(self, ri: int, di: int, gi: int) -> Game {
        self.regions@[ri].rounds@[di].games@[gi]
    }

    /// Every game id occurs at exactly one address.
    pub open spec fn game_ids_unique(self) -> bool {
        forall|r1: int, d1: int, g1: int, r2: int, d2: int, g2: int|
            self.pos_valid(r1, d1, g1) && self.pos_valid(r2, d2, g2) && #[trigger] self.game_at(
                r1,
                d1,
                g1,
            ).id@ == #[trigger] self.game_at(r2, d2, g2).id@ ==> r1 == r2 && d1 == d2 && g1 == g2
    }

    /// Address of a game with the given id, if the tree holds one.
    pub fn find_game_pos(&self, game_id: &str) -> (r: Option<(usize, usize, usize)>)
        ensures
            match r {
                Option::Some(p) => self.pos_valid(p.0 as int, p.1 as int, p.2 as int)
                    && self.game_at(p.0 as int, p.1 as int, p.2 as int).id@ == game_id@,
                Option::None => forall|ri: int, di: int, gi: int|
                    self.pos_valid(ri, di, gi) ==> #[trigger] self.game_at(ri, di, gi).id@
                        != game_id@,
            },
    {
        let mut ri: usize = 0;
        while ri < self.regions.len()
            invariant
                forall|r: int, d: int, g: int|
                    self.pos_valid(r, d, g) && r < ri ==> #[trigger] self.game_at(r, d, g).id@
                        != game_id@,
            decreases self.regions.len() - ri,
        {
            let region = &self.regions[ri];
            let mut di: usize = 0;
            while di < region.rounds.len()
                invariant
                    ri < self.regions.len(),
                    *region == self.regions@[ri as int],
                    forall|r: int, d: int, g: int|
                        self.pos_valid(r, d, g) && r < ri ==> #[trigger] self.game_at(r, d, g).id@
                            != game_id@,
                    forall|d: int, g: int|
                        self.pos_valid(ri as int, d, g) && d < di ==> #[trigger] self.game_at(
                            ri as int,
                            d,
                            g,
                        ).id@ != game_id@,
                decreases region.rounds.len() - di,
            {
                let round = &region.rounds[di];
                let mut gi: usize = 0;
                while gi < round.games.len()
                    invariant
                        ri < self.regions.len(),
                        di < region.rounds.len(),
                        *region == self.regions@[ri as int],
                        *round == region.rounds@[di as int],
                        forall|r: int, d: int, g: int|
                            self.pos_valid(r, d, g) && r < ri ==> #[trigger] self.game_at(
                                r,
                                d,
                                g,
                            ).id@ != game_id@,
                        forall|d: int, g: int|
                            self.pos_valid(ri as int, d, g) && d < di ==> #[trigger] self.game_at(
                                ri as int,
                                d,
                                g,
                            ).id@ != game_id@,
                        forall|g: int|
                            self.pos_valid(ri as int, di as int, g) && g < gi
                                ==> #[trigger] self.game_at(ri as int, di as int, g).id@
                                != game_id@,
                    decreases round.games.len() - gi,
                {
                    if str_eq(round.games[gi].id.as_str(), game_id) {
                        return Some((ri, di, gi));
                    }
                    gi += 1;
                }
                di += 1;
            }
            ri += 1;
        }
        None
    }

    /// Find the game holding an id, for an in-place patch.
    pub fn find_game_mut(&mut self, game_id: &str) -> (r: Option<&mut Game>)
        ensures
            match r {
                Option::None => *final(self) == *old(self) && (forall|ri: int, di: int, gi: int|
                    old(self).pos_valid(ri, di, gi) ==> #[trigger] old(self).game_at(
                        ri,
                        di,
                        gi,
                    ).id@ != game_id@),
                Option::Some(g) => exists|ri: int, di: int, gi: int|
                    {
                        &&& old(self).pos_valid(ri, di, gi)
                        &&& #[trigger] old(self).game_at(ri, di, gi).id@ == game_id@
                        &&& *g == old(self).game_at(ri, di, gi)
                        &&& patched_at(*old(self), *final(self), ri, di, gi, *final(g))
                    },
            },
    {
        match self.find_game_pos(game_id) {
            Option::Some((ri, di, gi)) => Some(&mut self.regions[ri].rounds[di].games[gi]),
            Option::None => None,
        }
    }

    /// Merge partial game updates (a score refresh) into the tree: each
    /// update replaces the game holding its id, in batch order; updates
    /// whose id is absent are dropped. The update equations hold under
    /// the tree invariant that game ids are unique.
    pub fn merge_updates(&mut self, updates: Vec<Game>)
        ensures
            old(self).game_ids_unique() ==> merge_result(*old(self), updates@, *final(self)),
            old(self).game_ids_unique() ==> final(self).game_ids_unique(),
    {
        let ghost all_updates = updates@;
        let mut updates = updates;
        let ghost t0 = *self;
        let mut applied: usize = 0;
        let n = updates.len();
        proof {
            assert(n == all_updates.len());
            assert(all_updates.take(0) =~= Seq::<Game>::empty());
            assert(all_updates.skip(0) =~= all_updates);
        }
        while updates.len() > 0
            invariant
                all_updates.len() <= usize::MAX,
                applied + updates.len() == all_updates.len(),
                updates@ == all_updates.skip(applied as int),
                t0.game_ids_unique() ==> merge_result(t0, all_updates.take(applied as int), *self),
                t0.game_ids_unique() ==> self.game_ids_unique(),
            decreases updates.len(),
        {
            let ghost t_pre = *self;
            let u = updates.remove(0);
            proof {
                assert(u == all_updates[applied as int]);
                assert(updates@ =~= all_updates.skip(applied as int + 1));
            }
            let pos = self.find_game_pos(u.id.as_str());
            match pos {
                Option::Some((ri, di, gi)) => {
                    self.regions[ri].rounds[di].games[gi] = u;
                },
                Option::None => {},
            }
            applied += 1;
            proof {
                let a = applied as int;
                assert(all_updates.take(a).drop_last() =~= all_updates.take(a - 1));
                assert(all_updates.take(a).last() == all_updates[a - 1]);
                if t0.game_ids_unique() {
                assert forall|ri: int, di: int, gi: int| t0.pos_valid(ri, di, gi) implies
                    #[trigger] self.game_at(ri, di, gi) == merge_one(
                        t0.game_at(ri, di, gi),
                        all_updates.take(a),
                    ) by {
                    let g0 = t0.game_at(ri, di, gi);
                    lemma_merge_one_id(g0, all_updates.take(a - 1));
                    assert(t_pre.game_at(ri, di, gi) == merge_one(g0, all_updates.take(a - 1)));
                    assert(t_pre.game_at(ri, di, gi).id@ == g0.id@);
                    match pos {
                        Option::Some(p) => {
                            if ri == p.0 as int && di == p.1 as int && gi == p.2 as int {
                                assert(self.game_at(ri, di, gi) == u);
                                assert(g0.id@ == u.id@);
                            } else {
                                assert(self.game_at(ri, di, gi) == t_pre.game_at(ri, di, gi));
                                if u.id@ == g0.id@ {
                                    let q0 = t_pre.game_at(
                                        p.0 as int,
                                        p.1 as int,
                                        p.2 as int,
                                    );
                                    lemma_merge_one_id(
                                        t0.game_at(p.0 as int, p.1 as int, p.2 as int),
                                        all_updates.take(a - 1),
                                    );
                                    assert(t0.game_at(p.0 as int, p.1 as int, p.2 as int).id@
                                        == u.id@);
                                    assert(t0.game_at(ri, di, gi).id@ == t0.game_at(
                                        p.0 as int,
                                        p.1 as int,
                                        p.2 as int,
                                    ).id@);
                                    assert(false);
                                }
                            }
                        },
                        Option::None => {
                            assert(self.game_at(ri, di, gi) == t_pre.game_at(ri, di, gi));
                            assert(t_pre.game_at(ri, di, gi).id@ != u.id@);
                        },
                    }
                }
                assert forall|r1: int, d1: int, g1: int, r2: int, d2: int, g2: int|
                    self.pos_valid(r1, d1, g1) && self.pos_valid(r2, d2, g2)
                        && #[trigger] self.game_at(r1, d1, g1).id@ == #[trigger] self.game_at(
                        r2,
                        d2,
                        g2,
                    ).id@ implies r1 == r2 && d1 == d2 && g1 == g2 by {
                    lemma_merge_one_id(t0.game_at(r1, d1, g1), all_updates.take(a));
                    lemma_merge_one_id(t0.game_at(r2, d2, g2), all_updates.take(a));
                }
                }
            }
        }
        proof {
            assert(all_updates.take(all_updates.len() as int) =~= all_updates);
        }
    }
}

} // verus!
