//! Simulation speed names and the speed vote of a world: the world's creator
//! sets the speed directly; other players vote, and a speed is applied once
//! it has a strict majority of the world's players.

use vstd::prelude::*;

use crate::command::GameSpeed;
use crate::text::chars_of;

verus! {

/// The name of a speed, as its `Debug` form prints it.
pub open spec fn speed_name(s: GameSpeed) -> Seq<char> {
    match s {
        GameSpeed::Paused => "Paused"@,
        GameSpeed::Normal => "Normal"@,
        GameSpeed::Fast => "Fast"@,
        GameSpeed::VeryFast => "VeryFast"@,
        GameSpeed::Ultra => "Ultra"@,
    }
}

/// The speed a name denotes; unknown names mean `Normal`.
pub open spec fn speed_of_name(s: Seq<char>) -> GameSpeed {
    if s == "Paused"@ {
        GameSpeed::Paused
    } else if s == "Normal"@ {
        GameSpeed::Normal
    } else if s == "Fast"@ {
        GameSpeed::Fast
    } else if s == "VeryFast"@ {
        GameSpeed::VeryFast
    } else if s == "Ultra"@ {
        GameSpeed::Ultra
    } else {
        GameSpeed::Normal
    }
}

/// The name of a speed.
pub fn speed_str(s: GameSpeed) -> (r: &'static str)
    ensures
        r@ == speed_name(s),
{
    match s {
        GameSpeed::Paused => "Paused",
        GameSpeed::Normal => "Normal",
        GameSpeed::Fast => "Fast",
        GameSpeed::VeryFast => "VeryFast",
        GameSpeed::Ultra => "Ultra",
    }
}

fn chars_equal(a: &Vec<char>, b: &str) -> (r: bool)
    ensures
        r == (a@ == b@),
{
    let bc = chars_of(b);
    if a.len() != bc.len() {
        return false;
    }
    let mut i: usize = 0;
    while i < a.len()
        invariant
            a.len() == bc.len(),
            bc@ == b@,
            i <= a.len(),
            forall|j: int| 0 <= j < i ==> a@[j] == bc@[j],
        decreases a.len() - i,
    {
        if a[i] != bc[i] {
            return false;
        }
        i += 1;
    }
    assert(a@ =~= bc@);
    true
}

/// Parse a speed name back into a speed (`Normal` for unknown names).
pub fn parse_speed_str(s: &str) -> (r: GameSpeed)
    ensures
        r == speed_of_name(s@),
{
    let c = chars_of(s);
    if chars_equal(&c, "Paused") {
        GameSpeed::Paused
    } else if chars_equal(&c, "Normal") {
        GameSpeed::Normal
    } else if chars_equal(&c, "Fast") {
        GameSpeed::Fast
    } else if chars_equal(&c, "VeryFast") {
        GameSpeed::VeryFast
    } else if chars_equal(&c, "Ultra") {
        GameSpeed::Ultra
    } else {
        GameSpeed::Normal
    }
}

/// Parsing the name of a speed gives the speed back.
pub proof fn speed_name_round_trip(s: GameSpeed)
    ensures
        speed_of_name(speed_name(s)) == s,
{
    reveal_strlit("Paused");
    reveal_strlit("Normal");
    reveal_strlit("Fast");
    reveal_strlit("VeryFast");
    reveal_strlit("Ultra");
    assert("Paused"@[0] != "Normal"@[0]);
    assert("Paused"@.len() != "Fast"@.len());
    assert("Normal"@.len() != "Fast"@.len());
    assert("Paused"@.len() != "VeryFast"@.len());
    assert("Normal"@.len() != "VeryFast"@.len());
    assert("Fast"@.len() != "VeryFast"@.len());
    assert("Paused"@.len() != "Ultra"@.len());
    assert("Normal"@.len() != "Ultra"@.len());
    assert("Fast"@.len() != "Ultra"@.len());
    assert("VeryFast"@.len() != "Ultra"@.len());
}

/// The speed a pause toggle asks for: `Normal` when paused, `Paused` otherwise.
pub open spec fn toggled(current: GameSpeed) -> GameSpeed {
    if current == GameSpeed::Paused {
        GameSpeed::Normal
    } else {
        GameSpeed::Paused
    }
}

/// A pause toggle pauses a running world, whatever its speed, and resumes a
/// paused one at normal speed; toggling twice from any running speed ends at
/// normal speed.
pub proof fn toggling_pauses_and_resumes(s: GameSpeed)
    ensures
        (toggled(s) == GameSpeed::Paused) <==> (s != GameSpeed::Paused),
        s == GameSpeed::Paused ==> toggled(s) == GameSpeed::Normal,
        s != GameSpeed::Paused ==> toggled(toggled(s)) == GameSpeed::Normal,
{
}

/// The speed a pause toggle asks for.
pub fn toggle_pause_target(current: GameSpeed) -> (r: GameSpeed)
    ensures
        r == toggled(current),
        (r == GameSpeed::Paused) <==> (current != GameSpeed::Paused),
        current == GameSpeed::Paused ==> r == GameSpeed::Normal,
{
    if current == GameSpeed::Paused {
        GameSpeed::Normal
    } else {
        GameSpeed::Paused
    }
}

/// Number of votes for speed `s`.
pub open spec fn vote_count(votes: Seq<(u128, GameSpeed)>, s: GameSpeed) -> nat
    decreases votes.len(),
{
    if votes.len() == 0 {
        0
    } else {
        vote_count(votes.drop_last(), s) + if votes.last().1 == s { 1nat } else { 0nat }
    }
}

/// Votes needed for a majority of `players` players.
pub open spec fn majority(players: nat) -> nat {
    players / 2 + 1
}

/// No player holds two votes.
pub open spec fn distinct_voters(votes: Seq<(u128, GameSpeed)>) -> bool {
    forall|i: int, j: int| 0 <= i < j < votes.len() ==> votes[i].0 != votes[j].0
}

/// The votes after `player` votes for `s` (a new vote replaces the old one).
pub open spec fn with_vote(votes: Seq<(u128, GameSpeed)>, player: u128, s: GameSpeed) -> Seq<(u128, GameSpeed)> {
    if exists|i: int| 0 <= i < votes.len() && votes[i].0 == player {
        let i = choose|i: int| 0 <= i < votes.len() && votes[i].0 == player;
        votes.update(i, (player, s))
    } else {
        votes.push((player, s))
    }
}

/// `s` wins the vote: it has a majority and no speed has more votes.
pub open spec fn wins(votes: Seq<(u128, GameSpeed)>, players: nat, s: GameSpeed) -> bool {
    vote_count(votes, s) >= majority(players)
        && forall|t: GameSpeed| vote_count(votes, t) <= #[trigger] vote_count(votes, s)
}

/// No speed has a majority yet.
pub open spec fn undecided(votes: Seq<(u128, GameSpeed)>, players: nat) -> bool {
    forall|t: GameSpeed| #[trigger] vote_count(votes, t) < majority(players)
}

/// Result of a speed request.
#[derive(Clone, Copy, Debug, PartialEq, Eq, Structural)]
pub enum VoteOutcome {
    /// The speed is applied to the world now.
    Applied(GameSpeed),
    /// The vote is recorded; no speed has a majority yet.
    Pending,
}

/// The speed vote of a world.
pub struct SpeedVotes {
    creator: Option<u128>,
    votes: Vec<(u128, GameSpeed)>,
}

impl SpeedVotes {
    /// The world's creator, who may set the speed without a vote.
    pub closed spec fn creator_spec(&self) -> Option<u128> {
        self.creator
    }

    /// The recorded votes (player, requested speed).
    pub closed spec fn votes_spec(&self) -> Seq<(u128, GameSpeed)> {
        self.votes@
    }

    /// Every player holds at most one vote.
    pub closed spec fn wf(&self) -> bool {
        distinct_voters(self.votes@)
    }

    /// No creator and no votes.
    pub fn new() -> (r: SpeedVotes)
        ensures
            r.wf(),
            r.creator_spec() is None,
            r.votes_spec().len() == 0,
    {
        SpeedVotes { creator: None, votes: Vec::new() }
    }

    /// The world's creator.
    pub fn creator(&self) -> (r: Option<u128>)
        ensures
            r == self.creator_spec(),
    {
        self.creator
    }

    /// Make `player` the creator unless the world already has one.
    pub fn claim_creator(&mut self, player: u128)
        ensures
            final(self).creator_spec() == (if old(self).creator_spec() is None {
                Some(player)
            } else {
                old(self).creator_spec()
            }),
            final(self).votes_spec() == old(self).votes_spec(),
            final(self).wf() == old(self).wf(),
    {
        if self.creator.is_none() {
            self.creator = Some(player);
        }
    }

    /// Hand the creator role to `player`.
    pub fn set_creator(&mut self, player: Option<u128>)
        ensures
            final(self).creator_spec() == player,
            final(self).votes_spec() == old(self).votes_spec(),
            final(self).wf() == old(self).wf(),
    {
        self.creator = player;
    }

    /// A copy of the recorded votes.
    pub fn votes(&self) -> (r: Vec<(u128, GameSpeed)>)
        ensures
            r@ == self.votes_spec(),
    {
        let mut r: Vec<(u128, GameSpeed)> = Vec::new();
        let mut i: usize = 0;
        while i < self.votes.len()
            invariant
                i <= self.votes.len(),
                r@ == self.votes@.take(i as int),
            decreases self.votes.len() - i,
        {
            r.push(self.votes[i]);
            assert(self.votes@.take(i + 1) =~= self.votes@.take(i as int).push(self.votes@[i as int]));
            i += 1;
        }
        assert(self.votes@.take(self.votes@.len() as int) =~= self.votes@);
        r
    }

    /// Count the votes for `s`.
    fn count(&self, s: GameSpeed) -> (n: usize)
        ensures
            n == vote_count(self.votes@, s),
    {
        let mut n: usize = 0;
        let mut i: usize = 0;
        while i < self.votes.len()
            invariant
                i <= self.votes.len(),
                n == vote_count(self.votes@.take(i as int), s),
                n <= i,
            decreases self.votes.len() - i,
        {
            assert(self.votes@.take(i + 1).drop_last() =~= self.votes@.take(i as int));
            if self.votes[i].1 == s {
                n += 1;
            }
            i += 1;
        }
        assert(self.votes@.take(self.votes@.len() as int) =~= self.votes@);
        n
    }

    /// The speed that wins the vote among `players` players, if any.
    fn resolve(&self, players: usize) -> (r: Option<GameSpeed>)
        ensures
            match r {
                Some(s) => wins(self.votes@, players as nat, s),
                None => undecided(self.votes@, players as nat),
            },
    {
        let speeds: [GameSpeed; 5] = [
            GameSpeed::Paused,
            GameSpeed::Normal,
            GameSpeed::Fast,
            GameSpeed::VeryFast,
            GameSpeed::Ultra,
        ];
        let threshold: usize = players / 2 + 1;
        let mut best: Option<GameSpeed> = None;
        let mut best_count: usize = 0;
        let mut i: usize = 0;
        while i < 5
            invariant
                i <= 5,
                threshold == players / 2 + 1,
                speeds@ == seq![GameSpeed::Paused, GameSpeed::Normal, GameSpeed::Fast, GameSpeed::VeryFast, GameSpeed::Ultra],
                forall|j: int| 0 <= j < i ==> #[trigger] vote_count(self.votes@, speeds@[j]) < threshold
                    || (best is Some && vote_count(self.votes@, speeds@[j]) <= best_count),
                match best {
                    Some(b) => vote_count(self.votes@, b) == best_count && best_count >= threshold,
                    None => forall|j: int| 0 <= j < i ==> #[trigger] vote_count(self.votes@, speeds@[j]) < threshold,
                },
            decreases 5 - i,
        {
            let c = self.count(speeds[i]);
            if c >= threshold && (best.is_none() || c > best_count) {
                best = Some(speeds[i]);
                best_count = c;
            }
            i += 1;
        }
        proof {
            assert forall|t: GameSpeed| #[trigger] vote_count(self.votes@, t) < threshold
                || (best is Some && vote_count(self.votes@, t) <= best_count) by {
                match t {
                    GameSpeed::Paused => assert(speeds@[0] == t),
                    GameSpeed::Normal => assert(speeds@[1] == t),
                    GameSpeed::Fast => assert(speeds@[2] == t),
                    GameSpeed::VeryFast => assert(speeds@[3] == t),
                    GameSpeed::Ultra => assert(speeds@[4] == t),
                }
            }
            match best {
                Some(b) => {
                    assert forall|t: GameSpeed| vote_count(self.votes@, t) <= #[trigger] vote_count(self.votes@, b) by {
                        assert(vote_count(self.votes@, t) < threshold
                            || (best is Some && vote_count(self.votes@, t) <= best_count));
                    }
                },
                None => {
                    assert forall|t: GameSpeed| #[trigger] vote_count(self.votes@, t) < majority(players as nat) by {
                        assert(vote_count(self.votes@, t) < threshold
                            || (best is Some && vote_count(self.votes@, t) <= best_count));
                    }
                },
            }
        }
        best
    }

    /// Record (or replace) `player`'s vote.
    fn record_vote(&mut self, player: u128, s: GameSpeed)
        requires
            old(self).wf(),
        ensures
            final(self).wf(),
            final(self).votes_spec() == with_vote(old(self).votes_spec(), player, s),
            final(self).creator_spec() == old(self).creator_spec(),
    {
        let ghost before = self.votes@;
        let mut i: usize = 0;
        while i < self.votes.len()
            invariant
                self.votes@ == before,
                before == old(self).votes@,
                self.creator == old(self).creator,
                distinct_voters(before),
                i <= self.votes.len(),
                forall|j: int| 0 <= j < i ==> self.votes@[j].0 != player,
            decreases self.votes.len() - i,
        {
            if self.votes[i].0 == player {
                proof {
                    assert(exists|k: int| 0 <= k < before.len() && before[k].0 == player) by {
                        assert(before[i as int].0 == player);
                    }
                    let k = choose|k: int| 0 <= k < before.len() && before[k].0 == player;
                    if k != i {
                        if k < i {
                            assert(before[k].0 != before[i as int].0);
                        } else {
                            assert(before[i as int].0 != before[k].0);
                        }
                    }
                    assert(k == i);
                }
                self.votes.set(i, (player, s));
                proof {
                    assert(self.votes@ == before.update(i as int, (player, s)));
                    assert(with_vote(before, player, s) == before.update(i as int, (player, s)));
                    assert forall|a: int, b: int| 0 <= a < b < self.votes@.len() implies self.votes@[a].0 != self.votes@[b].0 by {
                        assert(before[a].0 != before[b].0);
                    }
                }
                return;
            }
            i += 1;
        }
        self.votes.push((player, s));
        proof {
            assert(!(exists|k: int| 0 <= k < before.len() && before[k].0 == player));
            assert forall|a: int, b: int| 0 <= a < b < self.votes@.len() implies self.votes@[a].0 != self.votes@[b].0 by {
                if b < before.len() {
                    assert(before[a].0 != before[b].0);
                }
            }
        }
    }

    /// Handle a speed request from `player` in a world of `players` players.
    /// The creator sets the speed directly and clears all votes. Anyone else
    /// records a vote; when a speed then wins a strict majority it is applied
    /// and the votes are cleared.
    pub fn request(&mut self, player: u128, requested: GameSpeed, players: usize) -> (r: VoteOutcome)
        requires
            old(self).wf(),
        ensures
            final(self).wf(),
            final(self).creator_spec() == old(self).creator_spec(),
            old(self).creator_spec() == Some(player) ==> r == VoteOutcome::Applied(requested)
                && final(self).votes_spec().len() == 0,
            old(self).creator_spec() != Some(player) ==> {
                let v = with_vote(old(self).votes_spec(), player, requested);
                match r {
                    VoteOutcome::Applied(s) => wins(v, players as nat, s) && final(self).votes_spec().len() == 0,
                    VoteOutcome::Pending => undecided(v, players as nat) && final(self).votes_spec() == v,
                }
            },
    {
        if self.creator == Some(player) {
            self.votes = Vec::new();
            return VoteOutcome::Applied(requested);
        }
        self.record_vote(player, requested);
        match self.resolve(players) {
            Some(s) => {
                self.votes = Vec::new();
                VoteOutcome::Applied(s)
            },
            None => VoteOutcome::Pending,
        }
    }

    /// Forget all votes.
    pub fn clear(&mut self)
        ensures
            final(self).wf(),
            final(self).votes_spec().len() == 0,
            final(self).creator_spec() == old(self).creator_spec(),
    {
        self.votes = Vec::new();
    }
}

/// In a world with a single player, a vote decides at once.
pub proof fn lone_player_decides(player: u128, s: GameSpeed)
    ensures
        wins(with_vote(Seq::empty(), player, s), 1, s),
{
    let v = with_vote(Seq::empty(), player, s);
    assert(v =~= seq![(player, s)]);
    assert(vote_count(v.drop_last(), s) == 0);
    assert forall|t: GameSpeed| vote_count(v, t) <= #[trigger] vote_count(v, s) by {
        assert(vote_count(v.drop_last(), t) == 0);
    }
}

} // verus!
