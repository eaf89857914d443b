//! The bookkeeping of a running world: who plays in it and with which
//! corporation, who is banned, joining and leaving, and tick profiling.

use std::collections::{HashMap, HashSet, VecDeque};
use vstd::prelude::*;
use vstd::relations::{sorted_by, total_ordering};

use crate::command::EntityId;
use crate::command::GameSpeed;
use crate::speed::{SpeedVotes, VoteOutcome, wins, undecided, with_vote};

verus! {

broadcast use vstd::std_specs::hash::group_hash_axioms;

/// Why a player may not join a world.
#[derive(Clone, Copy, Debug, PartialEq, Eq, Structural)]
pub enum JoinError {
    /// The player is banned from this world.
    Banned,
    /// The world has no free player slot.
    WorldFull,
}

impl JoinError {
    /// The message sent to the client.
    pub fn message(&self) -> (r: &'static str)
        ensures
            r@ == match *self {
                JoinError::Banned => "You are banned from this world"@,
                JoinError::WorldFull => "World is full"@,
            },
    {
        match self {
            JoinError::Banned => "You are banned from this world",
            JoinError::WorldFull => "World is full",
        }
    }
}

/// How a permitted join proceeds.
#[derive(Clone, Copy, Debug, PartialEq, Eq, Structural)]
pub enum JoinPlan {
    /// Spectators watch without a corporation and take no slot.
    Spectate,
    /// The player already has this corporation in the world.
    Reconnect(EntityId),
    /// The player needs a new corporation.
    NewCorporation,
}

/// The players of a world and their corporations, the banned accounts, and
/// the speed vote.
pub struct WorldRoster {
    players: HashMap<u128, EntityId>,
    banned: HashSet<u128>,
    max_players: u32,
    speed: SpeedVotes,
}

/// How a join request is decided.
pub open spec fn join_decision(
    players: Map<u128, EntityId>,
    banned: Set<u128>,
    max_players: u32,
    player: u128,
    is_spectator: bool,
) -> Result<JoinPlan, JoinError> {
    if banned.contains(player) {
        Err(JoinError::Banned)
    } else if !is_spectator && players.len() >= max_players {
        Err(JoinError::WorldFull)
    } else if is_spectator {
        Ok(JoinPlan::Spectate)
    } else if players.contains_key(player) {
        Ok(JoinPlan::Reconnect(players[player]))
    } else {
        Ok(JoinPlan::NewCorporation)
    }
}

impl WorldRoster {
    /// The players and their corporations.
    pub closed spec fn players_spec(&self) -> Map<u128, EntityId> {
        self.players@
    }

    /// The banned accounts.
    pub closed spec fn banned_spec(&self) -> Set<u128> {
        self.banned@
    }

    /// The number of player slots.
    pub closed spec fn max_players_spec(&self) -> u32 {
        self.max_players
    }

    /// The speed vote of the world.
    pub closed spec fn speed_spec(&self) -> SpeedVotes {
        self.speed
    }

    /// The internal invariant: a well-formed speed vote.
    pub closed spec fn wf(&self) -> bool {
        self.speed.wf()
    }

    /// An empty world with `max_players` slots.
    pub fn new(max_players: u32) -> (r: WorldRoster)
        ensures
            r.wf(),
            r.players_spec() == Map::<u128, EntityId>::empty(),
            r.banned_spec() == Set::<u128>::empty(),
            r.max_players_spec() == max_players,
            r.speed_spec().creator_spec() is None,
            r.speed_spec().votes_spec().len() == 0,
    {
        WorldRoster {
            players: HashMap::new(),
            banned: HashSet::new(),
            max_players,
            speed: SpeedVotes::new(),
        }
    }

    /// The number of player slots.
    pub fn max_players(&self) -> (r: u32)
        ensures
            r == self.max_players_spec(),
    {
        self.max_players
    }

    /// Number of players (spectators are not counted).
    pub fn player_count(&self) -> (n: usize)
        ensures
            n == self.players_spec().len(),
    {
        self.players.len()
    }

    /// True when every player slot is taken.
    pub fn is_full(&self) -> (b: bool)
        ensures
            b == (self.players_spec().len() >= self.max_players_spec()),
    {
        self.players.len() >= self.max_players as usize
    }

    /// The corporation of a player in this world.
    pub fn corp_of(&self, player: u128) -> (r: Option<EntityId>)
        ensures
            r == (if self.players_spec().contains_key(player) {
                Some(self.players_spec()[player])
            } else {
                None
            }),
    {
        match self.players.get(&player) {
            Some(c) => Some(*c),
            None => None,
        }
    }

    /// The players and their corporations, in no particular order.
    pub fn player_list(&self) -> (r: Vec<(u128, EntityId)>)
        ensures
            r@.len() == self.players_spec().len(),
            forall|i: int| 0 <= i < r@.len() ==> #[trigger] self.players_spec().contains_key(r@[i].0)
                && self.players_spec()[r@[i].0] == r@[i].1,
            forall|p: u128| #[trigger] self.players_spec().contains_key(p)
                ==> r@.contains((p, self.players_spec()[p])),
    {
        let mut r: Vec<(u128, EntityId)> = Vec::new();
        let ghost m = self.players@;
        let ghost v = vstd::std_specs::iter::IteratorSpec::remaining(&vstd::std_specs::hash::spec_hash_map_iter(&self.players));
        for (p, c) in it: self.players.iter()
            invariant
                m == self.players@,
                it.seq() == v,
                r@.len() == it.index(),
                forall|i: int| 0 <= i < r@.len() ==> #[trigger] r@[i] == (*v[i].0, *v[i].1),
        {
            r.push((*p, *c));
        }
        proof {
            assert(r@.len() == v.len());
            assert forall|i: int| 0 <= i < r@.len() implies #[trigger] self.players_spec().contains_key(r@[i].0)
                && self.players_spec()[r@[i].0] == r@[i].1 by {
                assert(m.contains_key(*v[i].0) && m[*v[i].0] == *v[i].1);
            }
            assert forall|p: u128| #[trigger] self.players_spec().contains_key(p)
                implies r@.contains((p, self.players_spec()[p])) by {
                assert(v.contains((&p, &m[p])));
                let i = choose|i: int| 0 <= i < v.len() && v[i] == (&p, &m[p]);
                assert(r@[i] == (p, m[p]));
            }
        }
        r
    }

    /// Put a player (with their corporation) in the world.
    pub fn add_player(&mut self, player: u128, corp: EntityId)
        ensures
            final(self).players_spec() == old(self).players_spec().insert(player, corp),
            final(self).banned_spec() == old(self).banned_spec(),
            final(self).max_players_spec() == old(self).max_players_spec(),
            final(self).speed_spec() == old(self).speed_spec(),
    {
        self.players.insert(player, corp);
    }

    /// Take a player out of the world; returns their corporation.
    pub fn remove_player(&mut self, player: u128) -> (r: Option<EntityId>)
        ensures
            final(self).players_spec() == old(self).players_spec().remove(player),
            r == (if old(self).players_spec().contains_key(player) {
                Some(old(self).players_spec()[player])
            } else {
                None
            }),
            final(self).banned_spec() == old(self).banned_spec(),
            final(self).max_players_spec() == old(self).max_players_spec(),
            final(self).speed_spec() == old(self).speed_spec(),
    {
        self.players.remove(&player)
    }

    /// Whether an account is banned from this world.
    pub fn is_banned(&self, player: u128) -> (b: bool)
        ensures
            b == self.banned_spec().contains(player),
    {
        self.banned.contains(&player)
    }

    /// Ban an account from this world.
    pub fn ban(&mut self, player: u128)
        ensures
            final(self).banned_spec() == old(self).banned_spec().insert(player),
            final(self).players_spec() == old(self).players_spec(),
            final(self).max_players_spec() == old(self).max_players_spec(),
            final(self).speed_spec() == old(self).speed_spec(),
    {
        self.banned.insert(player);
    }

    /// Lift a ban.
    pub fn unban(&mut self, player: u128)
        ensures
            final(self).banned_spec() == old(self).banned_spec().remove(player),
            final(self).players_spec() == old(self).players_spec(),
            final(self).max_players_spec() == old(self).max_players_spec(),
            final(self).speed_spec() == old(self).speed_spec(),
    {
        self.banned.remove(&player);
    }

    /// Decide a join request: banned accounts are refused, then players (not
    /// spectators) when the world is full; a player who already has a
    /// corporation here reconnects to it, any other player needs a new one.
    pub fn plan_join(&self, player: u128, is_spectator: bool) -> (r: Result<JoinPlan, JoinError>)
        ensures
            r == join_decision(self.players_spec(), self.banned_spec(), self.max_players_spec(), player, is_spectator),
    {
        if self.banned.contains(&player) {
            return Err(JoinError::Banned);
        }
        if !is_spectator && self.is_full() {
            return Err(JoinError::WorldFull);
        }
        if is_spectator {
            return Ok(JoinPlan::Spectate);
        }
        match self.players.get(&player) {
            Some(corp) => Ok(JoinPlan::Reconnect(*corp)),
            None => Ok(JoinPlan::NewCorporation),
        }
    }

    /// Complete a (non-spectator) join with the player's corporation: the
    /// player is recorded, and becomes the creator if the world has none.
    pub fn seat_player(&mut self, player: u128, corp: EntityId)
        requires
            old(self).wf(),
        ensures
            final(self).wf(),
            final(self).players_spec() == old(self).players_spec().insert(player, corp),
            final(self).banned_spec() == old(self).banned_spec(),
            final(self).max_players_spec() == old(self).max_players_spec(),
            final(self).speed_spec().creator_spec() == (if old(self).speed_spec().creator_spec() is None {
                Some(player)
            } else {
                old(self).speed_spec().creator_spec()
            }),
            final(self).speed_spec().votes_spec() == old(self).speed_spec().votes_spec(),
    {
        self.players.insert(player, corp);
        self.speed.claim_creator(player);
    }

    /// The world's creator.
    pub fn creator(&self) -> (r: Option<u128>)
        ensures
            r == self.speed_spec().creator_spec(),
    {
        self.speed.creator()
    }

    /// Hand the creator role to another player.
    pub fn set_creator(&mut self, player: Option<u128>)
        requires
            old(self).wf(),
        ensures
            final(self).wf(),
            final(self).speed_spec().creator_spec() == player,
            final(self).speed_spec().votes_spec() == old(self).speed_spec().votes_spec(),
            final(self).players_spec() == old(self).players_spec(),
            final(self).banned_spec() == old(self).banned_spec(),
            final(self).max_players_spec() == old(self).max_players_spec(),
    {
        self.speed.set_creator(player);
    }

    /// The recorded speed votes.
    pub fn speed_votes(&self) -> (r: Vec<(u128, GameSpeed)>)
        ensures
            r@ == self.speed_spec().votes_spec(),
    {
        self.speed.votes()
    }

    /// Forget all speed votes (after the speed was set another way).
    pub fn clear_speed_votes(&mut self)
        requires
            old(self).wf(),
        ensures
            final(self).wf(),
            final(self).speed_spec().votes_spec().len() == 0,
            final(self).speed_spec().creator_spec() == old(self).speed_spec().creator_spec(),
            final(self).players_spec() == old(self).players_spec(),
            final(self).banned_spec() == old(self).banned_spec(),
            final(self).max_players_spec() == old(self).max_players_spec(),
    {
        self.speed.clear();
    }

    /// A player asks for a speed: the creator sets it; anyone else votes, and
    /// a speed with a strict majority of this world's players is applied.
    pub fn request_speed(&mut self, player: u128, requested: GameSpeed) -> (r: VoteOutcome)
        requires
            old(self).wf(),
        ensures
            final(self).wf(),
            final(self).players_spec() == old(self).players_spec(),
            final(self).banned_spec() == old(self).banned_spec(),
            final(self).max_players_spec() == old(self).max_players_spec(),
            final(self).speed_spec().creator_spec() == old(self).speed_spec().creator_spec(),
            old(self).speed_spec().creator_spec() == Some(player) ==> r == VoteOutcome::Applied(requested)
                && final(self).speed_spec().votes_spec().len() == 0,
            old(self).speed_spec().creator_spec() != Some(player) ==> {
                let v = with_vote(old(self).speed_spec().votes_spec(), player, requested);
                let n = old(self).players_spec().len();
                match r {
                    VoteOutcome::Applied(s) => wins(v, n, s) && final(self).speed_spec().votes_spec().len() == 0,
                    VoteOutcome::Pending => undecided(v, n) && final(self).speed_spec().votes_spec() == v,
                }
            },
    {
        let n = self.players.len();
        self.speed.request(player, requested, n)
    }
}

/// A world that is not over capacity stays within capacity when a join is
/// carried out as decided.
pub proof fn joining_respects_capacity(
    players: Map<u128, EntityId>,
    banned: Set<u128>,
    max_players: u32,
    player: u128,
    corp: EntityId,
)
    requires
        players.dom().finite(),
        players.len() <= max_players,
        join_decision(players, banned, max_players, player, false) is Ok,
    ensures
        ({
            let after = match join_decision(players, banned, max_players, player, false) {
                Ok(JoinPlan::Reconnect(c)) => players.insert(player, c),
                _ => players.insert(player, corp),
            };
            after.len() <= max_players
        }),
{
    match join_decision(players, banned, max_players, player, false) {
        Ok(JoinPlan::Reconnect(c)) => {
            assert(players.insert(player, c).dom() =~= players.dom());
        },
        _ => {
            assert(!players.contains_key(player));
            assert(players.insert(player, corp).dom() =~= players.dom().insert(player));
        },
    }
}

/// A banned account is refused whatever else holds, and a spectator who is
/// not banned is always let in: spectators take no player slot.
pub proof fn bans_and_spectators(
    players: Map<u128, EntityId>,
    banned: Set<u128>,
    max_players: u32,
    player: u128,
    is_spectator: bool,
)
    ensures
        banned.contains(player) ==> join_decision(players, banned, max_players, player, is_spectator)
            == Err::<JoinPlan, JoinError>(JoinError::Banned),
        !banned.contains(player) && is_spectator ==> join_decision(players, banned, max_players, player, is_spectator)
            == Ok::<JoinPlan, JoinError>(JoinPlan::Spectate),
{
}

/// A reconnecting player gets back the corporation they had.
pub proof fn reconnect_keeps_corporation(
    players: Map<u128, EntityId>,
    banned: Set<u128>,
    max_players: u32,
    player: u128,
)
    requires
        players.contains_key(player),
        !banned.contains(player),
        players.len() < max_players,
    ensures
        join_decision(players, banned, max_players, player, false) == Ok::<JoinPlan, JoinError>(
            JoinPlan::Reconnect(players[player]),
        ),
{
}

} // verus!
