//! The decisions of a world's tick loop: whether to advance the simulation,
//! which snapshots and maintenance a tick triggers, when buffered events are
//! written out, and the leaderboard score of a corporation.

use vstd::prelude::*;

use crate::command::GameSpeed;

verus! {

/// Ticks between full snapshots pushed to clients.
pub const CLIENT_SNAPSHOT_INTERVAL_TICKS: u64 = 30;
/// Ticks between client snapshots in busy worlds.
pub const CLIENT_SNAPSHOT_INTERVAL_BUSY: u64 = 60;
/// Number of players from which a world counts as busy.
pub const BUSY_WORLD_PLAYER_THRESHOLD: usize = 3;
/// Ticks between database snapshots, leaderboard updates and event pruning.
pub const DB_SNAPSHOT_INTERVAL_TICKS: u64 = 100;
/// Snapshots kept per world; older ones are pruned.
pub const MAX_SNAPSHOTS_PER_WORLD: i64 = 5;
/// Ticks of events kept in the event log.
pub const EVENT_RETENTION_TICKS: i64 = 10000;
/// Longest time events stay buffered, in microseconds (2 seconds).
pub const EVENT_FLUSH_INTERVAL_US: u64 = 2_000_000;
/// Most events buffered before they are written out.
pub const MAX_EVENT_BUFFER: usize = 200;

/// Ticks between client snapshots for a world with `players` connected.
pub open spec fn snapshot_interval_for(players: usize) -> u64 {
    if players >= BUSY_WORLD_PLAYER_THRESHOLD {
        CLIENT_SNAPSHOT_INTERVAL_BUSY
    } else {
        CLIENT_SNAPSHOT_INTERVAL_TICKS
    }
}

/// Ticks between client snapshots: longer once a world is busy.
pub fn snapshot_interval(players: usize) -> (r: u64)
    ensures
        r == snapshot_interval_for(players),
{
    if players >= BUSY_WORLD_PLAYER_THRESHOLD {
        CLIENT_SNAPSHOT_INTERVAL_BUSY
    } else {
        CLIENT_SNAPSHOT_INTERVAL_TICKS
    }
}

/// What the loop does at the start of a round.
#[derive(Clone, Copy, Debug, PartialEq, Eq, Structural)]
pub enum TickStep {
    /// No player is connected: wait 5 seconds and start over.
    Idle,
    /// The world is paused: start over at the next interval.
    Skip,
    /// Advance the simulation by one tick.
    Advance,
}

/// A world without players idles, a paused world skips, any other advances.
pub fn tick_step(players: usize, speed: GameSpeed) -> (r: TickStep)
    ensures
        players == 0 ==> r == TickStep::Idle,
        players > 0 && speed == GameSpeed::Paused ==> r == TickStep::Skip,
        players > 0 && speed != GameSpeed::Paused ==> r == TickStep::Advance,
{
    if players == 0 {
        TickStep::Idle
    } else if speed == GameSpeed::Paused {
        TickStep::Skip
    } else {
        TickStep::Advance
    }
}

/// The periodic work a tick triggers.
#[derive(Clone, Copy, Debug, PartialEq, Eq, Structural)]
pub struct TickPlan {
    /// Push a full snapshot to the clients.
    pub client_snapshot: bool,
    /// Store a binary snapshot (only with a database).
    pub db_snapshot: bool,
    /// Update the leaderboard and prune old events.
    pub maintenance: bool,
}

/// The work of tick `tick` in a world with `players` connected.
pub fn plan_tick(tick: u64, players: usize, has_db: bool) -> (r: TickPlan)
    ensures
        r.client_snapshot == (tick % snapshot_interval_for(players) == 0),
        r.db_snapshot == (has_db && tick % DB_SNAPSHOT_INTERVAL_TICKS == 0),
        r.maintenance == (tick % DB_SNAPSHOT_INTERVAL_TICKS == 0),
{
    let interval = snapshot_interval(players);
    let periodic = tick % DB_SNAPSHOT_INTERVAL_TICKS == 0;
    TickPlan { client_snapshot: tick % interval == 0, db_snapshot: periodic && has_db, maintenance: periodic }
}

/// Buffered events are written out when there are some and either the flush
/// interval has passed since the last write or the buffer is full.
pub fn should_flush_events(buffered: usize, since_flush_us: u64) -> (r: bool)
    ensures
        r == (buffered > 0 && (since_flush_us >= EVENT_FLUSH_INTERVAL_US || buffered >= MAX_EVENT_BUFFER)),
{
    buffered > 0 && (since_flush_us >= EVENT_FLUSH_INTERVAL_US || buffered >= MAX_EVENT_BUFFER)
}

/// A corporation's net worth for the leaderboard: cash plus a hundred ticks
/// of revenue, minus debt.
pub open spec fn net_worth_of(cash: i64, revenue: i64, debt: i64) -> int {
    cash + revenue * 100 - debt
}

/// The leaderboard net worth (also its score).
pub fn net_worth(cash: i64, revenue: i64, debt: i64) -> (r: i64)
    requires
        i64::MIN <= revenue * 100 <= i64::MAX,
        i64::MIN <= cash + revenue * 100 <= i64::MAX,
        i64::MIN <= net_worth_of(cash, revenue, debt) <= i64::MAX,
    ensures
        r == net_worth_of(cash, revenue, debt),
{
    cash + revenue * 100 - debt
}

/// The kinds of game event that the event log names; all others are `Other`.
#[derive(Clone, Copy, Debug, PartialEq, Eq, Structural)]
pub enum EventKind {
    ConstructionStarted,
    ConstructionCompleted,
    NodeBuilt,
    NodeDestroyed,
    RevenueEarned,
    CostIncurred,
    BankruptcyDeclared,
    ResearchStarted,
    ResearchCompleted,
    DisasterStruck,
    RepairCompleted,
    CorporationFounded,
    Other,
}

/// The name under which an event is logged.
pub open spec fn event_kind_name(k: EventKind) -> Seq<char> {
    match k {
        EventKind::ConstructionStarted => "ConstructionStarted"@,
        EventKind::ConstructionCompleted => "ConstructionCompleted"@,
        EventKind::NodeBuilt => "NodeBuilt"@,
        EventKind::NodeDestroyed => "NodeDestroyed"@,
        EventKind::RevenueEarned => "RevenueEarned"@,
        EventKind::CostIncurred => "CostIncurred"@,
        EventKind::BankruptcyDeclared => "BankruptcyDeclared"@,
        EventKind::ResearchStarted => "ResearchStarted"@,
        EventKind::ResearchCompleted => "ResearchCompleted"@,
        EventKind::DisasterStruck => "DisasterStruck"@,
        EventKind::RepairCompleted => "RepairCompleted"@,
        EventKind::CorporationFounded => "CorporationFounded"@,
        EventKind::Other => "Other"@,
    }
}

/// The event-log name of an event kind.
pub fn event_type_name(k: EventKind) -> (r: &'static str)
    ensures
        r@ == event_kind_name(k),
{
    match k {
        EventKind::ConstructionStarted => "ConstructionStarted",
        EventKind::ConstructionCompleted => "ConstructionCompleted",
        EventKind::NodeBuilt => "NodeBuilt",
        EventKind::NodeDestroyed => "NodeDestroyed",
        EventKind::RevenueEarned => "RevenueEarned",
        EventKind::CostIncurred => "CostIncurred",
        EventKind::BankruptcyDeclared => "BankruptcyDeclared",
        EventKind::ResearchStarted => "ResearchStarted",
        EventKind::ResearchCompleted => "ResearchCompleted",
        EventKind::DisasterStruck => "DisasterStruck",
        EventKind::RepairCompleted => "RepairCompleted",
        EventKind::CorporationFounded => "CorporationFounded",
        EventKind::Other => "Other",
    }
}

} // verus!
