//! Per-player visibility of tick updates, graduated by intel level.
//!
//! Intel levels (per spying corporation and target):
//!   0 = infrastructure only (node count), 1 = approximate financials,
//!   2 = exact financials, 3 and above = everything, operations included.
//! Spectators see everything; a player always sees their own corporation.

use std::collections::HashMap;
use vstd::prelude::*;

use crate::chat::{approximate_money, approximate_money_spec};
use crate::command::EntityId;

verus! {

broadcast use vstd::std_specs::hash::group_hash_axioms;

/// The per-corporation part of a tick update. Floating-point statistics are
/// carried as their IEEE-754 bit patterns.
#[derive(Clone, Copy, Debug, PartialEq, Eq, Structural)]
pub struct CorpDelta {
    pub corp_id: EntityId,
    pub node_count: Option<u32>,
    pub cash: Option<i64>,
    pub revenue: Option<i64>,
    pub cost: Option<i64>,
    pub debt: Option<i64>,
    pub avg_utilization_bits: Option<u64>,
    pub avg_health_bits: Option<u64>,
    pub total_throughput_bits: Option<u64>,
}

/// A game event of a tick: its position among the tick's events, and the
/// corporations it concerns (none: a global event).
#[derive(Clone, Debug)]
pub struct EventTag {
    pub index: u64,
    pub related_corps: Vec<EntityId>,
}

/// A tick update broadcast to the players of a world.
#[derive(Clone, Debug)]
pub struct TickUpdate {
    pub tick: u64,
    pub corp_updates: Vec<CorpDelta>,
    pub events: Vec<EventTag>,
}

/// Mathematical form of an event tag.
pub struct EventView {
    pub index: u64,
    pub related_corps: Seq<EntityId>,
}

/// Mathematical form of a tick update.
pub struct TickUpdateView {
    pub tick: u64,
    pub corp_updates: Seq<CorpDelta>,
    pub events: Seq<EventView>,
}

impl View for EventTag {
    type V = EventView;

    open spec fn view(&self) -> EventView {
        EventView { index: self.index, related_corps: self.related_corps@ }
    }
}

impl View for TickUpdate {
    type V = TickUpdateView;

    open spec fn view(&self) -> TickUpdateView {
        TickUpdateView {
            tick: self.tick,
            corp_updates: self.corp_updates@,
            events: self.events@.map_values(|e: EventTag| e@),
        }
    }
}

/// The intel level a player has on a corporation (0 when none is recorded).
pub open spec fn intel_level(intel: Map<EntityId, u8>, corp: EntityId) -> u8 {
    if intel.contains_key(corp) {
        intel[corp]
    } else {
        0
    }
}

pub open spec fn approx_opt(v: Option<i64>) -> Option<i64> {
    match v {
        Some(x) => Some(approximate_money_spec(x as int) as i64),
        None => None,
    }
}

/// What a player sees of a competitor's delta at a given intel level.
pub open spec fn delta_at_level(d: CorpDelta, level: u8) -> CorpDelta {
    if level == 0 {
        CorpDelta {
            cash: None,
            revenue: None,
            cost: None,
            debt: None,
            avg_utilization_bits: None,
            avg_health_bits: None,
            total_throughput_bits: None,
            ..d
        }
    } else if level == 1 {
        CorpDelta {
            cash: approx_opt(d.cash),
            revenue: approx_opt(d.revenue),
            cost: approx_opt(d.cost),
            debt: approx_opt(d.debt),
            avg_utilization_bits: None,
            avg_health_bits: None,
            total_throughput_bits: None,
            ..d
        }
    } else if level == 2 {
        CorpDelta { avg_utilization_bits: None, avg_health_bits: None, total_throughput_bits: None, ..d }
    } else {
        d
    }
}

/// What a (non-spectator) player sees of a delta.
pub open spec fn visible_delta(d: CorpDelta, player_corp: Option<EntityId>, intel: Map<EntityId, u8>) -> CorpDelta {
    if player_corp == Some(d.corp_id) {
        d
    } else {
        delta_at_level(d, intel_level(intel, d.corp_id))
    }
}

/// Global events go to everyone; others only to the corporations they concern.
pub open spec fn event_visible(e: EventView, player_corp: Option<EntityId>) -> bool {
    e.related_corps.len() == 0 || (player_corp is Some && e.related_corps.contains(player_corp->0))
}

/// The events a player receives, in order.
pub open spec fn visible_events(evs: Seq<EventView>, player_corp: Option<EntityId>) -> Seq<EventView>
    decreases evs.len(),
{
    if evs.len() == 0 {
        evs
    } else if event_visible(evs.last(), player_corp) {
        visible_events(evs.drop_last(), player_corp).push(evs.last())
    } else {
        visible_events(evs.drop_last(), player_corp)
    }
}

/// The update a player receives.
pub open spec fn filtered_update(
    u: TickUpdateView,
    player_corp: Option<EntityId>,
    is_spectator: bool,
    intel: Map<EntityId, u8>,
) -> TickUpdateView {
    if is_spectator {
        u
    } else {
        TickUpdateView {
            tick: u.tick,
            corp_updates: u.corp_updates.map_values(|d: CorpDelta| visible_delta(d, player_corp, intel)),
            events: visible_events(u.events, player_corp),
        }
    }
}

/// A player always sees their own corporation in full; every player sees
/// which corporation a delta belongs to and its node count; of a competitor,
/// level 0 shows nothing more, level 1 shows approximate financials, level 2
/// exact financials, and level 3 and above everything.
pub proof fn visibility_is_graduated(d: CorpDelta, player_corp: Option<EntityId>, intel: Map<EntityId, u8>)
    ensures
        visible_delta(d, player_corp, intel).corp_id == d.corp_id,
        visible_delta(d, player_corp, intel).node_count == d.node_count,
        player_corp == Some(d.corp_id) ==> visible_delta(d, player_corp, intel) == d,
        intel_level(intel, d.corp_id) >= 3 ==> visible_delta(d, player_corp, intel) == d,
        (player_corp != Some(d.corp_id) && intel_level(intel, d.corp_id) == 0) ==> {
            let v = visible_delta(d, player_corp, intel);
            &&& v.cash is None && v.revenue is None && v.cost is None && v.debt is None
            &&& v.avg_utilization_bits is None && v.avg_health_bits is None && v.total_throughput_bits is None
        },
        (player_corp != Some(d.corp_id) && intel_level(intel, d.corp_id) == 1) ==> {
            let v = visible_delta(d, player_corp, intel);
            &&& v.cash == approx_opt(d.cash) && v.revenue == approx_opt(d.revenue)
            &&& v.cost == approx_opt(d.cost) && v.debt == approx_opt(d.debt)
            &&& v.avg_utilization_bits is None && v.avg_health_bits is None && v.total_throughput_bits is None
        },
        (player_corp != Some(d.corp_id) && intel_level(intel, d.corp_id) == 2) ==> {
            let v = visible_delta(d, player_corp, intel);
            &&& v.cash == d.cash && v.revenue == d.revenue && v.cost == d.cost && v.debt == d.debt
            &&& v.avg_utilization_bits is None && v.avg_health_bits is None && v.total_throughput_bits is None
        },
{
}

/// Global events reach every player, and no player receives an event that
/// is not in the update.
pub proof fn global_events_reach_everyone(evs: Seq<EventView>, player_corp: Option<EntityId>, e: EventView)
    requires
        evs.contains(e),
        e.related_corps.len() == 0,
    ensures
        visible_events(evs, player_corp).contains(e),
    decreases evs.len(),
{
    let i = choose|i: int| 0 <= i < evs.len() && evs[i] == e;
    if i == evs.len() - 1 {
        assert(visible_events(evs, player_corp).last() == e);
    } else {
        assert(evs.drop_last()[i] == e);
        global_events_reach_everyone(evs.drop_last(), player_corp, e);
        let w = visible_events(evs.drop_last(), player_corp);
        let j = choose|j: int| 0 <= j < w.len() && w[j] == e;
        if event_visible(evs.last(), player_corp) {
            assert(w.push(evs.last())[j] == e);
        }
    }
}

/// An event that concerns a player's corporation (wherever it stands among
/// the corporations the event concerns) reaches that player.
pub proof fn events_reach_their_corporations(evs: Seq<EventView>, c: EntityId, e: EventView)
    requires
        evs.contains(e),
        e.related_corps.contains(c),
    ensures
        visible_events(evs, Some(c)).contains(e),
    decreases evs.len(),
{
    let i = choose|i: int| 0 <= i < evs.len() && evs[i] == e;
    if i == evs.len() - 1 {
        assert(visible_events(evs, Some(c)).last() == e);
    } else {
        assert(evs.drop_last()[i] == e);
        events_reach_their_corporations(evs.drop_last(), c, e);
        let w = visible_events(evs.drop_last(), Some(c));
        let j = choose|j: int| 0 <= j < w.len() && w[j] == e;
        if event_visible(evs.last(), Some(c)) {
            assert(w.push(evs.last())[j] == e);
        }
    }
}

/// A player receives only events of the update that are global or concern
/// their own corporation.
pub proof fn delivered_events_concern_the_player(evs: Seq<EventView>, player_corp: Option<EntityId>, e: EventView)
    requires
        visible_events(evs, player_corp).contains(e),
    ensures
        evs.contains(e),
        e.related_corps.len() == 0 || (player_corp is Some && e.related_corps.contains(player_corp->0)),
    decreases evs.len(),
{
    if evs.len() > 0 {
        let w = visible_events(evs.drop_last(), player_corp);
        let j = choose|j: int| 0 <= j < visible_events(evs, player_corp).len() && visible_events(evs, player_corp)[j] == e;
        if event_visible(evs.last(), player_corp) && j == w.len() {
            assert(evs[evs.len() - 1] == e);
        } else {
            if event_visible(evs.last(), player_corp) {
                assert(w.push(evs.last())[j] == w[j]);
            }
            assert(w[j] == e);
            delivered_events_concern_the_player(evs.drop_last(), player_corp, e);
            let k = choose|k: int| 0 <= k < evs.drop_last().len() && evs.drop_last()[k] == e;
            assert(evs[k] == e);
        }
    }
}

/// A non-spectator player of corporation `c` finds in their filtered update
/// every event of the update that concerns `c`.
pub proof fn filtered_update_delivers_own_events(
    u: TickUpdateView,
    c: EntityId,
    intel: Map<EntityId, u8>,
    e: EventView,
)
    requires
        u.events.contains(e),
        e.related_corps.contains(c),
    ensures
        filtered_update(u, Some(c), false, intel).events.contains(e),
{
    events_reach_their_corporations(u.events, c, e);
}

fn approx_option(v: Option<i64>) -> (r: Option<i64>)
    ensures
        r == approx_opt(v),
{
    match v {
        Some(x) => Some(approximate_money(x)),
        None => None,
    }
}

/// What a player sees of one corporation's delta.
pub fn filter_delta(delta: &CorpDelta, player_corp_id: Option<EntityId>, intel_levels: &HashMap<EntityId, u8>) -> (r: CorpDelta)
    ensures
        r == visible_delta(*delta, player_corp_id, intel_levels@),
{
    if player_corp_id == Some(delta.corp_id) {
        return *delta;
    }
    let intel: u8 = match intel_levels.get(&delta.corp_id) {
        Some(level) => *level,
        None => 0,
    };
    if intel == 0 {
        CorpDelta {
            corp_id: delta.corp_id,
            node_count: delta.node_count,
            cash: None,
            revenue: None,
            cost: None,
            debt: None,
            avg_utilization_bits: None,
            avg_health_bits: None,
            total_throughput_bits: None,
        }
    } else if intel == 1 {
        CorpDelta {
            corp_id: delta.corp_id,
            node_count: delta.node_count,
            cash: approx_option(delta.cash),
            revenue: approx_option(delta.revenue),
            cost: approx_option(delta.cost),
            debt: approx_option(delta.debt),
            avg_utilization_bits: None,
            avg_health_bits: None,
            total_throughput_bits: None,
        }
    } else if intel == 2 {
        CorpDelta {
            corp_id: delta.corp_id,
            node_count: delta.node_count,
            cash: delta.cash,
            revenue: delta.revenue,
            cost: delta.cost,
            debt: delta.debt,
            avg_utilization_bits: None,
            avg_health_bits: None,
            total_throughput_bits: None,
        }
    } else {
        *delta
    }
}

fn copy_event(e: &EventTag) -> (r: EventTag)
    ensures
        r@ == e@,
{
    let mut corps: Vec<EntityId> = Vec::new();
    let mut i: usize = 0;
    while i < e.related_corps.len()
        invariant
            i <= e.related_corps.len(),
            corps@ == e.related_corps@.take(i as int),
        decreases e.related_corps.len() - i,
    {
        corps.push(e.related_corps[i]);
        proof {
            assert(e.related_corps@.take(i + 1) =~= e.related_corps@.take(i as int).push(e.related_corps@[i as int]));
        }
        i += 1;
    }
    proof {
        assert(e.related_corps@.take(e.related_corps@.len() as int) =~= e.related_corps@);
    }
    EventTag { index: e.index, related_corps: corps }
}

fn contains_corp(corps: &Vec<EntityId>, corp: EntityId) -> (b: bool)
    ensures
        b == corps@.contains(corp),
{
    let mut i: usize = 0;
    while i < corps.len()
        invariant
            i <= corps.len(),
            forall|j: int| 0 <= j < i ==> corps@[j] != corp,
        decreases corps.len() - i,
    {
        if corps[i] == corp {
            return true;
        }
        i += 1;
    }
    false
}

/// Whether a player receives an event.
pub fn is_event_visible(event: &EventTag, player_corp_id: Option<EntityId>) -> (b: bool)
    ensures
        b == event_visible(event@, player_corp_id),
        b <==> (event.related_corps@.len() == 0
            || (player_corp_id is Some && event.related_corps@.contains(player_corp_id->0))),
{
    if event.related_corps.len() == 0 {
        return true;
    }
    match player_corp_id {
        Some(pc) => contains_corp(&event.related_corps, pc),
        None => false,
    }
}

/// Filter a tick update for one player's view of the world.
pub fn filter_tick_update_for_player(
    update: &TickUpdate,
    player_corp_id: Option<EntityId>,
    is_spectator: bool,
    intel_levels: &HashMap<EntityId, u8>,
) -> (r: TickUpdate)
    ensures
        r@ == filtered_update(update@, player_corp_id, is_spectator, intel_levels@),
{
    let mut deltas: Vec<CorpDelta> = Vec::new();
    let mut i: usize = 0;
    while i < update.corp_updates.len()
        invariant
            i <= update.corp_updates.len(),
            deltas@.len() == i,
            forall|j: int| 0 <= j < i ==> #[trigger] deltas@[j] == (if is_spectator {
                update.corp_updates@[j]
            } else {
                visible_delta(update.corp_updates@[j], player_corp_id, intel_levels@)
            }),
        decreases update.corp_updates.len() - i,
    {
        let d = if is_spectator {
            update.corp_updates[i]
        } else {
            filter_delta(&update.corp_updates[i], player_corp_id, intel_levels)
        };
        deltas.push(d);
        i += 1;
    }
    let ghost evs = update@.events;
    let mut events: Vec<EventTag> = Vec::new();
    let mut k: usize = 0;
    while k < update.events.len()
        invariant
            k <= update.events.len(),
            evs == update.events@.map_values(|e: EventTag| e@),
            events@.map_values(|e: EventTag| e@) == (if is_spectator {
                evs.take(k as int)
            } else {
                visible_events(evs.take(k as int), player_corp_id)
            }),
        decreases update.events.len() - k,
    {
        let e = &update.events[k];
        proof {
            assert(evs.take(k + 1).drop_last() =~= evs.take(k as int));
            assert(evs.take(k + 1).last() == e@);
        }
        if is_spectator || is_event_visible(e, player_corp_id) {
            let ghost before = events@;
            events.push(copy_event(e));
            proof {
                assert(events@.map_values(|x: EventTag| x@) =~= before.map_values(|x: EventTag| x@).push(e@));
            }
        }
        k += 1;
    }
    proof {
        assert(evs.take(evs.len() as int) =~= evs);
        let r = TickUpdate { tick: update.tick, corp_updates: deltas, events };
        if is_spectator {
            assert(deltas@ =~= update.corp_updates@);
        } else {
            assert(deltas@ =~= update.corp_updates@.map_values(|d: CorpDelta| visible_delta(d, player_corp_id, intel_levels@)));
        }
    }
    TickUpdate { tick: update.tick, corp_updates: deltas, events }
}

} // verus!
