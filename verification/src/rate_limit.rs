//! Per-category sliding-window rate limiting of client messages.

use std::time::Instant;
use vstd::prelude::*;

use crate::clock::{instant_now, micros_since};
use crate::command::{categorize_command, category_of, Command, CommandCategory};

verus! {

/// One second, in microseconds.
pub const SECOND_US: u64 = 1_000_000;
/// Window of the research limit: 5 seconds.
pub const RESEARCH_WINDOW_US: u64 = 5_000_000;
/// Window of the espionage limit: 30 seconds.
pub const ESPIONAGE_WINDOW_US: u64 = 30_000_000;

/// The entries of `ts` that are still inside a window of length `window` ending at `now`.
pub open spec fn prune(ts: Seq<u64>, now: u64, window: u64) -> Seq<u64>
    decreases ts.len(),
{
    if ts.len() == 0 {
        ts
    } else if ts.last() + window > now {
        prune(ts.drop_last(), now, window).push(ts.last())
    } else {
        prune(ts.drop_last(), now, window)
    }
}

/// One sliding-window check: prune, then admit (recording `now`) if fewer
/// than `max` entries remain. Returns whether the event is admitted and the new entries.
pub open spec fn window_step(ts: Seq<u64>, now: u64, window: u64, max: nat) -> (bool, Seq<u64>) {
    let kept = prune(ts, now, window);
    if kept.len() >= max {
        (false, kept)
    } else {
        (true, kept.push(now))
    }
}

/// Pruning never adds entries.
proof fn lemma_prune_len(ts: Seq<u64>, now: u64, window: u64)
    ensures
        prune(ts, now, window).len() <= ts.len(),
    decreases ts.len(),
{
    if ts.len() > 0 {
        lemma_prune_len(ts.drop_last(), now, window);
    }
}

/// Entries that are still inside the window survive pruning, in place at the end.
proof fn lemma_prune_recent_tail(a: Seq<u64>, s: Seq<u64>, now: u64, window: u64)
    requires
        forall|i: int| 0 <= i < s.len() ==> #[trigger] s[i] + window > now,
    ensures
        prune(a + s, now, window) == prune(a, now, window) + s,
    decreases s.len(),
{
    if s.len() == 0 {
        assert(a + s =~= a);
        assert(prune(a, now, window) + s =~= prune(a, now, window));
    } else {
        let s0 = s.drop_last();
        assert forall|i: int| 0 <= i < s0.len() implies #[trigger] s0[i] + window > now by {
            assert(s0[i] == s[i]);
        }
        lemma_prune_recent_tail(a, s0, now, window);
        assert((a + s).drop_last() =~= a + s0);
        assert((a + s).last() == s.last());
        assert(s[s.len() - 1] + window > now);
        assert(prune(a, now, window) + s =~= (prune(a, now, window) + s0).push(s.last()));
    }
}

/// Feeds the event times `times`, in order, to a window that starts with
/// entries `ts`. Returns how many events were admitted and the final entries.
pub open spec fn run_window(ts: Seq<u64>, times: Seq<u64>, window: u64, max: nat) -> (nat, Seq<u64>)
    decreases times.len(),
{
    if times.len() == 0 {
        (0, ts)
    } else {
        let (count, entries) = run_window(ts, times.drop_last(), window, max);
        let (admitted, next) = window_step(entries, times.last(), window, max);
        (if admitted { count + 1 } else { count }, next)
    }
}

proof fn lemma_run_window_invariant(ts: Seq<u64>, times: Seq<u64>, window: u64, max: nat, k: int)
    requires
        0 <= k <= times.len(),
        times.len() > 0,
        forall|i: int, j: int| 0 <= i <= j < times.len() ==> times[i] <= times[j],
        times.last() < times[0] + window,
    ensures
        ({
            let (count, entries) = run_window(ts, times.take(k), window, max);
            &&& count <= entries.len()
            &&& forall|i: int| entries.len() - count <= i < entries.len() ==> #[trigger] entries[i] >= times[0]
            &&& count > 0 ==> entries.len() <= max
        }),
    decreases k,
{
    if k > 0 {
        lemma_run_window_invariant(ts, times, window, max, k - 1);
        let prefix = times.take(k);
        assert(prefix.drop_last() =~= times.take(k - 1));
        let (count, entries) = run_window(ts, times.take(k - 1), window, max);
        let now = times[k - 1];
        assert(prefix.last() == now);
        let m = entries.len() - count;
        let head = entries.take(m);
        let tail = entries.skip(m);
        assert(entries =~= head + tail);
        assert forall|i: int| 0 <= i < tail.len() implies #[trigger] tail[i] + window > now by {
            assert(tail[i] == entries[m + i]);
            assert(times[k - 1] <= times[times.len() - 1]);
        }
        lemma_prune_recent_tail(head, tail, now, window);
        lemma_prune_len(head, now, window);
        lemma_prune_len(entries, now, window);
        let kept = prune(entries, now, window);
        assert(kept == prune(head, now, window) + tail);
        assert(times[0] <= now);
        if kept.len() >= max {
        } else {
            let next = kept.push(now);
            assert forall|i: int| next.len() - (count + 1) <= i < next.len() implies #[trigger] next[i] >= times[0] by {
                if i < next.len() - 1 {
                    assert(next[i] == kept[i]);
                    let pk = prune(head, now, window);
                    assert(kept[i] == tail[i - pk.len()]);
                    assert(tail[i - pk.len()] == entries[m + i - pk.len()]);
                }
            }
        }
        assert forall|i: int| kept.len() - count <= i < kept.len() implies #[trigger] kept[i] >= times[0] by {
            let pk = prune(head, now, window);
            assert(kept[i] == tail[i - pk.len()]);
            assert(tail[i - pk.len()] == entries[m + i - pk.len()]);
        }
    } else {
        assert(times.take(0) =~= Seq::<u64>::empty());
    }
}

/// However a window starts, among events whose times all fall within one
/// window length of the first, at most `max` are admitted.
pub proof fn at_most_max_per_window(ts: Seq<u64>, times: Seq<u64>, window: u64, max: nat)
    requires
        times.len() > 0,
        forall|i: int, j: int| 0 <= i <= j < times.len() ==> times[i] <= times[j],
        times.last() < times[0] + window,
    ensures
        run_window(ts, times, window, max).0 <= max,
{
    lemma_run_window_invariant(ts, times, window, max, times.len() as int);
    assert(times.take(times.len() as int) =~= times);
}

/// A window that holds at most `max` entries still does after a check, and an
/// admitted event is recorded at the end.
pub proof fn window_step_respects_limit(ts: Seq<u64>, now: u64, window: u64, max: nat)
    requires
        ts.len() <= max,
    ensures
        window_step(ts, now, window, max).1.len() <= max,
        window_step(ts, now, window, max).0 ==> window_step(ts, now, window, max).1.last() == now,
        !window_step(ts, now, window, max).0 ==> window_step(ts, now, window, max).1.len() == max,
{
    lemma_prune_len(ts, now, window);
}

/// Pruning drops an entry that is out of the window.
proof fn lemma_prune_drops_expired(ts: Seq<u64>, now: u64, window: u64, i: int)
    requires
        0 <= i < ts.len(),
        ts[i] + window <= now,
    ensures
        prune(ts, now, window).len() < ts.len(),
    decreases ts.len(),
{
    let p = ts.drop_last();
    if i == ts.len() - 1 {
        lemma_prune_len(p, now, window);
    } else {
        assert(p[i] == ts[i]);
        lemma_prune_drops_expired(p, now, window, i);
    }
}

/// Once an entry of a window holding at most `max` entries has aged out of
/// it, the next check is admitted: a limiter that refused a burst accepts
/// again a window length after the burst's first admitted event.
pub proof fn room_after_expiry(ts: Seq<u64>, now: u64, window: u64, max: nat, i: int)
    requires
        ts.len() <= max,
        0 <= i < ts.len(),
        ts[i] + window <= now,
    ensures
        window_step(ts, now, window, max).0,
        window_step(ts, now, window, max).1 == prune(ts, now, window).push(now),
{
    lemma_prune_drops_expired(ts, now, window, i);
}

/// A rejected check leaves only the entries still inside the window; `now`
/// is not recorded.
pub proof fn rejection_records_nothing(ts: Seq<u64>, now: u64, window: u64, max: nat)
    ensures
        !window_step(ts, now, window, max).0 ==> window_step(ts, now, window, max).1 == prune(ts, now, window),
{
}

/// Each command category's window and maximum: building 3 per second,
/// financial 2 per second, research 1 per 5 seconds, espionage 1 per 30
/// seconds and anything else 10 per second (times in microseconds).
pub proof fn category_limits_are_as_documented(c: CommandCategory)
    ensures
        c == CommandCategory::Build ==> category_limit(c) == (1_000_000u64, 3nat),
        c == CommandCategory::Financial ==> category_limit(c) == (1_000_000u64, 2nat),
        c == CommandCategory::Research ==> category_limit(c) == (5_000_000u64, 1nat),
        c == CommandCategory::Espionage ==> category_limit(c) == (30_000_000u64, 1nat),
        c == CommandCategory::General ==> category_limit(c) == (1_000_000u64, 10nat),
{
}

/// A check is admitted whenever fewer than `max` of the window's entries lie
/// within `window` of `now`: entries at least `window` old never count
/// against a new event.
pub proof fn admitted_below_limit(ts: Seq<u64>, now: u64, window: u64, max: nat)
    requires
        ts.filter(|t: u64| t + window > now).len() < max,
    ensures
        window_step(ts, now, window, max).0,
        window_step(ts, now, window, max).1.last() == now,
{
    lemma_prune_is_filter(ts, now, window);
}

/// Pruning keeps exactly the entries still inside the window, in order.
proof fn lemma_prune_is_filter(ts: Seq<u64>, now: u64, window: u64)
    ensures
        prune(ts, now, window) == ts.filter(|t: u64| t + window > now),
    decreases ts.len(),
{
    reveal(Seq::filter);
    if ts.len() > 0 {
        lemma_prune_is_filter(ts.drop_last(), now, window);
    }
}

/// Every check keeps a limiter within its limits: whatever the time, a typed
/// command check, a general check or a chat check never leaves a window with
/// more entries than its maximum.
pub proof fn checks_stay_within_limits(v: LimiterView, c: CommandCategory, now: u64)
    requires
        v.within_limits(),
    ensures
        v.with(c, window_step(v.of(c), now, category_limit(c).0, category_limit(c).1).1).within_limits(),
        (LimiterView { general: window_step(v.general, now, SECOND_US, 10).1, ..v }).within_limits(),
        (LimiterView { chat: window_step(v.chat, now, CHAT_WINDOW_US, 5).1, ..v }).within_limits(),
{
    window_step_respects_limit(v.of(c), now, category_limit(c).0, category_limit(c).1);
    window_step_respects_limit(v.general, now, SECOND_US, 10);
    window_step_respects_limit(v.chat, now, CHAT_WINDOW_US, 5);
}

/// The window length (microseconds) and maximum count of each command category.
pub open spec fn category_limit(c: CommandCategory) -> (u64, nat) {
    match c {
        CommandCategory::Build => (SECOND_US, 3),
        CommandCategory::Financial => (SECOND_US, 2),
        CommandCategory::Research => (RESEARCH_WINDOW_US, 1),
        CommandCategory::Espionage => (ESPIONAGE_WINDOW_US, 1),
        CommandCategory::General => (SECOND_US, 10),
    }
}

/// Window of the chat limit: 10 seconds.
pub const CHAT_WINDOW_US: u64 = 10_000_000;
/// At most 5 chat messages per chat window.
pub const CHAT_MAX: usize = 5;
/// At most 10 general commands per second.
pub const GENERAL_MAX: usize = 10;

/// Per-type sliding window rate limiter. Different command categories have
/// different limits; chat has its own.
pub struct RateLimiter {
    origin: Instant,
    build_timestamps: Vec<u64>,
    financial_timestamps: Vec<u64>,
    research_timestamps: Vec<u64>,
    espionage_timestamps: Vec<u64>,
    general_timestamps: Vec<u64>,
    chat_timestamps: Vec<u64>,
}

/// The recorded admission times (microseconds since the limiter was created)
/// of every window the limiter keeps.
pub struct LimiterView {
    pub build: Seq<u64>,
    pub financial: Seq<u64>,
    pub research: Seq<u64>,
    pub espionage: Seq<u64>,
    pub general: Seq<u64>,
    pub chat: Seq<u64>,
}

impl LimiterView {
    /// The recorded times of a command category.
    pub open spec fn of(self, c: CommandCategory) -> Seq<u64> {
        match c {
            CommandCategory::Build => self.build,
            CommandCategory::Financial => self.financial,
            CommandCategory::Research => self.research,
            CommandCategory::Espionage => self.espionage,
            CommandCategory::General => self.general,
        }
    }

    /// This view with the times of a category replaced.
    pub open spec fn with(self, c: CommandCategory, ts: Seq<u64>) -> LimiterView {
        match c {
            CommandCategory::Build => LimiterView { build: ts, ..self },
            CommandCategory::Financial => LimiterView { financial: ts, ..self },
            CommandCategory::Research => LimiterView { research: ts, ..self },
            CommandCategory::Espionage => LimiterView { espionage: ts, ..self },
            CommandCategory::General => LimiterView { general: ts, ..self },
        }
    }

    /// No window holds more entries than its limit allows.
    pub open spec fn within_limits(self) -> bool {
        &&& self.build.len() <= 3
        &&& self.financial.len() <= 2
        &&& self.research.len() <= 1
        &&& self.espionage.len() <= 1
        &&& self.general.len() <= 10
        &&& self.chat.len() <= 5
    }
}

impl View for RateLimiter {
    type V = LimiterView;

    closed spec fn view(&self) -> LimiterView {
        LimiterView {
            build: self.build_timestamps@,
            financial: self.financial_timestamps@,
            research: self.research_timestamps@,
            espionage: self.espionage_timestamps@,
            general: self.general_timestamps@,
            chat: self.chat_timestamps@,
        }
    }
}

/// Prunes `ts` in place and records `now` if fewer than `max` entries remain.
fn window_check(ts: &mut Vec<u64>, now: u64, window: u64, max: usize) -> (admitted: bool)
    ensures
        (admitted, final(ts)@) == window_step(old(ts)@, now, window, max as nat),
{
    let ghost src = old(ts)@;
    let mut kept: Vec<u64> = Vec::new();
    let mut i: usize = 0;
    while i < ts.len()
        invariant
            ts@ == src,
            i <= ts.len(),
            kept@ == prune(src.take(i as int), now, window),
        decreases ts.len() - i,
    {
        let t = ts[i];
        proof {
            assert(src.take(i + 1).drop_last() =~= src.take(i as int));
            assert(src.take(i + 1).last() == t);
        }
        if (t as u128) + (window as u128) > (now as u128) {
            kept.push(t);
        }
        i += 1;
    }
    proof {
        assert(src.take(src.len() as int) =~= src);
    }
    if kept.len() >= max {
        *ts = kept;
        false
    } else {
        kept.push(now);
        *ts = kept;
        true
    }
}

impl RateLimiter {
    /// A limiter with every window empty, whose clock starts now.
    pub fn new() -> (r: RateLimiter)
        ensures
            r@.build.len() == 0,
            r@.financial.len() == 0,
            r@.research.len() == 0,
            r@.espionage.len() == 0,
            r@.general.len() == 0,
            r@.chat.len() == 0,
    {
        RateLimiter {
            origin: instant_now(),
            build_timestamps: Vec::new(),
            financial_timestamps: Vec::new(),
            research_timestamps: Vec::new(),
            espionage_timestamps: Vec::new(),
            general_timestamps: Vec::new(),
            chat_timestamps: Vec::new(),
        }
    }

    /// Global fallback: at most 10 commands per second, checked at time `now`
    /// (microseconds since the limiter was created).
    pub fn check_command_at(&mut self, now: u64) -> (allowed: bool)
        ensures
            (allowed, final(self)@.general) == window_step(old(self)@.general, now, SECOND_US, 10),
            final(self)@ == (LimiterView { general: final(self)@.general, ..old(self)@ }),
    {
        window_check(&mut self.general_timestamps, now, SECOND_US, GENERAL_MAX)
    }

    /// Global fallback: at most 10 commands per second. Returns true if allowed.
    pub fn check_command(&mut self) -> (allowed: bool)
        ensures
            exists|now: u64|
                (allowed, final(self)@.general) == #[trigger] window_step(old(self)@.general, now, SECOND_US, 10),
            final(self)@ == (LimiterView { general: final(self)@.general, ..old(self)@ }),
    {
        let now = micros_since(&self.origin);
        self.check_command_at(now)
    }

    /// Per-type rate limit check at time `now`. Returns true if allowed.
    pub fn check_typed_command_at(&mut self, command: &Command, now: u64) -> (allowed: bool)
        ensures
            ({
                let c = category_of(*command);
                let (window, max) = category_limit(c);
                (allowed, final(self)@.of(c)) == window_step(old(self)@.of(c), now, window, max)
                    && final(self)@ == old(self)@.with(c, final(self)@.of(c))
            }),
            category_of(*command) == CommandCategory::Build
                ==> (allowed, final(self)@.build) == window_step(old(self)@.build, now, 1_000_000, 3),
            category_of(*command) == CommandCategory::Financial
                ==> (allowed, final(self)@.financial) == window_step(old(self)@.financial, now, 1_000_000, 2),
            category_of(*command) == CommandCategory::Research
                ==> (allowed, final(self)@.research) == window_step(old(self)@.research, now, 5_000_000, 1),
            category_of(*command) == CommandCategory::Espionage
                ==> (allowed, final(self)@.espionage) == window_step(old(self)@.espionage, now, 30_000_000, 1),
            category_of(*command) == CommandCategory::General
                ==> (allowed, final(self)@.general) == window_step(old(self)@.general, now, 1_000_000, 10),
    {
        let category = categorize_command(command);
        match category {
            CommandCategory::Build => window_check(&mut self.build_timestamps, now, SECOND_US, 3),
            CommandCategory::Financial => window_check(&mut self.financial_timestamps, now, SECOND_US, 2),
            CommandCategory::Research => window_check(&mut self.research_timestamps, now, RESEARCH_WINDOW_US, 1),
            CommandCategory::Espionage => window_check(&mut self.espionage_timestamps, now, ESPIONAGE_WINDOW_US, 1),
            CommandCategory::General => window_check(&mut self.general_timestamps, now, SECOND_US, GENERAL_MAX),
        }
    }

    /// Per-type rate limit check. Returns true if allowed.
    pub fn check_typed_command(&mut self, command: &Command) -> (allowed: bool)
        ensures
            exists|now: u64|
                (allowed, final(self)@.of(category_of(*command))) == #[trigger] window_step(
                    old(self)@.of(category_of(*command)),
                    now,
                    category_limit(category_of(*command)).0,
                    category_limit(category_of(*command)).1,
                ),
            final(self)@ == old(self)@.with(category_of(*command), final(self)@.of(category_of(*command))),
    {
        let now = micros_since(&self.origin);
        self.check_typed_command_at(command, now)
    }

    /// Chat limit at time `now`: at most 5 messages per 10 seconds.
    pub fn check_chat_at(&mut self, now: u64) -> (allowed: bool)
        ensures
            (allowed, final(self)@.chat) == window_step(old(self)@.chat, now, CHAT_WINDOW_US, 5),
            final(self)@ == (LimiterView { chat: final(self)@.chat, ..old(self)@ }),
    {
        window_check(&mut self.chat_timestamps, now, CHAT_WINDOW_US, CHAT_MAX)
    }

    /// Chat limit: at most 5 messages per 10 seconds. Returns true if allowed.
    pub fn check_chat(&mut self) -> (allowed: bool)
        ensures
            exists|now: u64|
                (allowed, final(self)@.chat) == #[trigger] window_step(old(self)@.chat, now, CHAT_WINDOW_US, 5),
            final(self)@ == (LimiterView { chat: final(self)@.chat, ..old(self)@ }),
    {
        let now = micros_since(&self.origin);
        self.check_chat_at(now)
    }
}

} // verus!
