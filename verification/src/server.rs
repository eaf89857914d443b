//! Server-wide bookkeeping: connections per address, the audit log, online
//! presence, invite codes and the memory estimate.

use std::collections::HashMap;
use rand::Rng;
use vstd::prelude::*;

use crate::text::push_char;

verus! {

broadcast use vstd::std_specs::hash::group_hash_axioms;

/// Maximum WebSocket connections per IP address.
pub const MAX_CONNECTIONS_PER_IP: usize = 10;

/// A client address: IPv4 (as its 32-bit value) or IPv6 (as its 128-bit value).
#[derive(Clone, Copy, Debug, PartialEq, Eq, Structural)]
pub enum IpKey {
    V4(u32),
    V6(u128),
}

/// Open connections per client address.
pub struct IpConnections {
    v4: HashMap<u32, usize>,
    v6: HashMap<u128, usize>,
}

impl IpConnections {
    /// Open connections of every address (addresses with none are left out).
    pub closed spec fn counts(&self) -> Map<IpKey, usize> {
        Map::new(
            |k: IpKey| match k {
                IpKey::V4(a) => self.v4@.contains_key(a),
                IpKey::V6(a) => self.v6@.contains_key(a),
            },
            |k: IpKey| match k {
                IpKey::V4(a) => self.v4@[a],
                IpKey::V6(a) => self.v6@[a],
            },
        )
    }

    /// No address is kept with a count of zero.
    pub open spec fn wf(&self) -> bool {
        forall|k: IpKey| #[trigger] self.counts().contains_key(k) ==> self.counts()[k] > 0
    }

    /// No connections.
    pub fn new() -> (r: IpConnections)
        ensures
            r.wf(),
            r.counts() == Map::<IpKey, usize>::empty(),
    {
        let r = IpConnections { v4: HashMap::new(), v6: HashMap::new() };
        assert(r.counts() =~= Map::<IpKey, usize>::empty());
        r
    }

    /// Open connections of an address.
    pub fn count(&self, ip: IpKey) -> (n: usize)
        ensures
            n == (if self.counts().contains_key(ip) { self.counts()[ip] } else { 0 }),
    {
        match ip {
            IpKey::V4(a) => match self.v4.get(&a) {
                Some(n) => *n,
                None => 0,
            },
            IpKey::V6(a) => match self.v6.get(&a) {
                Some(n) => *n,
                None => 0,
            },
        }
    }

    /// Number of addresses with open connections.
    pub fn address_count(&self) -> (n: usize)
        ensures
            n as int == (if self.v4_len() + self.v6_len() <= usize::MAX {
                self.v4_len() + self.v6_len()
            } else {
                usize::MAX as nat
            }),
    {
        let a = self.v4.len();
        let b = self.v6.len();
        if a <= usize::MAX - b { a + b } else { usize::MAX }
    }

    /// IPv4 addresses with open connections.
    pub closed spec fn v4_len(&self) -> nat {
        self.v4@.len()
    }

    /// IPv6 addresses with open connections.
    pub closed spec fn v6_len(&self) -> nat {
        self.v6@.len()
    }

    /// Count one more connection of `ip`; returns the new count.
    pub fn ip_connect(&mut self, ip: IpKey) -> (n: usize)
        requires
            old(self).wf(),
            !old(self).counts().contains_key(ip) || old(self).counts()[ip] < usize::MAX,
        ensures
            final(self).wf(),
            n == (if old(self).counts().contains_key(ip) { old(self).counts()[ip] + 1 } else { 1 }),
            final(self).counts() == old(self).counts().insert(ip, n),
    {
        let n = self.count(ip) + 1;
        match ip {
            IpKey::V4(a) => {
                self.v4.insert(a, n);
            },
            IpKey::V6(a) => {
                self.v6.insert(a, n);
            },
        }
        proof {
            assert(self.counts() =~= old(self).counts().insert(ip, n));
        }
        n
    }

    /// Count one connection of `ip` less, forgetting the address at zero.
    pub fn ip_disconnect(&mut self, ip: IpKey)
        requires
            old(self).wf(),
        ensures
            final(self).wf(),
            !old(self).counts().contains_key(ip) ==> final(self).counts() == old(self).counts(),
            old(self).counts().contains_key(ip) && old(self).counts()[ip] > 1 ==> final(self).counts()
                == old(self).counts().insert(ip, (old(self).counts()[ip] - 1) as usize),
            old(self).counts().contains_key(ip) && old(self).counts()[ip] <= 1 ==> final(self).counts()
                == old(self).counts().remove(ip),
    {
        let n = self.count(ip);
        if n == 0 {
            return;
        }
        let m = n - 1;
        match ip {
            IpKey::V4(a) => {
                if m == 0 {
                    self.v4.remove(&a);
                } else {
                    self.v4.insert(a, m);
                }
            },
            IpKey::V6(a) => {
                if m == 0 {
                    self.v6.remove(&a);
                } else {
                    self.v6.insert(a, m);
                }
            },
        }
        proof {
            if m == 0 {
                assert(self.counts() =~= old(self).counts().remove(ip));
            } else {
                assert(self.counts() =~= old(self).counts().insert(ip, m));
            }
        }
    }
}

/// A connection followed by a disconnection of the same address leaves the
/// counts as they were, on counts where no address is kept at zero (which
/// every well-formed `IpConnections` has).
pub proof fn connect_then_disconnect(counts: Map<IpKey, usize>, ip: IpKey)
    requires
        forall|k: IpKey| #[trigger] counts.contains_key(k) ==> counts[k] > 0,
        !counts.contains_key(ip) || counts[ip] < usize::MAX,
    ensures
        ({
            let n: usize = if counts.contains_key(ip) { (counts[ip] + 1) as usize } else { 1 };
            let c1 = counts.insert(ip, n);
            let c2 = if c1[ip] > 1 { c1.insert(ip, (c1[ip] - 1) as usize) } else { c1.remove(ip) };
            c2 == counts
        }),
{
    let n: usize = if counts.contains_key(ip) { (counts[ip] + 1) as usize } else { 1 };
    let c1 = counts.insert(ip, n);
    if c1[ip] > 1 {
        assert(c1.insert(ip, (c1[ip] - 1) as usize) =~= counts);
    } else {
        assert(c1.remove(ip) =~= counts);
    }
}

/// Whether a new connection is over the per-address limit (the count
/// includes the new connection).
pub fn over_connection_limit(count: usize) -> (b: bool)
    ensures
        b == (count > MAX_CONNECTIONS_PER_IP),
{
    count > MAX_CONNECTIONS_PER_IP
}

/// Characters of invite codes: digits, then upper-case letters.
pub open spec fn invite_char(idx: int) -> char {
    if idx < 10 {
        (48 + idx) as char
    } else {
        (55 + idx) as char
    }
}

/// A digit or an upper-case ASCII letter.
pub open spec fn is_invite_char(c: char) -> bool {
    ('0' <= c && c <= '9') || ('A' <= c && c <= 'Z')
}

/// An invite code: 8 characters, each a digit or an upper-case ASCII letter.
pub open spec fn is_invite_code(s: Seq<char>) -> bool {
    s.len() == 8 && forall|i: int| 0 <= i < 8 ==> is_invite_char(#[trigger] s[i])
}

/// `rng.random_range(0..36)` on the thread-local generator (`rand::rng()`):
/// a random value below 36.
#[verifier::external_body]
fn random_below_36() -> (r: u8)
    ensures
        r < 36,
{
    rand::rng().random_range(0..36u8)
}

/// The invite-code character of a value below 36.
pub fn invite_char_of(idx: u8) -> (c: char)
    requires
        idx < 36,
    ensures
        c == invite_char(idx as int),
        is_invite_char(c),
{
    if idx < 10 {
        (48u8 + idx) as char
    } else {
        (55u8 + idx) as char
    }
}

/// Generate a random 8-character alphanumeric invite code.
pub fn generate_invite_code() -> (code: String)
    ensures
        is_invite_code(code@),
{
    let mut code = String::new();
    let mut i: usize = 0;
    while i < 8
        invariant
            i <= 8,
            code@.len() == i,
            forall|j: int| 0 <= j < i ==> is_invite_char(#[trigger] code@[j]),
        decreases 8 - i,
    {
        let idx = random_below_36();
        let c = invite_char_of(idx);
        let ghost before = code@;
        push_char(&mut code, c);
        proof {
            assert forall|j: int| 0 <= j < i + 1 implies is_invite_char(#[trigger] code@[j]) by {
                if j < i {
                    assert(code@[j] == before[j]);
                }
            }
        }
        i += 1;
    }
    code
}

/// Estimate of the memory that server state takes, in bytes: 256 per
/// account, 128 per connected player, 128 per audit entry, 256 per online
/// presence and 32 per address.
pub open spec fn memory_estimate(accounts: int, players: int, audit_entries: int, online: int, addresses: int) -> int {
    accounts * 256 + players * 128 + audit_entries * 128 + online * 256 + addresses * 32
}

/// Estimate the memory usage of server state in bytes.
pub fn memory_usage_estimate(accounts: usize, players: usize, audit_entries: usize, online: usize, addresses: usize) -> (bytes: u64)
    requires
        memory_estimate(accounts as int, players as int, audit_entries as int, online as int, addresses as int) <= u64::MAX,
    ensures
        bytes == memory_estimate(accounts as int, players as int, audit_entries as int, online as int, addresses as int),
{
    let mut bytes: u64 = 0;
    bytes += accounts as u64 * 256;
    bytes += players as u64 * 128;
    bytes += audit_entries as u64 * 128;
    bytes += online as u64 * 256;
    bytes += addresses as u64 * 32;
    bytes
}

/// Maximum number of entries kept in the in-memory audit log.
pub const MAX_AUDIT_LOG_ENTRIES: usize = 1000;

/// One entry of the audit log.
#[derive(Debug)]
pub struct AuditEntry {
    pub id: u64,
    pub actor: String,
    pub action: String,
    pub target: Option<String>,
    /// JSON text of extra details.
    pub details: Option<String>,
    pub ip_address: Option<String>,
    /// RFC 3339 time stamp.
    pub created_at: String,
}

/// The in-memory audit log: the most recent entries, oldest first.
pub struct AuditLog {
    entries: Vec<AuditEntry>,
    next_id: u64,
}

/// `s` with its oldest entries dropped so that at most `cap` remain.
pub open spec fn keep_last<T>(s: Seq<T>, cap: nat) -> Seq<T> {
    if s.len() > cap {
        s.skip(s.len() - cap)
    } else {
        s
    }
}

impl AuditLog {
    /// The kept entries, oldest first.
    pub closed spec fn entries_spec(&self) -> Seq<AuditEntry> {
        self.entries@
    }

    /// Id that the next entry gets.
    pub closed spec fn next_id_spec(&self) -> u64 {
        self.next_id
    }

    /// An empty log whose first entry gets id 1.
    pub fn new() -> (r: AuditLog)
        ensures
            r.entries_spec().len() == 0,
            r.next_id_spec() == 1,
    {
        AuditLog { entries: Vec::new(), next_id: 1 }
    }

    /// Number of kept entries.
    pub fn len(&self) -> (n: usize)
        ensures
            n == self.entries_spec().len(),
    {
        self.entries.len()
    }

    /// Log a player command (actor: the player id's text), then drop the
    /// oldest entries beyond 1000. Ids count up from 1, wrapping at `u64::MAX`.
    pub fn log_command(&mut self, actor: String, command_type: String, created_at: String)
        requires
            old(self).entries_spec().len() <= MAX_AUDIT_LOG_ENTRIES,
        ensures
            final(self).entries_spec().len() <= MAX_AUDIT_LOG_ENTRIES,
            final(self).next_id_spec() == (if old(self).next_id_spec() == u64::MAX { 0 } else { old(self).next_id_spec() + 1 }),
            final(self).entries_spec() == keep_last(
                old(self).entries_spec().push(AuditEntry {
                    id: old(self).next_id_spec(),
                    actor: actor,
                    action: command_type,
                    target: None,
                    details: None,
                    ip_address: None,
                    created_at: created_at,
                }),
                MAX_AUDIT_LOG_ENTRIES as nat,
            ),
    {
        let id = self.next_id;
        self.next_id = if self.next_id == u64::MAX { 0 } else { self.next_id + 1 };
        let entry = AuditEntry {
            id,
            actor,
            action: command_type,
            target: None,
            details: None,
            ip_address: None,
            created_at,
        };
        let ghost pushed = entry;
        self.entries.push(entry);
        let ghost full = self.entries@;
        assert(full == old(self).entries@.push(pushed));
        while self.entries.len() > MAX_AUDIT_LOG_ENTRIES
            invariant
                full.len() <= MAX_AUDIT_LOG_ENTRIES + 1,
                self.entries@ == (if self.entries@.len() == full.len() { full } else { full.skip(full.len() - MAX_AUDIT_LOG_ENTRIES) }),
                self.entries@.len() == full.len() || self.entries@.len() == MAX_AUDIT_LOG_ENTRIES,
                self.entries@.len() != full.len() ==> full.len() > MAX_AUDIT_LOG_ENTRIES,
                self.next_id == (if old(self).next_id == u64::MAX { 0 } else { old(self).next_id + 1 }),
            decreases self.entries@.len(),
        {
            self.entries.remove(0);
            proof {
                assert(full.skip(1) =~= full.subrange(1, full.len() as int));
            }
        }
        proof {
            if full.len() > MAX_AUDIT_LOG_ENTRIES {
                assert(self.entries@ == full.skip(full.len() - MAX_AUDIT_LOG_ENTRIES));
            } else {
                assert(self.entries@ == full);
            }
            assert(self.entries@ == keep_last(full, MAX_AUDIT_LOG_ENTRIES as nat));
        }
    }

    /// A page of the log: `offset` entries skipped, at most `limit` taken,
    /// both measured as the unsigned casts of the signed query values.
    pub fn page(&self, offset: i64, limit: i64) -> (r: Vec<&AuditEntry>)
        requires
            audit_page(self.entries_spec().len() as usize, offset, limit).0 + limit as usize <= usize::MAX,
        ensures
            r@.len() == audit_page(self.entries_spec().len() as usize, offset, limit).1
                - audit_page(self.entries_spec().len() as usize, offset, limit).0,
            forall|i: int| 0 <= i < r@.len() ==> *#[trigger] r@[i] == self.entries_spec()[
                audit_page(self.entries_spec().len() as usize, offset, limit).0 + i],
    {
        let (start, end) = audit_page_bounds(self.entries.len(), offset, limit);
        let mut r: Vec<&AuditEntry> = Vec::new();
        let mut i = start;
        while i < end
            invariant
                start <= i <= end <= self.entries@.len(),
                r@.len() == i - start,
                forall|j: int| 0 <= j < r@.len() ==> *#[trigger] r@[j] == self.entries@[start + j],
            decreases end - i,
        {
            r.push(&self.entries[i]);
            i += 1;
        }
        r
    }
}

/// Bounds `(start, end)` of an audit-log page over `total` entries.
pub open spec fn audit_page(total: usize, offset: i64, limit: i64) -> (usize, usize) {
    let start = if (offset as usize) < total { offset as usize } else { total };
    let end_raw = start + limit as usize;
    let end = if end_raw < total { end_raw as usize } else { total };
    (start, end)
}

/// Bounds of an audit-log page: `start = min(offset, total)` and
/// `end = min(start + limit, total)`, with the query values cast to `usize`.
pub fn audit_page_bounds(total: usize, offset: i64, limit: i64) -> (r: (usize, usize))
    requires
        audit_page(total, offset, limit).0 + limit as usize <= usize::MAX,
    ensures
        r == audit_page(total, offset, limit),
        r.0 <= r.1 <= total,
{
    let o = offset as usize;
    let start = if o < total { o } else { total };
    let l = limit as usize;
    let end = if start + l < total { start + l } else { total };
    (start, end)
}

} // verus!
