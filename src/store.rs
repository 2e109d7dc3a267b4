//! The entry store: which source messages have a watched relay, and until when.
//! Keys (guild, source message) are unique; that uniqueness is what keeps
//! racing creations down to one entry. `EntryStore` holds the rows in memory
//! with exactly the operations a persistent table offers for them (read,
//! insert-if-absent, delete, sweep), so that a deployment backed by a database
//! issues the same statements and the store's properties can be stated here.
use vstd::prelude::*;

verus! {

/// How long a relay stays watched after it is posted, in seconds.
pub const RELAY_TTL_SECS: i64 = 1210000;

/// How often the expiry sweep runs, in seconds.
pub const SWEEP_INTERVAL_SECS: u64 = 345600;

/// The link between a source message and its relay message.
#[derive(Clone, Copy, Debug, PartialEq, Eq, Structural)]
pub struct StarboardEntry {
    pub guild_id: u64,
    pub source_message_id: u64,
    pub relay_message_id: u64,
    /// Seconds since the Unix epoch after which the entry is dropped.
    pub expires_at: i64,
}

impl StarboardEntry {
    pub open spec fn key(self) -> (u64, u64) {
        (self.guild_id, self.source_message_id)
    }

    pub open spec fn expired(self, now: i64) -> bool {
        self.expires_at <= now
    }
}

/// Whether some row of `rows` has the key `(guild_id, message_id)`.
pub open spec fn has_key(rows: Seq<StarboardEntry>, guild_id: u64, message_id: u64) -> bool {
    exists|i: int| 0 <= i < rows.len() && (#[trigger] rows[i]).key() == (guild_id, message_id)
}

/// No two rows share a key.
pub open spec fn unique_keys(rows: Seq<StarboardEntry>) -> bool {
    forall|i: int, j: int|
        0 <= i < rows.len() && 0 <= j < rows.len() && i != j ==> (#[trigger] rows[i]).key()
            != (#[trigger] rows[j]).key()
}

/// The rows after an insert that is ignored where the key is present.
pub open spec fn inserted(rows: Seq<StarboardEntry>, e: StarboardEntry) -> Seq<StarboardEntry> {
    if has_key(rows, e.guild_id, e.source_message_id) {
        rows
    } else {
        rows.push(e)
    }
}

/// The expiry instant of a relay posted at `now`.
pub open spec fn expiry_of(now: i64) -> int {
    now + RELAY_TTL_SECS
}

/// The expiry instant of a relay posted at `now` (seconds since the Unix epoch).
pub fn expiry_after(now: i64) -> (r: i64)
    requires
        now <= i64::MAX - RELAY_TTL_SECS,
    ensures
        r == expiry_of(now),
{
    now + RELAY_TTL_SECS
}

/// The rows still in force at `now`.
pub open spec fn in_force(now: i64) -> spec_fn(StarboardEntry) -> bool {
    |e: StarboardEntry| !e.expired(now)
}

/// The rows expired at `now`.
pub open spec fn expired_at(now: i64) -> spec_fn(StarboardEntry) -> bool {
    |e: StarboardEntry| e.expired(now)
}

proof fn lemma_filter_keeps_unique(rows: Seq<StarboardEntry>, p: spec_fn(StarboardEntry) -> bool)
    requires
        unique_keys(rows),
    ensures
        unique_keys(rows.filter(p)),
    decreases rows.len(),
{
    broadcast use vstd::seq_lib::group_seq_properties;

    reveal(Seq::filter);
    if rows.len() > 0 {
        let rest = rows.drop_last();
        assert forall|i: int, j: int|
            0 <= i < rest.len() && 0 <= j < rest.len() && i != j implies (#[trigger] rest[i]).key()
                != (#[trigger] rest[j]).key() by {
            assert(rest[i] == rows[i]);
            assert(rest[j] == rows[j]);
        }
        lemma_filter_keeps_unique(rest, p);
        let sub = rest.filter(p);
        let last = rows.last();
        if p(last) {
            let out = sub.push(last);
            assert forall|i: int, j: int|
                0 <= i < out.len() && 0 <= j < out.len() && i != j implies (#[trigger] out[i]).key()
                    != (#[trigger] out[j]).key() by {
                if i == sub.len() || j == sub.len() {
                    let k = if i == sub.len() { j } else { i };
                    assert(sub.contains(sub[k]));
                    rest.lemma_filter_contains_rev(p, sub[k]);
                    let m = choose|m: int| 0 <= m < rest.len() && rest[m] == sub[k];
                    assert(rows[m] == sub[k]);
                    assert(rows[rows.len() - 1] == last);
                }
            }
        }
    }
}

/// Splits `rows` into those still in force at `now` and those expired, each in
/// the order of `rows`.
fn partition_expired(rows: &Vec<StarboardEntry>, now: i64) -> (r: (Vec<StarboardEntry>, Vec<StarboardEntry>))
    ensures
        r.0@ == rows@.filter(in_force(now)),
        r.1@ == rows@.filter(expired_at(now)),
{
    let mut kept: Vec<StarboardEntry> = Vec::new();
    let mut gone: Vec<StarboardEntry> = Vec::new();
    let mut i: usize = 0;
    proof {
        reveal(Seq::filter);
        assert(rows@.take(0) =~= Seq::<StarboardEntry>::empty());
    }
    while i < rows.len()
        invariant
            i <= rows.len(),
            kept@ == rows@.take(i as int).filter(in_force(now)),
            gone@ == rows@.take(i as int).filter(expired_at(now)),
        decreases rows.len() - i,
    {
        let e = rows[i];
        proof {
            reveal(Seq::filter);
            assert(rows@.take(i + 1).drop_last() =~= rows@.take(i as int));
            assert(rows@.take(i + 1).last() == e);
        }
        if e.expires_at <= now {
            gone.push(e);
        } else {
            kept.push(e);
        }
        i = i + 1;
    }
    assert(rows@.take(i as int) =~= rows@);
    (kept, gone)
}

/// The entries of `rows` that are expired at `now`: those the sweep drops.
pub fn expired_entries(rows: &Vec<StarboardEntry>, now: i64) -> (r: Vec<StarboardEntry>)
    ensures
        r@ == rows@.filter(expired_at(now)),
{
    let (_, gone) = partition_expired(rows, now);
    gone
}

/// The set of watched relays.
pub struct EntryStore {
    entries: Vec<StarboardEntry>,
}

impl View for EntryStore {
    type V = Seq<StarboardEntry>;

    closed spec fn view(&self) -> Seq<StarboardEntry> {
        self.entries@
    }
}

impl EntryStore {
    /// Keys are unique.
    pub open spec fn wf(&self) -> bool {
        unique_keys(self@)
    }

    pub fn new() -> (r: EntryStore)
        ensures
            r@ == Seq::<StarboardEntry>::empty(),
            r.wf(),
    {
        EntryStore { entries: Vec::new() }
    }

    /// The number of watched relays.
    pub fn len(&self) -> (r: usize)
        ensures
            r == self@.len(),
    {
        self.entries.len()
    }

    fn position(&self, guild_id: u64, message_id: u64) -> (r: Option<usize>)
        ensures
            match r {
                Some(i) => i < self@.len() && self@[i as int].key() == (guild_id, message_id),
                None => !has_key(self@, guild_id, message_id),
            },
    {
        let mut i: usize = 0;
        while i < self.entries.len()
            invariant
                i <= self.entries@.len(),
                forall|j: int| 0 <= j < i ==> (#[trigger] self.entries@[j]).key() != (guild_id, message_id),
            decreases self.entries.len() - i,
        {
            if self.entries[i].guild_id == guild_id && self.entries[i].source_message_id == message_id {
                return Some(i);
            }
            i = i + 1;
        }
        None
    }

    /// The entry for a source message, if its relay is watched.
    pub fn lookup(&self, guild_id: u64, message_id: u64) -> (r: Option<StarboardEntry>)
        ensures
            match r {
                Some(e) => self@.contains(e) && e.key() == (guild_id, message_id),
                None => !has_key(self@, guild_id, message_id),
            },
    {
        match self.position(guild_id, message_id) {
            Some(i) => Some(self.entries[i]),
            None => None,
        }
    }

    /// Whether a relay is watched for the source message.
    pub fn check_starboard_message(&self, guild_id: u64, message_id: u64) -> (r: bool)
        ensures
            r == has_key(self@, guild_id, message_id),
    {
        self.position(guild_id, message_id).is_some()
    }

    /// Records a relay unless its source message already has one; a duplicate
    /// is ignored. Returns whether the entry was added.
    pub fn insert_if_absent(&mut self, entry: StarboardEntry) -> (r: bool)
        requires
            old(self).wf(),
        ensures
            final(self).wf(),
            final(self)@ == inserted(old(self)@, entry),
            r == !has_key(old(self)@, entry.guild_id, entry.source_message_id),
    {
        match self.position(entry.guild_id, entry.source_message_id) {
            Some(_) => false,
            None => {
                self.entries.push(entry);
                assert(final(self)@ == old(self)@.push(entry));
                assert forall|i: int, j: int|
                    0 <= i < final(self)@.len() && 0 <= j < final(self)@.len() && i != j
                        implies (#[trigger] final(self)@[i]).key() != (#[trigger] final(self)@[j]).key() by {
                    if i == old(self)@.len() as int {
                        assert(old(self)@[j] == final(self)@[j]);
                    } else if j == old(self)@.len() as int {
                        assert(old(self)@[i] == final(self)@[i]);
                    }
                }
                true
            },
        }
    }

    /// Stops watching the relay of a source message; returns its entry, if
    /// there was one.
    pub fn remove(&mut self, guild_id: u64, message_id: u64) -> (r: Option<StarboardEntry>)
        requires
            old(self).wf(),
        ensures
            final(self).wf(),
            !has_key(final(self)@, guild_id, message_id),
            forall|e: StarboardEntry|
                final(self)@.contains(e) <==> (old(self)@.contains(e) && e.key() != (guild_id, message_id)),
            match r {
                Some(e) => old(self)@.contains(e) && e.key() == (guild_id, message_id),
                None => !has_key(old(self)@, guild_id, message_id) && final(self)@ == old(self)@,
            },
    {
        match self.position(guild_id, message_id) {
            None => None,
            Some(i) => {
                let ghost before = self@;
                let e = self.entries.remove(i);
                let ghost after = self@;
                assert(after =~= before.remove(i as int));
                assert forall|a: int, b: int|
                    0 <= a < after.len() && 0 <= b < after.len() && a != b
                        implies (#[trigger] after[a]).key() != (#[trigger] after[b]).key() by {
                    let a2 = if a < i { a } else { a + 1 };
                    let b2 = if b < i { b } else { b + 1 };
                    assert(after[a] == before[a2]);
                    assert(after[b] == before[b2]);
                }
                assert forall|k: int| 0 <= k < after.len() implies (#[trigger] after[k]).key() != (guild_id, message_id) by {
                    let k2 = if k < i { k } else { k + 1 };
                    assert(after[k] == before[k2]);
                }
                assert forall|x: StarboardEntry|
                    after.contains(x) <==> (before.contains(x) && x.key() != (guild_id, message_id)) by {
                    if after.contains(x) {
                        let k = choose|k: int| 0 <= k < after.len() && after[k] == x;
                        let k2 = if k < i { k } else { k + 1 };
                        assert(before[k2] == x);
                    }
                    if before.contains(x) && x.key() != (guild_id, message_id) {
                        let k = choose|k: int| 0 <= k < before.len() && before[k] == x;
                        assert(k != i);
                        let k2 = if k < i { k } else { k - 1 };
                        assert(after[k2] == x);
                    }
                }
                Some(e)
            },
        }
    }

    /// Drops every entry expired at `now` and returns them. Entries still in
    /// force are kept untouched; no relay message is edited or deleted, so a
    /// dropped entry's relay stays posted and is no longer followed.
    pub fn sweep(&mut self, now: i64) -> (r: Vec<StarboardEntry>)
        requires
            old(self).wf(),
        ensures
            final(self).wf(),
            final(self)@ == old(self)@.filter(in_force(now)),
            r@ == old(self)@.filter(expired_at(now)),
    {
        let (kept, gone) = partition_expired(&self.entries, now);
        proof {
            lemma_filter_keeps_unique(self@, in_force(now));
        }
        self.entries = kept;
        gone
    }
}

} // verus!
