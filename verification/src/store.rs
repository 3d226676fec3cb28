//! The counter store that lives in the service's own process.

use vstd::prelude::*;
use crate::api::{Field, IpInfo};
use crate::clock::{next_midnight, spec_expiry, Timestamp};

verus! {

/// What the store keeps for one client: the day's counters and the instant
/// at which they go stale.
#[derive(Clone, Copy, Debug, PartialEq, Eq, Structural)]
pub struct CounterRecord {
    pub counts: IpInfo,
    pub expires_at: Timestamp,
}

/// The record a reader finds under `key` at `now`: a record whose expiry has
/// been reached counts as absent.
pub open spec fn spec_get(
    records: Map<Seq<char>, CounterRecord>,
    key: Seq<char>,
    now: Timestamp,
) -> Option<CounterRecord> {
    if records.dom().contains(key) && !now.at_or_after(records[key].expires_at) {
        Some(records[key])
    } else {
        None
    }
}

/// The counters a reader finds under `key` at `now`, where it finds a record.
pub open spec fn spec_live(
    records: Map<Seq<char>, CounterRecord>,
    key: Seq<char>,
    now: Timestamp,
) -> Option<IpInfo> {
    match spec_get(records, key, now) {
        Some(record) => Some(record.counts),
        None => None,
    }
}

/// The counters from which an increment starts: those a reader sees, or
/// zeroes where the reader sees none.
pub open spec fn spec_current(
    records: Map<Seq<char>, CounterRecord>,
    key: Seq<char>,
    now: Timestamp,
) -> IpInfo {
    match spec_live(records, key, now) {
        Some(counts) => counts,
        None => IpInfo::zero(),
    }
}

/// The store after one increment of `field` under `key`, written at `now`
/// with the reset `days_ahead` days away.
pub open spec fn spec_increment(
    records: Map<Seq<char>, CounterRecord>,
    key: Seq<char>,
    field: Field,
    now: Timestamp,
    days_ahead: int,
) -> Map<Seq<char>, CounterRecord> {
    records.insert(
        key,
        CounterRecord {
            counts: spec_current(records, key, now).bumped(field),
            expires_at: spec_expiry(now, days_ahead),
        },
    )
}

/// The store after a sweep at `now`: exactly the records that have not
/// expired, unchanged.
pub open spec fn spec_sweep(
    records: Map<Seq<char>, CounterRecord>,
    now: Timestamp,
) -> Map<Seq<char>, CounterRecord> {
    Map::new(
        |key: Seq<char>| records.dom().contains(key) && !now.at_or_after(records[key].expires_at),
        |key: Seq<char>| records[key],
    )
}

struct Entry {
    key: String,
    record: CounterRecord,
}

/// No key occurs twice.
spec fn distinct_keys(entries: Seq<Entry>) -> bool {
    forall|i: int, j: int| 0 <= i < j < entries.len() ==> entries[i].key@ != entries[j].key@
}

/// Some entry has `key`.
spec fn holds(entries: Seq<Entry>, key: Seq<char>) -> bool {
    exists|i: int| 0 <= i < entries.len() && entries[i].key@ == key
}

/// Where the entry with `key` stands, if there is one.
spec fn position(entries: Seq<Entry>, key: Seq<char>) -> int {
    choose|i: int| 0 <= i < entries.len() && entries[i].key@ == key
}

/// The entries as a map from key to record.
spec fn records_of(entries: Seq<Entry>) -> Map<Seq<char>, CounterRecord> {
    Map::new(|key: Seq<char>| holds(entries, key), |key: Seq<char>| entries[position(entries, key)].record)
}

/// Under distinct keys the entry at `i` is the one that the map shows for
/// its key.
proof fn lemma_entry_is_shown(entries: Seq<Entry>, i: int)
    requires
        distinct_keys(entries),
        0 <= i < entries.len(),
    ensures
        holds(entries, entries[i].key@),
        position(entries, entries[i].key@) == i,
        records_of(entries).dom().contains(entries[i].key@),
        records_of(entries)[entries[i].key@] == entries[i].record,
{
    let p = position(entries, entries[i].key@);
    assert(0 <= p < entries.len() && entries[p].key@ == entries[i].key@);
}

/// Looks for the entry with `key`.
fn find(entries: &Vec<Entry>, key: &String) -> (at: Option<usize>)
    requires
        distinct_keys(entries@),
    ensures
        match at {
            Some(i) => i < entries@.len() && entries@[i as int].key@ == key@,
            None => !holds(entries@, key@),
        },
{
    let mut i: usize = 0;
    while i < entries.len()
        invariant
            i <= entries@.len(),
            forall|j: int| 0 <= j < i ==> entries@[j].key@ != key@,
        decreases entries@.len() - i,
    {
        if entries[i].key == *key {
            return Some(i);
        }
        i += 1;
    }
    None
}

/// Puts `record` under `key`, in place of what was there.
fn upsert(entries: &mut Vec<Entry>, key: String, record: CounterRecord)
    requires
        distinct_keys(old(entries)@),
    ensures
        distinct_keys(final(entries)@),
        records_of(final(entries)@) == records_of(old(entries)@).insert(key@, record),
{
    let ghost before = entries@;
    let ghost name = key@;
    let at: Option<usize> = find(entries, &key);
    match at {
        Some(i) => {
            entries.set(i, Entry { key, record });
        },
        None => {
            entries.push(Entry { key, record });
        },
    }
    proof {
        let after = entries@;
        let slot: int = match at {
            Some(i) => i as int,
            None => before.len() as int,
        };
        assert(after[slot].key@ == name && after[slot].record == record);
        assert(forall|j: int| 0 <= j < before.len() && j != slot ==> after[j] == before[j]);
        assert(forall|j: int| 0 <= j < before.len() && j != slot ==> before[j].key@ != name);
        assert(distinct_keys(after));
        assert forall|k: Seq<char>| holds(after, k) <==> (k == name || holds(before, k)) by {
            if holds(before, k) && k != name {
                let p = position(before, k);
                assert(after[p].key@ == k);
            }
            if holds(after, k) && k != name {
                let p = position(after, k);
                assert(before[p].key@ == k);
            }
        }
        assert forall|k: Seq<char>| holds(after, k) implies records_of(after)[k] == records_of(
            before,
        ).insert(name, record)[k] by {
            let p = position(after, k);
            lemma_entry_is_shown(after, p);
            if k != name {
                lemma_entry_is_shown(before, p);
            }
        }
        assert(records_of(after) =~= records_of(before).insert(name, record));
    }
}

/// Keeps the entries whose expiry `now` has not reached and drops the rest.
fn retain_live(entries: Vec<Entry>, now: Timestamp) -> (kept: Vec<Entry>)
    requires
        distinct_keys(entries@),
    ensures
        distinct_keys(kept@),
        records_of(kept@) == spec_sweep(records_of(entries@), now),
{
    let ghost orig = entries@;
    let ghost mut src: Seq<int> = Seq::empty();
    let mut rest: Vec<Entry> = entries;
    let mut kept: Vec<Entry> = Vec::new();
    while rest.len() > 0
        invariant
            distinct_keys(orig),
            rest@.len() <= orig.len(),
            rest@ == orig.take(rest@.len() as int),
            src.len() == kept@.len(),
            forall|j: int|
                0 <= j < src.len() ==> rest@.len() <= #[trigger] src[j] < orig.len() && kept@[j] == orig[src[j]]
                    && !now.at_or_after(orig[src[j]].record.expires_at),
            forall|i: int, j: int| 0 <= i < j < src.len() ==> src[i] > src[j],
            forall|i: int|
                rest@.len() <= i < orig.len() && !now.at_or_after(orig[i].record.expires_at)
                    ==> src.contains(i),
        decreases rest@.len(),
    {
        let ghost at = rest@.len() - 1;
        let ghost earlier = src;
        let entry: Entry = rest.pop().unwrap();
        assert(entry == orig[at]);
        if !now.reached(&entry.record.expires_at) {
            kept.push(entry);
            proof {
                src = src.push(at);
                assert forall|i: int|
                    rest@.len() <= i < orig.len() && !now.at_or_after(
                        orig[i].record.expires_at,
                    ) implies src.contains(i) by {
                    if i == at {
                        assert(src[earlier.len() as int] == i);
                    } else {
                        assert(earlier.contains(i));
                        let j = choose|j: int| 0 <= j < earlier.len() && earlier[j] == i;
                        assert(src[j] == i);
                    }
                }
            }
        }
    }
    proof {
        let after = kept@;
        assert forall|i: int, j: int| 0 <= i < j < after.len() implies after[i].key@ != after[j].key@ by {
            assert(src[i] > src[j]);
        }
        assert forall|k: Seq<char>| holds(after, k) <==> spec_sweep(records_of(orig), now).dom().contains(k) by {
            if holds(after, k) {
                let p = position(after, k);
                lemma_entry_is_shown(orig, src[p]);
            }
            if holds(orig, k) {
                let q = position(orig, k);
                lemma_entry_is_shown(orig, q);
                if !now.at_or_after(orig[q].record.expires_at) {
                    assert(src.contains(q));
                    let j = choose|j: int| 0 <= j < src.len() && src[j] == q;
                    assert(after[j].key@ == k);
                }
            }
        }
        assert forall|k: Seq<char>| holds(after, k) implies records_of(after)[k] == records_of(orig)[k] by {
            let p = position(after, k);
            lemma_entry_is_shown(orig, src[p]);
        }
        assert(records_of(after) =~= spec_sweep(records_of(orig), now));
    }
    kept
}

/// A map from client address to counter record, held in this process.
///
/// No address occurs twice. Expired records may linger until the next
/// [`InProcessStore::sweep`]; readers never see them.
pub struct InProcessStore {
    entries: Vec<Entry>,
}

impl InProcessStore {
    #[verifier::type_invariant]
    spec fn well_formed(self) -> bool {
        distinct_keys(self.entries@)
    }

    /// The records by client address.
    pub closed spec fn view(&self) -> Map<Seq<char>, CounterRecord> {
        records_of(self.entries@)
    }

    /// An empty store.
    pub fn new() -> (store: InProcessStore)
        ensures
            store@ == Map::<Seq<char>, CounterRecord>::empty(),
    {
        InProcessStore { entries: Vec::new() }
    }

    /// Hands out the entries and leaves the store empty.
    fn take_entries(&mut self) -> (entries: Vec<Entry>)
        ensures
            distinct_keys(entries@),
            records_of(entries@) == old(self)@,
    {
        let mut taken = InProcessStore { entries: Vec::new() };
        std::mem::swap(self, &mut taken);
        proof {
            use_type_invariant(&taken);
        }
        taken.entries
    }

    /// The record kept under `key`, as a reader at `now` sees it.
    ///
    /// A record whose expiry has been reached is reported as absent whether
    /// or not a sweep has removed it.
    pub fn get(&self, key: &str, now: Timestamp) -> (found: Option<CounterRecord>)
        ensures
            found == spec_get(self@, key@, now),
    {
        proof {
            use_type_invariant(self);
        }
        let owned: String = key.to_owned();
        match find(&self.entries, &owned) {
            Some(i) => {
                proof {
                    lemma_entry_is_shown(self.entries@, i as int);
                }
                let record: CounterRecord = self.entries[i].record;
                if now.reached(&record.expires_at) {
                    None
                } else {
                    Some(record)
                }
            },
            None => None,
        }
    }

    /// Counts one more event on `field` for `key` and returns the new record.
    ///
    /// The count starts from what a reader at `now` sees, zeroes for an absent
    /// or expired record, and the record's expiry moves to the local midnight
    /// `days_ahead` days after the day of `now`. Records under other keys stay
    /// as they are.
    pub fn increment(
        &mut self,
        key: &str,
        field: Field,
        now: Timestamp,
        days_ahead: i64,
    ) -> (record: CounterRecord)
        ensures
            final(self)@ == spec_increment(old(self)@, key@, field, now, days_ahead as int),
            record.counts == spec_current(old(self)@, key@, now).bumped(field),
            record.expires_at == spec_expiry(now, days_ahead as int),
    {
        let base: IpInfo = match self.get(key, now) {
            Some(seen) => seen.counts,
            None => IpInfo::new(),
        };
        let record = CounterRecord { counts: base.bump(field), expires_at: next_midnight(now, days_ahead) };
        let mut entries: Vec<Entry> = self.take_entries();
        upsert(&mut entries, key.to_owned(), record);
        *self = InProcessStore { entries };
        record
    }

    /// Removes every record whose expiry `now` has reached.
    ///
    /// This only frees space: what readers see at `now` is the same before
    /// and after.
    pub fn sweep(&mut self, now: Timestamp)
        ensures
            final(self)@ == spec_sweep(old(self)@, now),
    {
        let entries: Vec<Entry> = self.take_entries();
        let kept: Vec<Entry> = retain_live(entries, now);
        *self = InProcessStore { entries: kept };
    }
}

} // verus!
