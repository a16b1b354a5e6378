//! The usage ledger: accumulated focus time per application.

use crate::clock::Timestamp;
use std::collections::HashMap;
use vstd::prelude::*;
use vstd::std_specs::iter::IteratorSpec;

verus! {

/// What the ledger holds for one application.
#[derive(Clone, Debug, PartialEq, Eq)]
pub struct UsageRecord {
    /// Seconds of focus credited so far.
    pub accumulated_seconds: u64,
    /// When the record was last credited.
    pub last_observed_at: Timestamp,
    /// The name under which the application was first seen.
    pub display_name: String,
}

/// A [`UsageRecord`] as a mathematical value.
pub struct UsageRecordView {
    pub accumulated_seconds: nat,
    pub last_observed_at: Timestamp,
    pub display_name: Seq<char>,
}

impl View for UsageRecord {
    type V = UsageRecordView;

    open spec fn view(&self) -> UsageRecordView {
        UsageRecordView {
            accumulated_seconds: self.accumulated_seconds as nat,
            last_observed_at: self.last_observed_at,
            display_name: self.display_name@,
        }
    }
}

/// The ledger after `seconds` were credited to `identity` at the time `at`.
/// A record is created under `display_name` if there was none; an existing
/// record keeps its name.
pub open spec fn credited(
    ledger: Map<u32, UsageRecordView>,
    identity: u32,
    display_name: Seq<char>,
    seconds: nat,
    at: Timestamp,
) -> Map<u32, UsageRecordView> {
    if ledger.contains_key(identity) {
        ledger.insert(
            identity,
            UsageRecordView {
                accumulated_seconds: ledger[identity].accumulated_seconds + seconds,
                last_observed_at: at,
                display_name: ledger[identity].display_name,
            },
        )
    } else {
        ledger.insert(
            identity,
            UsageRecordView { accumulated_seconds: seconds, last_observed_at: at, display_name },
        )
    }
}

/// The seconds that the ledger holds for `identity`; zero if it has no
/// record.
pub open spec fn seconds_of(ledger: Map<u32, UsageRecordView>, identity: u32) -> nat {
    if ledger.contains_key(identity) {
        ledger[identity].accumulated_seconds
    } else {
        0
    }
}

/// The seconds of all records whose identity is below `bound`.
pub open spec fn total_below(ledger: Map<u32, UsageRecordView>, bound: nat) -> nat
    decreases bound,
{
    if bound == 0 {
        0
    } else {
        total_below(ledger, (bound - 1) as nat) + seconds_of(ledger, (bound - 1) as u32)
    }
}

/// The seconds of all records of the ledger together.
pub open spec fn total_seconds(ledger: Map<u32, UsageRecordView>) -> nat {
    total_below(ledger, 0x1_0000_0000)
}

/// Whether crediting `seconds` to `identity` keeps its total within `u64`.
pub open spec fn has_room(ledger: Map<u32, UsageRecordView>, identity: u32, seconds: nat) -> bool {
    ledger.contains_key(identity) ==> ledger[identity].accumulated_seconds + seconds <= u64::MAX
}

/// The identities of a listing of records, in its order.
pub open spec fn identities(entries: Seq<(u32, UsageRecordView)>) -> Seq<u32> {
    entries.map_values(|entry: (u32, UsageRecordView)| entry.0)
}

/// Whether `entries` lists every record of `ledger` exactly once, each under
/// its identity, in whatever order.
pub open spec fn is_snapshot_of(
    entries: Seq<(u32, UsageRecordView)>,
    ledger: Map<u32, UsageRecordView>,
) -> bool {
    &&& identities(entries).no_duplicates()
    &&& identities(entries).to_set() == ledger.dom()
    &&& forall|i: int|
        0 <= i < entries.len() ==> (#[trigger] entries[i]).1 == ledger[entries[i].0]
}

/// A listing of records as mathematical values.
pub open spec fn listing_view(entries: Seq<(u32, UsageRecord)>) -> Seq<(u32, UsageRecordView)> {
    entries.map_values(|entry: (u32, UsageRecord)| (entry.0, entry.1@))
}

/// Accumulated focus time, keyed by application identity.
pub struct UsageLedger {
    records: HashMap<u32, UsageRecord>,
}

impl View for UsageLedger {
    type V = Map<u32, UsageRecordView>;

    closed spec fn view(&self) -> Map<u32, UsageRecordView> {
        self.records@.map_values(|record: UsageRecord| record@)
    }
}

impl UsageLedger {
    /// A ledger without records.
    pub fn new() -> (ledger: UsageLedger)
        ensures
            ledger@ == Map::<u32, UsageRecordView>::empty(),
    {
        let ledger = UsageLedger { records: HashMap::new() };
        assert(ledger@ =~= Map::<u32, UsageRecordView>::empty());
        ledger
    }

    /// The ledger holds finitely many records, none above `u64::MAX` seconds.
    pub proof fn lemma_bounded(&self)
        ensures
            self@.dom().finite(),
            forall|identity: u32| #[trigger]
                self@.contains_key(identity) ==> self@[identity].accumulated_seconds <= u64::MAX,
    {
        assert(self@.dom() =~= self.records@.dom());
    }

    /// The number of records.
    pub fn len(&self) -> (len: usize)
        ensures
            len == self@.len(),
    {
        proof {
            assert(self@.dom() =~= self.records@.dom());
        }
        self.records.len()
    }

    /// The record of `identity`, if it has one.
    pub fn get(&self, identity: u32) -> (record: Option<&UsageRecord>)
        ensures
            match record {
                Some(record) => self@.contains_key(identity) && record@ == self@[identity],
                None => !self@.contains_key(identity),
            },
    {
        self.records.get(&identity)
    }

    /// Whether `seconds` can be credited to `identity` without overflow.
    pub fn can_credit(&self, identity: u32, seconds: u64) -> (fits: bool)
        ensures
            fits == has_room(self@, identity, seconds as nat),
    {
        match self.records.get(&identity) {
            Some(record) => seconds <= u64::MAX - record.accumulated_seconds,
            None => true,
        }
    }

    /// A copy of every record, each with its identity, in no particular
    /// order.
    pub fn snapshot(&self) -> (entries: Vec<(u32, UsageRecord)>)
        ensures
            is_snapshot_of(listing_view(entries@), self@),
    {
        let mut entries: Vec<(u32, UsageRecord)> = Vec::new();
        for pair in it: self.records.iter()
            invariant
                it.seq() == self.records.iter().remaining(),
                it.seq().no_duplicates(),
                entries.len() == it.index(),
                forall|i: int|
                    0 <= i < entries.len() ==> (#[trigger] entries[i]).0 == *it.seq()[i].0
                        && entries[i].1@ == (*it.seq()[i].1)@,
        {
            let (identity, record) = pair;
            entries.push(
                (
                    *identity,
                    UsageRecord {
                        accumulated_seconds: record.accumulated_seconds,
                        last_observed_at: record.last_observed_at,
                        display_name: record.display_name.clone(),
                    },
                ),
            );
        }
        proof {
            let listed = listing_view(entries@);
            let ids = identities(listed);
            let pairs = self.records.iter().remaining();
            let held = self.records@;
            assert(entries.len() == pairs.len());
            assert forall|i: int| 0 <= i < pairs.len() implies held.contains_key(ids[i])
                && listed[i].1 == self@[ids[i]] by {
                assert(held.contains_key(*pairs[i].0));
                assert(held[*pairs[i].0] == *pairs[i].1);
            }
            assert forall|i: int, j: int| 0 <= i < ids.len() && 0 <= j < ids.len() && i != j
                implies ids[i] != ids[j] by {
                if ids[i] == ids[j] {
                    assert(pairs[i] == pairs[j]);
                }
            }
            assert forall|identity: u32| held.contains_key(identity) implies ids.contains(
                identity,
            ) by {
                let pair = (&identity, &held[identity]);
                assert(pairs.contains(pair));
                let i = choose|i: int| 0 <= i < pairs.len() && pairs[i] == pair;
                assert(ids[i] == identity);
            }
            assert(ids.to_set() =~= self@.dom());
        }
        entries
    }

    /// Adds `seconds` to the record of `identity` and stamps it with `now`,
    /// creating the record under `display_name` if there is none yet.
    pub fn credit(&mut self, identity: u32, display_name: &str, seconds: u64, now: Timestamp)
        requires
            has_room(old(self)@, identity, seconds as nat),
        ensures
            final(self)@ == credited(old(self)@, identity, display_name@, seconds as nat, now),
    {
        let updated = match self.records.get(&identity) {
            Some(record) => UsageRecord {
                accumulated_seconds: record.accumulated_seconds + seconds,
                last_observed_at: now,
                display_name: record.display_name.clone(),
            },
            None => UsageRecord {
                accumulated_seconds: seconds,
                last_observed_at: now,
                display_name: display_name.to_owned(),
            },
        };
        self.records.insert(identity, updated);
        assert(self@ =~= credited(old(self)@, identity, display_name@, seconds as nat, now));
    }
}

} // verus!
