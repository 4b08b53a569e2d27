//! The utilization store: per-entity byte and connection counters
//! accumulated by an external traffic collector since the last reset.
//!
//! The store owns three association lists — process name, connection
//! identifier and remote address, each mapped to its counters.  The
//! renderer reads the store once per frame and then zeroes every counter
//! in place, leaving the keys untouched.

use vstd::prelude::*;

verus! {

/// Counters for a process or remote-address record: cumulative bytes in
/// both directions plus the number of connections observed.
#[derive(Clone, Copy, PartialEq, Eq, Structural, Debug)]
pub struct EntityCounters {
    pub total_bytes_uploaded: u64,
    pub total_bytes_downloaded: u64,
    pub connection_count: u64,
}

/// Counters for a connection record: cumulative bytes in both directions.
#[derive(Clone, Copy, PartialEq, Eq, Structural, Debug)]
pub struct ConnectionCounters {
    pub total_bytes_uploaded: u64,
    pub total_bytes_downloaded: u64,
}

/// The zeroed entity record.
pub open spec fn zero_entity_counters() -> EntityCounters {
    EntityCounters { total_bytes_uploaded: 0, total_bytes_downloaded: 0, connection_count: 0 }
}

/// The zeroed connection record.
pub open spec fn zero_connection_counters() -> ConnectionCounters {
    ConnectionCounters { total_bytes_uploaded: 0, total_bytes_downloaded: 0 }
}

/// An entity entry with its counters zeroed and its key kept.
pub open spec fn reset_entity_entry(e: (String, EntityCounters)) -> (String, EntityCounters) {
    (e.0, zero_entity_counters())
}

/// A connection entry with its counters zeroed and its key kept.
pub open spec fn reset_connection_entry(e: (String, ConnectionCounters)) -> (
    String,
    ConnectionCounters,
) {
    (e.0, zero_connection_counters())
}

/// Shared mutable accumulator of network utilization, keyed three ways.
pub struct NetworkUtilization {
    pub process_data: Vec<(String, EntityCounters)>,
    pub connection_data: Vec<(String, ConnectionCounters)>,
    pub remote_address_data: Vec<(String, EntityCounters)>,
}

/// Whether every counter in the store is zero.
pub open spec fn store_is_zeroed(s: NetworkUtilization) -> bool {
    &&& forall|i: int|
        0 <= i < s.process_data@.len() ==> (#[trigger] s.process_data@[i]).1
            == zero_entity_counters()
    &&& forall|i: int|
        0 <= i < s.connection_data@.len() ==> (#[trigger] s.connection_data@[i]).1
            == zero_connection_counters()
    &&& forall|i: int|
        0 <= i < s.remote_address_data@.len() ==> (#[trigger] s.remote_address_data@[i]).1
            == zero_entity_counters()
}

/// Copies `entries`, keeping each key and zeroing its counters.
fn zero_entity_entries(entries: &Vec<(String, EntityCounters)>) -> (r: Vec<
    (String, EntityCounters),
>)
    ensures
        r@ == entries@.map_values(|e: (String, EntityCounters)| reset_entity_entry(e)),
{
    let mut zeroed: Vec<(String, EntityCounters)> = Vec::new();
    let mut i: usize = 0;
    while i < entries.len()
        invariant
            i <= entries@.len(),
            zeroed@ == entries@.take(i as int).map_values(
                |e: (String, EntityCounters)| reset_entity_entry(e),
            ),
        decreases entries@.len() - i,
    {
        zeroed.push(
            (
                entries[i].0.clone(),
                EntityCounters {
                    total_bytes_uploaded: 0,
                    total_bytes_downloaded: 0,
                    connection_count: 0,
                },
            ),
        );
        i = i + 1;
        proof {
            assert(zeroed@ =~= entries@.take(i as int).map_values(
                |e: (String, EntityCounters)| reset_entity_entry(e),
            ));
        }
    }
    proof {
        assert(entries@.take(entries@.len() as int) =~= entries@);
    }
    zeroed
}

/// Copies `entries`, keeping each key and zeroing its counters.
fn zero_connection_entries(entries: &Vec<(String, ConnectionCounters)>) -> (r: Vec<
    (String, ConnectionCounters),
>)
    ensures
        r@ == entries@.map_values(|e: (String, ConnectionCounters)| reset_connection_entry(e)),
{
    let mut zeroed: Vec<(String, ConnectionCounters)> = Vec::new();
    let mut i: usize = 0;
    while i < entries.len()
        invariant
            i <= entries@.len(),
            zeroed@ == entries@.take(i as int).map_values(
                |e: (String, ConnectionCounters)| reset_connection_entry(e),
            ),
        decreases entries@.len() - i,
    {
        zeroed.push(
            (
                entries[i].0.clone(),
                ConnectionCounters { total_bytes_uploaded: 0, total_bytes_downloaded: 0 },
            ),
        );
        i = i + 1;
        proof {
            assert(zeroed@ =~= entries@.take(i as int).map_values(
                |e: (String, ConnectionCounters)| reset_connection_entry(e),
            ));
        }
    }
    proof {
        assert(entries@.take(entries@.len() as int) =~= entries@);
    }
    zeroed
}

impl NetworkUtilization {
    /// Zeroes every byte and connection counter in place; the set and order
    /// of keys is unchanged.
    pub fn reset(&mut self)
        ensures
            final(self).process_data@ == old(self).process_data@.map_values(
                |e: (String, EntityCounters)| reset_entity_entry(e),
            ),
            final(self).connection_data@ == old(self).connection_data@.map_values(
                |e: (String, ConnectionCounters)| reset_connection_entry(e),
            ),
            final(self).remote_address_data@ == old(self).remote_address_data@.map_values(
                |e: (String, EntityCounters)| reset_entity_entry(e),
            ),
            store_is_zeroed(*final(self)),
    {
        self.process_data = zero_entity_entries(&self.process_data);
        self.connection_data = zero_connection_entries(&self.connection_data);
        self.remote_address_data = zero_entity_entries(&self.remote_address_data);
    }
}

/// Law: resetting is idempotent.  A second reset leaves the store exactly
/// as the first reset left it — all counters at zero both times, keys and
/// order untouched.
pub proof fn lemma_reset_idempotent(s0: NetworkUtilization, s1: NetworkUtilization, s2: NetworkUtilization)
    requires
        s1.process_data@ == s0.process_data@.map_values(
            |e: (String, EntityCounters)| reset_entity_entry(e),
        ),
        s1.connection_data@ == s0.connection_data@.map_values(
            |e: (String, ConnectionCounters)| reset_connection_entry(e),
        ),
        s1.remote_address_data@ == s0.remote_address_data@.map_values(
            |e: (String, EntityCounters)| reset_entity_entry(e),
        ),
        s2.process_data@ == s1.process_data@.map_values(
            |e: (String, EntityCounters)| reset_entity_entry(e),
        ),
        s2.connection_data@ == s1.connection_data@.map_values(
            |e: (String, ConnectionCounters)| reset_connection_entry(e),
        ),
        s2.remote_address_data@ == s1.remote_address_data@.map_values(
            |e: (String, EntityCounters)| reset_entity_entry(e),
        ),
    ensures
        store_is_zeroed(s1),
        store_is_zeroed(s2),
        s2.process_data@ == s1.process_data@,
        s2.connection_data@ == s1.connection_data@,
        s2.remote_address_data@ == s1.remote_address_data@,
{
    assert(s2.process_data@ =~= s1.process_data@);
    assert(s2.connection_data@ =~= s1.connection_data@);
    assert(s2.remote_address_data@ =~= s1.remote_address_data@);
}

} // verus!
