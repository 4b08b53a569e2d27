//! View state snapshot: a frame-scoped, read-only projection of the
//! utilization store joined with the current connection list.
//!
//! Each snapshot list pairs every key with its display data, so a listed
//! key without data is impossible by construction.  Connection entries are
//! joined with the owning process names reported by the discovery
//! collaborator for the same endpoint.

use vstd::prelude::*;
use crate::rows::Bandwidth;
use crate::store::{ConnectionCounters, EntityCounters, NetworkUtilization};

verus! {

/// One active connection as reported by the discovery collaborator: its
/// endpoint identity and the names of the processes using it.
pub struct ConnectionInfo {
    pub endpoint: String,
    pub process_names: Vec<String>,
}

/// The connections active at the start of the frame, in discovery order.
pub struct CurrentConnections {
    pub connections: Vec<ConnectionInfo>,
}

/// Display data for one connection: its counters and the names of the
/// processes that own it.
pub struct ConnectionDisplayData {
    pub total_bytes_uploaded: u64,
    pub total_bytes_downloaded: u64,
    pub processes: Vec<String>,
}

impl Bandwidth for ConnectionDisplayData {
    open spec fn spec_total_bytes_uploaded(&self) -> u64 {
        self.total_bytes_uploaded
    }

    open spec fn spec_total_bytes_downloaded(&self) -> u64 {
        self.total_bytes_downloaded
    }

    fn get_total_bytes_uploaded(&self) -> u64 {
        self.total_bytes_uploaded
    }

    fn get_total_bytes_downloaded(&self) -> u64 {
        self.total_bytes_downloaded
    }
}

/// The process names the connection list reports for `key`: those of the
/// first entry whose endpoint equals `key`, or none when no entry matches.
pub open spec fn spec_owners(conns: Seq<ConnectionInfo>, key: Seq<char>) -> Seq<String>
    decreases conns.len(),
{
    if conns.len() == 0 {
        Seq::empty()
    } else if conns[0].endpoint@ == key {
        conns[0].process_names@
    } else {
        spec_owners(conns.drop_first(), key)
    }
}

/// `items` concatenated with `sep` between consecutive elements.
pub open spec fn spec_join(items: Seq<String>, sep: Seq<char>) -> Seq<char>
    decreases items.len(),
{
    if items.len() == 0 {
        Seq::empty()
    } else if items.len() == 1 {
        items[0]@
    } else {
        items[0]@ + sep + spec_join(items.drop_first(), sep)
    }
}

/// Joins the strings from `items.skip(i)` with `sep` between them.
fn join_from(items: &Vec<String>, sep: &str, i: usize) -> (r: String)
    requires
        i <= items@.len(),
    ensures
        r@ == spec_join(items@.skip(i as int), sep@),
    decreases items@.len() - i,
{
    if i == items.len() {
        proof {
            assert(items@.skip(i as int) =~= Seq::<String>::empty());
        }
        String::new()
    } else if i + 1 == items.len() {
        proof {
            assert(items@.skip(i as int) =~= seq![items@[i as int]]);
        }
        items[i].clone()
    } else {
        let mut s = items[i].clone();
        s.append(sep);
        let rest = join_from(items, sep, i + 1);
        s.append(rest.as_str());
        proof {
            let tail = items@.skip(i as int);
            assert(tail[0] == items@[i as int]);
            assert(tail.drop_first() =~= items@.skip(i as int + 1));
            assert(s@ =~= spec_join(items@.skip(i as int), sep@));
        }
        s
    }
}

/// Joins the strings in `items` with `sep` between consecutive elements.
pub fn join_strings(items: &Vec<String>, sep: &str) -> (r: String)
    ensures
        r@ == spec_join(items@, sep@),
{
    let r = join_from(items, sep, 0);
    proof {
        assert(items@.skip(0) =~= items@);
    }
    r
}

/// A copy of `items` with every string cloned.
fn clone_strings(items: &Vec<String>) -> (r: Vec<String>)
    ensures
        r@ == items@,
{
    let mut copied: Vec<String> = Vec::new();
    let mut i: usize = 0;
    while i < items.len()
        invariant
            i <= items@.len(),
            copied@ == items@.take(i as int),
        decreases items@.len() - i,
    {
        copied.push(items[i].clone());
        i = i + 1;
        proof {
            assert(copied@ =~= items@.take(i as int));
        }
    }
    proof {
        assert(items@.take(items@.len() as int) =~= items@);
    }
    copied
}

/// The owning process names for the connection keyed `key`, cloned from
/// the first matching entry of `conns`.
fn owners_of(conns: &Vec<ConnectionInfo>, key: &String) -> (r: Vec<String>)
    ensures
        r@ == spec_owners(conns@, key@),
{
    let mut j: usize = 0;
    proof {
        assert(conns@.skip(0) =~= conns@);
    }
    while j < conns.len()
        invariant
            j <= conns@.len(),
            spec_owners(conns@, key@) == spec_owners(conns@.skip(j as int), key@),
        decreases conns@.len() - j,
    {
        proof {
            let tail = conns@.skip(j as int);
            assert(tail[0] == conns@[j as int]);
            assert(tail.drop_first() =~= conns@.skip(j as int + 1));
        }
        if conns[j].endpoint == *key {
            let r = clone_strings(&conns[j].process_names);
            return r;
        }
        j = j + 1;
    }
    proof {
        assert(conns@.skip(conns@.len() as int) =~= Seq::<ConnectionInfo>::empty());
    }
    Vec::new()
}

/// A copy of the store's entity entries, keys cloned and counters copied.
fn clone_entity_entries(entries: &Vec<(String, EntityCounters)>) -> (r: Vec<
    (String, EntityCounters),
>)
    ensures
        r@ == entries@,
{
    let mut copied: Vec<(String, EntityCounters)> = Vec::new();
    let mut i: usize = 0;
    while i < entries.len()
        invariant
            i <= entries@.len(),
            copied@ == entries@.take(i as int),
        decreases entries@.len() - i,
    {
        copied.push((entries[i].0.clone(), entries[i].1));
        i = i + 1;
        proof {
            assert(copied@ =~= entries@.take(i as int));
        }
    }
    proof {
        assert(entries@.take(entries@.len() as int) =~= entries@);
    }
    copied
}

/// The per-frame snapshot: every distinct key of the utilization store in
/// store order, paired with its display data.
pub struct UIState {
    pub processes: Vec<(String, EntityCounters)>,
    pub connections: Vec<(String, ConnectionDisplayData)>,
    pub remote_addresses: Vec<(String, EntityCounters)>,
}

/// How a snapshot relates to the store and connection list it was built
/// from: processes and remote addresses are copied verbatim; each
/// connection entry keeps its key and counters and gains the owning
/// process names the connection list reports for that key.
pub open spec fn snapshot_of(
    state: UIState,
    store: NetworkUtilization,
    conns: Seq<ConnectionInfo>,
) -> bool {
    &&& state.processes@ == store.process_data@
    &&& state.remote_addresses@ == store.remote_address_data@
    &&& state.connections@.len() == store.connection_data@.len()
    &&& forall|i: int|
        0 <= i < state.connections@.len() ==> {
            let entry = #[trigger] state.connections@[i];
            let source = store.connection_data@[i];
            &&& entry.0 == source.0
            &&& entry.1.total_bytes_uploaded == source.1.total_bytes_uploaded
            &&& entry.1.total_bytes_downloaded == source.1.total_bytes_downloaded
            &&& entry.1.processes@ == spec_owners(conns, source.0@)
        }
}

impl UIState {
    /// Builds the snapshot for one frame from the utilization store and
    /// the current connection list.
    pub fn new(current_connections: CurrentConnections, store: &NetworkUtilization) -> (state:
        UIState)
        ensures
            snapshot_of(state, *store, current_connections.connections@),
    {
        let processes = clone_entity_entries(&store.process_data);
        let remote_addresses = clone_entity_entries(&store.remote_address_data);
        let mut connections: Vec<(String, ConnectionDisplayData)> = Vec::new();
        let mut i: usize = 0;
        while i < store.connection_data.len()
            invariant
                i <= store.connection_data@.len(),
                connections@.len() == i,
                forall|k: int|
                    0 <= k < i ==> {
                        let entry = #[trigger] connections@[k];
                        let source = store.connection_data@[k];
                        &&& entry.0 == source.0
                        &&& entry.1.total_bytes_uploaded == source.1.total_bytes_uploaded
                        &&& entry.1.total_bytes_downloaded == source.1.total_bytes_downloaded
                        &&& entry.1.processes@ == spec_owners(
                            current_connections.connections@,
                            source.0@,
                        )
                    },
            decreases store.connection_data@.len() - i,
        {
            let owners = owners_of(&current_connections.connections, &store.connection_data[i].0);
            let counters: ConnectionCounters = store.connection_data[i].1;
            connections.push(
                (
                    store.connection_data[i].0.clone(),
                    ConnectionDisplayData {
                        total_bytes_uploaded: counters.total_bytes_uploaded,
                        total_bytes_downloaded: counters.total_bytes_downloaded,
                        processes: owners,
                    },
                ),
            );
            i = i + 1;
        }
        UIState { processes, connections, remote_addresses }
    }
}

} // verus!
