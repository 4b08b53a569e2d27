//! Row projector: maps one tracked entity and its accumulated counters
//! into a display row of exactly three cells — entity label, secondary
//! metric, and the combined `upload/download` bandwidth string.

use vstd::prelude::*;
use crate::bandwidth::{display_bandwidth, spec_display_bandwidth};
use crate::store::{ConnectionCounters, EntityCounters};

verus! {

/// An entity whose cumulative upload and download byte totals can be read.
pub trait Bandwidth {
    /// The cumulative bytes uploaded, as seen by specifications.
    spec fn spec_total_bytes_uploaded(&self) -> u64;

    /// The cumulative bytes downloaded, as seen by specifications.
    spec fn spec_total_bytes_downloaded(&self) -> u64;

    /// Reads the cumulative bytes uploaded.
    fn get_total_bytes_uploaded(&self) -> (r: u64)
        ensures
            r == self.spec_total_bytes_uploaded(),
    ;

    /// Reads the cumulative bytes downloaded.
    fn get_total_bytes_downloaded(&self) -> (r: u64)
        ensures
            r == self.spec_total_bytes_downloaded(),
    ;
}

impl Bandwidth for EntityCounters {
    open spec fn spec_total_bytes_uploaded(&self) -> u64 {
        self.total_bytes_uploaded
    }

    open spec fn spec_total_bytes_downloaded(&self) -> u64 {
        self.total_bytes_downloaded
    }

    fn get_total_bytes_uploaded(&self) -> u64 {
        self.total_bytes_uploaded
    }

    fn get_total_bytes_downloaded(&self) -> u64 {
        self.total_bytes_downloaded
    }
}

impl Bandwidth for ConnectionCounters {
    open spec fn spec_total_bytes_uploaded(&self) -> u64 {
        self.total_bytes_uploaded
    }

    open spec fn spec_total_bytes_downloaded(&self) -> u64 {
        self.total_bytes_downloaded
    }

    fn get_total_bytes_uploaded(&self) -> u64 {
        self.total_bytes_uploaded
    }

    fn get_total_bytes_downloaded(&self) -> u64 {
        self.total_bytes_downloaded
    }
}

/// The third cell of a display row: the formatted upload rate, a slash,
/// and the formatted download rate.
pub open spec fn spec_bandwidth_cell(uploaded: u64, downloaded: u64) -> Seq<char> {
    spec_display_bandwidth(uploaded as nat) + seq!['/'] + spec_display_bandwidth(
        downloaded as nat,
    )
}

/// Projects one entity into its display row: label, secondary metric, and
/// the combined `upload/download` bandwidth cell.
pub fn format_row_data(first_cell: String, second_cell: String, bandwidth: &impl Bandwidth) -> (r:
    Vec<String>)
    ensures
        r@.len() == 3,
        r@[0] == first_cell,
        r@[1] == second_cell,
        r@[2]@ == spec_bandwidth_cell(
            bandwidth.spec_total_bytes_uploaded(),
            bandwidth.spec_total_bytes_downloaded(),
        ),
{
    let mut combined = display_bandwidth(bandwidth.get_total_bytes_uploaded());
    proof {
        reveal_strlit("/");
    }
    combined.append("/");
    let downloaded = display_bandwidth(bandwidth.get_total_bytes_downloaded());
    combined.append(downloaded.as_str());
    proof {
        assert(combined@ =~= spec_bandwidth_cell(
            bandwidth.spec_total_bytes_uploaded(),
            bandwidth.spec_total_bytes_downloaded(),
        ));
    }
    let mut row: Vec<String> = Vec::new();
    row.push(first_cell);
    row.push(second_cell);
    row.push(combined);
    row
}

} // verus!
