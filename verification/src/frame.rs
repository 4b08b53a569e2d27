//! Frame assembly and the commit/reset protocol.
//!
//! A frame projects the snapshot into three titled tables — connections on
//! the left half of the screen, processes on the right-top quarter, remote
//! addresses on the right-bottom quarter — and, once the caller reports a
//! successful paint, zeroes the utilization store's counters.  A failed
//! paint leaves the store untouched so the data survives for the next
//! tick.

use vstd::prelude::*;
use crate::bandwidth::{spec_dec, u64_to_string};
use crate::layout::{rect_well_formed, spec_split, split, Direction, Rect};
use crate::rows::{format_row_data, spec_bandwidth_cell};
use crate::state::{spec_join, join_strings, ConnectionDisplayData, UIState};
use crate::store::{EntityCounters, NetworkUtilization, reset_connection_entry, reset_entity_entry, store_is_zeroed, ConnectionCounters};
use crate::table::{create_table, rows_well_formed, table_well_formed, Table};

verus! {

/// Whether `row` is the display row for the process or remote-address
/// entry `entry`: its key, its connection count in decimal, and its
/// combined bandwidth cell.
pub open spec fn entity_row_matches(row: Vec<String>, entry: (String, EntityCounters)) -> bool {
    &&& row@.len() == 3
    &&& row@[0] == entry.0
    &&& row@[1]@ == spec_dec(entry.1.connection_count as nat)
    &&& row@[2]@ == spec_bandwidth_cell(
        entry.1.total_bytes_uploaded,
        entry.1.total_bytes_downloaded,
    )
}

/// Whether `row` is the display row for the connection entry `entry`: its
/// key, its owning process names joined by `", "`, and its combined
/// bandwidth cell.
pub open spec fn connection_row_matches(
    row: Vec<String>,
    entry: (String, ConnectionDisplayData),
) -> bool {
    &&& row@.len() == 3
    &&& row@[0] == entry.0
    &&& row@[1]@ == spec_join(entry.1.processes@, ", "@)
    &&& row@[2]@ == spec_bandwidth_cell(
        entry.1.total_bytes_uploaded,
        entry.1.total_bytes_downloaded,
    )
}

/// Whether `t` is the process table for `state`: fixed title, headers and
/// widths, and one row per snapshot process entry, in order.
pub open spec fn is_process_table(t: Table, state: UIState) -> bool {
    &&& t.title@ == "Utilization by process name"@
    &&& t.column_names@.len() == 3
    &&& t.column_names@[0]@ == "Process"@
    &&& t.column_names@[1]@ == "Connection Count"@
    &&& t.column_names@[2]@ == "Total Bytes"@
    &&& t.widths@ == seq![30u16, 30u16, 30u16]
    &&& t.rows@.len() == state.processes@.len()
    &&& forall|i: int|
        0 <= i < t.rows@.len() ==> entity_row_matches(#[trigger] t.rows@[i], state.processes@[i])
}

/// Whether `t` is the connections table for `state`: fixed title, headers
/// and widths, and one row per snapshot connection entry, in order.
pub open spec fn is_connections_table(t: Table, state: UIState) -> bool {
    &&& t.title@ == "Utilization by connection"@
    &&& t.column_names@.len() == 3
    &&& t.column_names@[0]@ == "Connection"@
    &&& t.column_names@[1]@ == "Processes"@
    &&& t.column_names@[2]@ == "Total Bytes Up/Down"@
    &&& t.widths@ == seq![50u16, 20u16, 20u16]
    &&& t.rows@.len() == state.connections@.len()
    &&& forall|i: int|
        0 <= i < t.rows@.len() ==> connection_row_matches(
            #[trigger] t.rows@[i],
            state.connections@[i],
        )
}

/// Whether `t` is the remote-address table for `state`: fixed title,
/// headers and widths, and one row per snapshot remote-address entry, in
/// order.
pub open spec fn is_remote_address_table(t: Table, state: UIState) -> bool {
    &&& t.title@ == "Utilization by remote ip"@
    &&& t.column_names@.len() == 3
    &&& t.column_names@[0]@ == "Remote Address"@
    &&& t.column_names@[1]@ == "Connection Count"@
    &&& t.column_names@[2]@ == "Total Bytes"@
    &&& t.widths@ == seq![50u16, 20u16, 20u16]
    &&& t.rows@.len() == state.remote_addresses@.len()
    &&& forall|i: int|
        0 <= i < t.rows@.len() ==> entity_row_matches(
            #[trigger] t.rows@[i],
            state.remote_addresses@[i],
        )
}

/// Projects the snapshot's entity entries into display rows, in order.
fn entity_rows(entries: &Vec<(String, EntityCounters)>) -> (rows: Vec<Vec<String>>)
    ensures
        rows@.len() == entries@.len(),
        forall|i: int|
            0 <= i < rows@.len() ==> entity_row_matches(#[trigger] rows@[i], entries@[i]),
        rows_well_formed(rows@),
{
    let mut rows: Vec<Vec<String>> = Vec::new();
    let mut i: usize = 0;
    while i < entries.len()
        invariant
            i <= entries@.len(),
            rows@.len() == i,
            forall|k: int|
                0 <= k < i ==> entity_row_matches(#[trigger] rows@[k], entries@[k]),
        decreases entries@.len() - i,
    {
        let secondary = u64_to_string(entries[i].1.connection_count);
        let row = format_row_data(entries[i].0.clone(), secondary, &entries[i].1);
        rows.push(row);
        i = i + 1;
    }
    rows
}

/// Builds the process table of the frame.
pub fn render_process_table(state: &UIState) -> (t: Table)
    ensures
        is_process_table(t, *state),
        table_well_formed(t),
{
    let rows = entity_rows(&state.processes);
    let mut column_names: Vec<String> = Vec::new();
    column_names.push(String::from_str("Process"));
    column_names.push(String::from_str("Connection Count"));
    column_names.push(String::from_str("Total Bytes"));
    let mut widths: Vec<u16> = Vec::new();
    widths.push(30);
    widths.push(30);
    widths.push(30);
    proof {
        assert(widths@ =~= seq![30u16, 30u16, 30u16]);
    }
    create_table(String::from_str("Utilization by process name"), column_names, rows, widths)
}

/// Builds the connections table of the frame.
pub fn render_connections_table(state: &UIState) -> (t: Table)
    ensures
        is_connections_table(t, *state),
        table_well_formed(t),
{
    let mut rows: Vec<Vec<String>> = Vec::new();
    let mut i: usize = 0;
    while i < state.connections.len()
        invariant
            i <= state.connections@.len(),
            rows@.len() == i,
            forall|k: int|
                0 <= k < i ==> connection_row_matches(#[trigger] rows@[k], state.connections@[k]),
        decreases state.connections@.len() - i,
    {
        let secondary = join_strings(&state.connections[i].1.processes, ", ");
        let row = format_row_data(state.connections[i].0.clone(), secondary, &state.connections[i].1);
        rows.push(row);
        i = i + 1;
    }
    let mut column_names: Vec<String> = Vec::new();
    column_names.push(String::from_str("Connection"));
    column_names.push(String::from_str("Processes"));
    column_names.push(String::from_str("Total Bytes Up/Down"));
    let mut widths: Vec<u16> = Vec::new();
    widths.push(50);
    widths.push(20);
    widths.push(20);
    proof {
        assert(widths@ =~= seq![50u16, 20u16, 20u16]);
    }
    create_table(String::from_str("Utilization by connection"), column_names, rows, widths)
}

/// Builds the remote-address table of the frame.
pub fn render_remote_ip_table(state: &UIState) -> (t: Table)
    ensures
        is_remote_address_table(t, *state),
        table_well_formed(t),
{
    let rows = entity_rows(&state.remote_addresses);
    let mut column_names: Vec<String> = Vec::new();
    column_names.push(String::from_str("Remote Address"));
    column_names.push(String::from_str("Connection Count"));
    column_names.push(String::from_str("Total Bytes"));
    let mut widths: Vec<u16> = Vec::new();
    widths.push(50);
    widths.push(20);
    widths.push(20);
    proof {
        assert(widths@ =~= seq![50u16, 20u16, 20u16]);
    }
    create_table(String::from_str("Utilization by remote ip"), column_names, rows, widths)
}

/// One frame ready to paint: the three tables, each paired with the screen
/// region it belongs in.
pub struct FrameModel {
    pub connections_table: Table,
    pub connections_region: Rect,
    pub processes_table: Table,
    pub processes_region: Rect,
    pub remote_addresses_table: Table,
    pub remote_addresses_region: Rect,
}

/// Lays out the screen and builds the three tables of a frame: the screen
/// is split into left and right halves, the right half into top and
/// bottom quarters; connections go left, processes right-top, remote
/// addresses right-bottom.
pub fn prepare_frame(state: &UIState, screen: Rect) -> (frame: FrameModel)
    requires
        rect_well_formed(screen),
    ensures
        is_connections_table(frame.connections_table, *state),
        is_process_table(frame.processes_table, *state),
        is_remote_address_table(frame.remote_addresses_table, *state),
        table_well_formed(frame.connections_table),
        table_well_formed(frame.processes_table),
        table_well_formed(frame.remote_addresses_table),
        frame.connections_region == spec_split(Direction::Horizontal, screen).0,
        frame.processes_region == spec_split(
            Direction::Vertical,
            spec_split(Direction::Horizontal, screen).1,
        ).0,
        frame.remote_addresses_region == spec_split(
            Direction::Vertical,
            spec_split(Direction::Horizontal, screen).1,
        ).1,
{
    let screen_horizontal_halves = split(Direction::Horizontal, screen);
    let right_side_vertical_halves = split(Direction::Vertical, screen_horizontal_halves[1]);
    FrameModel {
        connections_table: render_connections_table(state),
        connections_region: screen_horizontal_halves[0],
        processes_table: render_process_table(state),
        processes_region: right_side_vertical_halves[0],
        remote_addresses_table: render_remote_ip_table(state),
        remote_addresses_region: right_side_vertical_halves[1],
    }
}

/// Commits or aborts a frame after the caller has attempted to paint it.
/// A successful paint zeroes every counter of the store in place, keys
/// untouched; a failed paint leaves the store exactly as it was, so no
/// traffic is lost before the next tick.
pub fn commit_frame(store: &mut NetworkUtilization, painted: bool)
    ensures
        painted ==> final(store).process_data@ == old(store).process_data@.map_values(
            |e: (String, EntityCounters)| reset_entity_entry(e),
        ),
        painted ==> final(store).connection_data@ == old(store).connection_data@.map_values(
            |e: (String, ConnectionCounters)| reset_connection_entry(e),
        ),
        painted ==> final(store).remote_address_data@ == old(
            store,
        ).remote_address_data@.map_values(|e: (String, EntityCounters)| reset_entity_entry(e)),
        painted ==> store_is_zeroed(*final(store)),
        !painted ==> *final(store) == *old(store),
{
    if painted {
        store.reset();
    }
}

} // verus!
