use bandview::frame::{commit_frame, prepare_frame, render_connections_table, render_process_table, render_remote_ip_table};
use bandview::layout::Rect;
use bandview::state::{ConnectionInfo, CurrentConnections, UIState};
use bandview::store::{ConnectionCounters, EntityCounters, NetworkUtilization};
use bandview::table::create_table;

fn chrome_store() -> NetworkUtilization {
    NetworkUtilization {
        process_data: vec![(
            String::from("chrome"),
            EntityCounters {
                total_bytes_uploaded: 1000,
                total_bytes_downloaded: 2000,
                connection_count: 1,
            },
        )],
        connection_data: vec![(
            String::from("10.0.0.1:443"),
            ConnectionCounters { total_bytes_uploaded: 1000, total_bytes_downloaded: 2000 },
        )],
        remote_address_data: vec![(
            String::from("10.0.0.1"),
            EntityCounters {
                total_bytes_uploaded: 1000,
                total_bytes_downloaded: 2000,
                connection_count: 1,
            },
        )],
    }
}

fn chrome_connections() -> CurrentConnections {
    CurrentConnections {
        connections: vec![ConnectionInfo {
            endpoint: String::from("10.0.0.1:443"),
            process_names: vec![String::from("chrome")],
        }],
    }
}

#[test]
fn create_table_copies_its_parts() {
    let table = create_table(
        String::from("title"),
        vec![String::from("a"), String::from("b"), String::from("c")],
        vec![vec![String::from("1"), String::from("2"), String::from("3")]],
        vec![50, 20, 20],
    );
    assert_eq!(table.title, "title");
    assert_eq!(table.column_names, vec!["a", "b", "c"]);
    assert_eq!(table.rows.len(), 1);
    assert_eq!(table.rows[0], vec!["1", "2", "3"]);
    assert_eq!(table.widths, vec![50, 20, 20]);
}

#[test]
fn table_titles_headers_and_widths() {
    let state = UIState::new(chrome_connections(), &chrome_store());
    let connections = render_connections_table(&state);
    assert_eq!(connections.title, "Utilization by connection");
    assert_eq!(connections.column_names, vec!["Connection", "Processes", "Total Bytes Up/Down"]);
    assert_eq!(connections.widths, vec![50, 20, 20]);
    let processes = render_process_table(&state);
    assert_eq!(processes.title, "Utilization by process name");
    assert_eq!(processes.column_names, vec!["Process", "Connection Count", "Total Bytes"]);
    assert_eq!(processes.widths, vec![30, 30, 30]);
    let remote = render_remote_ip_table(&state);
    assert_eq!(remote.title, "Utilization by remote ip");
    assert_eq!(remote.column_names, vec!["Remote Address", "Connection Count", "Total Bytes"]);
    assert_eq!(remote.widths, vec![50, 20, 20]);
}

#[test]
fn frame_layout_regions() {
    let state = UIState::new(chrome_connections(), &chrome_store());
    let screen = Rect { x: 0, y: 0, width: 80, height: 24 };
    let frame = prepare_frame(&state, screen);
    assert_eq!(frame.connections_region, Rect { x: 0, y: 0, width: 40, height: 24 });
    assert_eq!(frame.processes_region, Rect { x: 40, y: 0, width: 40, height: 12 });
    assert_eq!(frame.remote_addresses_region, Rect { x: 40, y: 12, width: 40, height: 12 });
}

#[test]
fn end_to_end_frame() {
    let mut store = chrome_store();
    let state = UIState::new(chrome_connections(), &store);
    let frame = prepare_frame(&state, Rect { x: 0, y: 0, width: 80, height: 24 });
    assert_eq!(frame.connections_table.rows.len(), 1);
    assert_eq!(
        frame.connections_table.rows[0],
        vec!["10.0.0.1:443", "chrome", "1.00KBps/2.00KBps"]
    );
    assert_eq!(frame.processes_table.rows[0], vec!["chrome", "1", "1.00KBps/2.00KBps"]);
    assert_eq!(frame.remote_addresses_table.rows[0], vec!["10.0.0.1", "1", "1.00KBps/2.00KBps"]);
    // The paint succeeded: the frame commits and the counters are zeroed.
    commit_frame(&mut store, true);
    assert_eq!(store.process_data[0].0, "chrome");
    assert_eq!(
        store.process_data[0].1,
        EntityCounters { total_bytes_uploaded: 0, total_bytes_downloaded: 0, connection_count: 0 }
    );
}

#[test]
fn failed_paint_leaves_counters_unchanged() {
    let mut store = chrome_store();
    let state = UIState::new(chrome_connections(), &store);
    let _frame = prepare_frame(&state, Rect { x: 0, y: 0, width: 80, height: 24 });
    // The paint failed: no reset side effect may happen.
    commit_frame(&mut store, false);
    assert_eq!(store.process_data[0].0, "chrome");
    assert_eq!(store.process_data[0].1.total_bytes_uploaded, 1000);
    assert_eq!(store.process_data[0].1.total_bytes_downloaded, 2000);
    assert_eq!(store.process_data[0].1.connection_count, 1);
    assert_eq!(store.connection_data[0].1.total_bytes_uploaded, 1000);
    assert_eq!(store.remote_address_data[0].1.total_bytes_downloaded, 2000);
}
