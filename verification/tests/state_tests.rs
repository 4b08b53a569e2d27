use bandview::state::{join_strings, ConnectionInfo, CurrentConnections, UIState};
use bandview::store::{ConnectionCounters, EntityCounters, NetworkUtilization};

#[test]
fn join_with_comma_space() {
    assert_eq!(join_strings(&vec![], ", "), "");
    assert_eq!(join_strings(&vec![String::from("chrome")], ", "), "chrome");
    assert_eq!(
        join_strings(
            &vec![String::from("chrome"), String::from("sshd"), String::from("curl")],
            ", "
        ),
        "chrome, sshd, curl"
    );
}

#[test]
fn snapshot_copies_store_and_joins_owners() {
    let store = NetworkUtilization {
        process_data: vec![(
            String::from("chrome"),
            EntityCounters {
                total_bytes_uploaded: 1000,
                total_bytes_downloaded: 2000,
                connection_count: 1,
            },
        )],
        connection_data: vec![
            (
                String::from("10.0.0.1:443"),
                ConnectionCounters { total_bytes_uploaded: 1000, total_bytes_downloaded: 2000 },
            ),
            (
                String::from("192.168.1.9:22"),
                ConnectionCounters { total_bytes_uploaded: 5, total_bytes_downloaded: 6 },
            ),
        ],
        remote_address_data: vec![(
            String::from("10.0.0.1"),
            EntityCounters {
                total_bytes_uploaded: 1000,
                total_bytes_downloaded: 2000,
                connection_count: 1,
            },
        )],
    };
    let current = CurrentConnections {
        connections: vec![ConnectionInfo {
            endpoint: String::from("10.0.0.1:443"),
            process_names: vec![String::from("chrome")],
        }],
    };
    let state = UIState::new(current, &store);
    assert_eq!(state.processes.len(), 1);
    assert_eq!(state.processes[0].0, "chrome");
    assert_eq!(state.processes[0].1.total_bytes_uploaded, 1000);
    assert_eq!(state.remote_addresses.len(), 1);
    assert_eq!(state.remote_addresses[0].0, "10.0.0.1");
    assert_eq!(state.connections.len(), 2);
    assert_eq!(state.connections[0].0, "10.0.0.1:443");
    assert_eq!(state.connections[0].1.total_bytes_uploaded, 1000);
    assert_eq!(state.connections[0].1.total_bytes_downloaded, 2000);
    assert_eq!(state.connections[0].1.processes, vec![String::from("chrome")]);
    // A connection the discovery list does not know gets no owner names.
    assert_eq!(state.connections[1].0, "192.168.1.9:22");
    assert!(state.connections[1].1.processes.is_empty());
}

#[test]
fn owners_come_from_first_matching_entry() {
    let store = NetworkUtilization {
        process_data: vec![],
        connection_data: vec![(
            String::from("10.0.0.1:443"),
            ConnectionCounters { total_bytes_uploaded: 1, total_bytes_downloaded: 1 },
        )],
        remote_address_data: vec![],
    };
    let current = CurrentConnections {
        connections: vec![
            ConnectionInfo {
                endpoint: String::from("10.0.0.2:80"),
                process_names: vec![String::from("curl")],
            },
            ConnectionInfo {
                endpoint: String::from("10.0.0.1:443"),
                process_names: vec![String::from("chrome"), String::from("firefox")],
            },
            ConnectionInfo {
                endpoint: String::from("10.0.0.1:443"),
                process_names: vec![String::from("sshd")],
            },
        ],
    };
    let state = UIState::new(current, &store);
    assert_eq!(
        state.connections[0].1.processes,
        vec![String::from("chrome"), String::from("firefox")]
    );
}
