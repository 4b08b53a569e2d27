use bandview::rows::format_row_data;
use bandview::store::{ConnectionCounters, EntityCounters};

#[test]
fn row_has_three_cells_with_combined_bandwidth() {
    let counters = EntityCounters {
        total_bytes_uploaded: 1000,
        total_bytes_downloaded: 2000,
        connection_count: 1,
    };
    let row = format_row_data(String::from("chrome"), String::from("1"), &counters);
    assert_eq!(row.len(), 3);
    assert_eq!(row[0], "chrome");
    assert_eq!(row[1], "1");
    assert_eq!(row[2], "1.00KBps/2.00KBps");
}

#[test]
fn row_bandwidth_cell_matches_formatted_slash_formatted() {
    let counters = ConnectionCounters {
        total_bytes_uploaded: 2500000000,
        total_bytes_downloaded: 500,
    };
    let row = format_row_data(String::from("10.0.0.1:443"), String::from("chrome"), &counters);
    assert_eq!(row.len(), 3);
    assert_eq!(row[2], "2.50GBps/500Bps");
    // The third cell is always `<formatted>/<formatted>`.
    let parts: Vec<&str> = row[2].split('/').collect();
    assert_eq!(parts.len(), 2);
    assert!(parts[0].ends_with("Bps"));
    assert!(parts[1].ends_with("Bps"));
}

#[test]
fn zero_counters_row() {
    let counters = EntityCounters {
        total_bytes_uploaded: 0,
        total_bytes_downloaded: 0,
        connection_count: 0,
    };
    let row = format_row_data(String::from("idle"), String::from("0"), &counters);
    assert_eq!(row[2], "0Bps/0Bps");
}
