use proxy::counters::ByteCounters;
use proxy::relay::{run_relay, TransferEvent};

#[test]
fn unknown_destination_counts_as_zero() {
    let counters = ByteCounters::new();
    assert_eq!(counters.get(7), (0, 0));
}

#[test]
fn record_moves_exactly_one_destination() {
    let mut counters = ByteCounters::new();
    counters.record(7, 10, 20);
    assert_eq!(counters.get(7), (10, 20));
    assert_eq!(counters.get(8), (0, 0));

    counters.record(8, 1, 2);
    counters.record(7, 5, 5);
    assert_eq!(counters.get(7), (15, 25));
    assert_eq!(counters.get(8), (1, 2));
}

#[test]
fn relay_totals_are_exact_per_direction() {
    let mut counters = ByteCounters::new();
    counters.record(7, 100, 200);
    counters.record(8, 1, 1);

    // client -> node: 5 + 2 = 7 bytes; node -> client: 3 bytes
    let transfers = vec![
        TransferEvent::ClientToNode(5),
        TransferEvent::NodeToClient(3),
        TransferEvent::ClientToNode(2),
    ];
    run_relay(&mut counters, 7, &transfers);

    assert_eq!(counters.get(7), (103, 207));
    assert_eq!(counters.get(8), (1, 1));
}

#[test]
fn relay_with_no_traffic_changes_nothing() {
    let mut counters = ByteCounters::new();
    counters.record(3, 4, 5);
    run_relay(&mut counters, 3, &Vec::new());
    assert_eq!(counters.get(3), (4, 5));
}

#[test]
fn counters_pin_at_the_top_instead_of_wrapping() {
    let mut counters = ByteCounters::new();
    counters.record(9, u64::MAX, 0);
    counters.record(9, 5, 3);
    assert_eq!(counters.get(9), (u64::MAX, 3));
}
