use libg933::frame::RequestError;
use libg933::listener::{listener_step, ListenerAction, ListenerEvent, POLL_INTERVAL_MS};
use libg933::table::CorrelationTable;

fn frame_with(header: [u8; 4], fill: u8) -> [u8; 20] {
    let mut frame = [fill; 20];
    frame[..4].copy_from_slice(&header);
    frame
}

#[test]
fn poll_interval_is_a_tenth_of_a_second() {
    assert_eq!(POLL_INTERVAL_MS, 100);
}

#[test]
fn listener_does_not_read_while_nobody_waits() {
    let mut table: CorrelationTable<u64> = CorrelationTable::new();
    assert_eq!(
        listener_step(&mut table, ListenerEvent::Woke),
        ListenerAction::Sleep { ms: 100 }
    );
}

#[test]
fn listener_reads_while_somebody_waits() {
    let mut table: CorrelationTable<u64> = CorrelationTable::new();
    table.register(0x11ff0801, 1);
    assert_eq!(listener_step(&mut table, ListenerEvent::Woke), ListenerAction::Read);
    assert_eq!(table.len(), 1);
}

#[test]
fn read_of_nothing_is_no_report() {
    let mut table: CorrelationTable<u64> = CorrelationTable::new();
    table.register(0x11ff0801, 1);
    let data = frame_with([0x11, 0xff, 0x08, 0x01], 5);
    assert_eq!(
        listener_step(&mut table, ListenerEvent::Read { count: 0, data }),
        ListenerAction::Sleep { ms: 100 }
    );
    assert!(table.contains(0x11ff0801));
}

#[test]
fn matching_report_is_delivered_and_its_entry_removed() {
    let mut table: CorrelationTable<u64> = CorrelationTable::new();
    table.register(0x11ff0801, 1);
    table.register(0x11ff0401, 2);
    let data = frame_with([0x11, 0xff, 0x04, 0x01], 5);
    assert_eq!(
        listener_step(&mut table, ListenerEvent::Read { count: 20, data }),
        ListenerAction::Deliver { endpoint: 2, frame: data }
    );
    assert!(!table.contains(0x11ff0401));
    assert!(table.contains(0x11ff0801));
}

#[test]
fn unmatched_report_is_dropped() {
    let mut table: CorrelationTable<u64> = CorrelationTable::new();
    table.register(0x11ff0801, 1);
    let data = frame_with([0x11, 0xff, 0x05, 0x00], 5);
    assert_eq!(
        listener_step(&mut table, ListenerEvent::Read { count: 20, data }),
        ListenerAction::Sleep { ms: 100 }
    );
    assert_eq!(table.len(), 1);
    assert!(table.contains(0x11ff0801));
}

#[test]
fn second_copy_of_a_report_is_dropped() {
    let mut table: CorrelationTable<u64> = CorrelationTable::new();
    table.register(0x11ff0801, 1);
    let data = frame_with([0x11, 0xff, 0x08, 0x01], 5);
    assert_eq!(
        listener_step(&mut table, ListenerEvent::Read { count: 20, data }),
        ListenerAction::Deliver { endpoint: 1, frame: data }
    );
    assert_eq!(
        listener_step(&mut table, ListenerEvent::Read { count: 20, data }),
        ListenerAction::Sleep { ms: 100 }
    );
}

#[test]
fn failed_read_stops_the_listener() {
    let mut table: CorrelationTable<u64> = CorrelationTable::new();
    table.register(0x11ff0801, 1);
    assert_eq!(
        listener_step(&mut table, ListenerEvent::ReadFailed),
        ListenerAction::Stop { error: RequestError::TransportRead }
    );
    assert!(table.contains(0x11ff0801));
}

#[test]
fn short_read_is_dropped_even_for_a_registered_header() {
    let mut table: CorrelationTable<u64> = CorrelationTable::new();
    table.register(0x11ff0801, 1);
    let data = frame_with([0x11, 0xff, 0x08, 0x01], 5);
    for count in 1..20 {
        assert_eq!(
            listener_step(&mut table, ListenerEvent::Read { count, data }),
            ListenerAction::Sleep { ms: 100 }
        );
        assert!(table.contains(0x11ff0801));
        assert_eq!(table.len(), 1);
    }
    assert_eq!(
        listener_step(&mut table, ListenerEvent::Read { count: 20, data }),
        ListenerAction::Deliver { endpoint: 1, frame: data }
    );
}

#[test]
fn read_longer_than_a_report_is_dropped() {
    let mut table: CorrelationTable<u64> = CorrelationTable::new();
    table.register(0x11ff0801, 1);
    let data = frame_with([0x11, 0xff, 0x08, 0x01], 5);
    assert_eq!(
        listener_step(&mut table, ListenerEvent::Read { count: 21, data }),
        ListenerAction::Sleep { ms: 100 }
    );
    assert!(table.contains(0x11ff0801));
}
