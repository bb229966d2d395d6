use libg933::table::{CorrelationTable, Resolution};

fn frame_with(header: [u8; 4], fill: u8) -> [u8; 20] {
    let mut frame = [fill; 20];
    frame[..4].copy_from_slice(&header);
    frame
}

#[test]
fn new_table_is_empty() {
    let table: CorrelationTable<u64> = CorrelationTable::new();
    assert!(table.is_empty());
    assert_eq!(table.len(), 0);
    assert!(!table.contains(0x11ff0801));
}

#[test]
fn claim_succeeds_once_per_header() {
    let mut table: CorrelationTable<u64> = CorrelationTable::new();
    assert!(table.try_claim(0x11ff0701));
    assert!(!table.try_claim(0x11ff0701));
    assert!(table.contains(0x11ff0701));
    assert_eq!(table.len(), 1);
}

#[test]
fn claim_fails_while_an_endpoint_is_registered() {
    let mut table: CorrelationTable<u64> = CorrelationTable::new();
    assert!(table.try_claim(0x11ff0701));
    table.register(0x11ff0701, 1);
    assert!(!table.try_claim(0x11ff0701));
    assert_eq!(table.len(), 1);
}

#[test]
fn claims_of_different_headers_do_not_interfere() {
    let mut table: CorrelationTable<u64> = CorrelationTable::new();
    assert!(table.try_claim(0x11ff0801));
    assert!(table.try_claim(0x11ff0401));
    assert_eq!(table.len(), 2);
}

#[test]
fn register_replaces_what_was_there() {
    let mut table: CorrelationTable<u64> = CorrelationTable::new();
    table.register(0x11ff0500, 1);
    table.register(0x11ff0500, 2);
    assert_eq!(table.len(), 1);
    let frame = frame_with([0x11, 0xff, 0x05, 0x00], 3);
    assert_eq!(
        table.resolve(0x11ff0500, frame),
        Resolution::Delivered { endpoint: 2, frame }
    );
}

#[test]
fn resolve_delivers_once_and_removes_the_entry() {
    let mut table: CorrelationTable<u64> = CorrelationTable::new();
    table.register(0x11ff0801, 42);
    let frame = frame_with([0x11, 0xff, 0x08, 0x01], 0x32);
    assert_eq!(
        table.resolve(0x11ff0801, frame),
        Resolution::Delivered { endpoint: 42, frame }
    );
    assert!(!table.contains(0x11ff0801));
    assert!(table.is_empty());
    assert_eq!(table.resolve(0x11ff0801, frame), Resolution::Unmatched);
}

#[test]
fn unmatched_report_leaves_other_entries_alone() {
    let mut table: CorrelationTable<u64> = CorrelationTable::new();
    table.register(0x11ff0801, 1);
    table.register(0x11ff0401, 2);
    let stray = frame_with([0x11, 0xff, 0x07, 0x11], 0);
    assert_eq!(table.resolve(0x11ff0711, stray), Resolution::Unmatched);
    assert_eq!(table.len(), 2);
    let frame = frame_with([0x11, 0xff, 0x04, 0x01], 9);
    assert_eq!(
        table.resolve(0x11ff0401, frame),
        Resolution::Delivered { endpoint: 2, frame }
    );
    assert!(table.contains(0x11ff0801));
}

#[test]
fn report_for_a_reserved_header_is_dropped_and_the_reservation_stays() {
    let mut table: CorrelationTable<u64> = CorrelationTable::new();
    assert!(table.try_claim(0x11ff0801));
    let frame = frame_with([0x11, 0xff, 0x08, 0x01], 1);
    assert_eq!(table.resolve(0x11ff0801, frame), Resolution::Unmatched);
    assert!(table.contains(0x11ff0801));
    assert!(!table.try_claim(0x11ff0801));
}

#[test]
fn remove_frees_the_header() {
    let mut table: CorrelationTable<u64> = CorrelationTable::new();
    table.register(0x11ff0801, 1);
    table.remove(0x11ff0801);
    assert!(table.is_empty());
    assert!(table.try_claim(0x11ff0801));
    table.remove(0x11ff0401);
    assert_eq!(table.len(), 1);
}
