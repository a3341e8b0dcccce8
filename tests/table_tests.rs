use ham::band::Band;
use ham::table::{ProtocolRecord, StatusTable};

fn strings(v: &[&str]) -> Vec<String> {
    v.iter().map(|s| s.to_string()).collect()
}

fn two_rows() -> StatusTable {
    StatusTable::initialize(&strings(&["A", "B"]), &strings(&["first", "second"]))
}

#[test]
fn initialize_gives_pending_rows_in_order() {
    let t = two_rows();
    let rows = t.snapshot();
    assert_eq!(rows.len(), 2);
    assert_eq!(t.len(), 2);
    assert_eq!(rows[0].name, "A");
    assert_eq!(rows[1].name, "B");
    assert_eq!(rows[0].score, 0);
    assert_eq!(rows[1].score, 0);
    assert_eq!(rows[0].detail, "first");
    assert!(rows[0].pending && rows[1].pending);
    assert_eq!(rows[0].band(), Band::Pending);
    assert_eq!(rows[1].status(), "Testing...");
}

#[test]
fn initialize_empty_catalog() {
    let t = StatusTable::initialize(&Vec::new(), &Vec::new());
    assert_eq!(t.snapshot().len(), 0);
}

#[test]
fn update_twice_equals_update_once() {
    let mut once = two_rows();
    once.update("A", 6, "again");
    let mut twice = two_rows();
    twice.update("A", 6, "again");
    twice.update("A", 6, "again");
    assert_eq!(once.snapshot(), twice.snapshot());
    assert_eq!(twice.snapshot()[0].score, 6);
    assert_eq!(twice.snapshot()[0].status(), "Limited");
}

#[test]
fn snapshot_mid_cycle_shows_whole_rows() {
    let mut t = two_rows();
    t.update("A", 10, "first");
    let mid = t.snapshot();
    assert_eq!(mid[0].score, 10);
    assert_eq!(mid[0].detail, "first");
    assert!(!mid[0].pending);
    assert_eq!(mid[1].score, 0);
    assert!(mid[1].pending);
    t.update("B", 0, "second");
    let after = t.snapshot();
    assert_eq!(after[1].score, 0);
    assert!(!after[1].pending);
    assert_eq!(after[1].status(), "Blocked/Failed");
    // the earlier snapshot is a copy and does not move
    assert!(mid[1].pending);
}

#[test]
fn update_unknown_name_is_ignored() {
    let mut t = two_rows();
    let before = t.snapshot();
    t.update("Z", 9, "nowhere");
    assert_eq!(t.snapshot(), before);
    assert_eq!(t.snapshot().len(), 2);
}

#[test]
fn update_overwrites_detail() {
    let mut t = two_rows();
    t.update("B", 4, "refreshed");
    let rows = t.snapshot();
    assert_eq!(rows[1].detail, "refreshed");
    assert_eq!(rows[1].score, 4);
    assert_eq!(rows[0].detail, "first");
}

#[test]
fn out_of_range_score_shows_unknown() {
    let mut t = two_rows();
    t.update("A", 42, "first");
    let rows = t.snapshot();
    assert_eq!(rows[0].band(), Band::Unknown);
    assert_eq!(rows[0].status(), "Unknown");
}

#[test]
fn duplicate_keeps_every_field() {
    let r = ProtocolRecord {
        name: "DNS".to_string(),
        score: 7,
        detail: "Domain resolution".to_string(),
        pending: false,
    };
    assert_eq!(r.duplicate(), r);
}
