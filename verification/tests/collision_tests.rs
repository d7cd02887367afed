use platformer_core::collision::classify_contacts;
use platformer_core::level::BlockKind;

#[test]
fn ground_contact_without_hazard() {
    let kinds = vec![BlockKind::Ground];
    let e = classify_contacts(&kinds);
    assert!(e.ground_contact);
    assert!(e.respawn.is_none());
}

#[test]
fn one_respawn_event_however_many_hazards() {
    let kinds = vec![BlockKind::Hazard, BlockKind::Hazard, BlockKind::Hazard];
    let e = classify_contacts(&kinds);
    assert!(!e.ground_contact);
    // Three overlapping hazards still request exactly one respawn.
    assert!(e.respawn.is_some());
}

#[test]
fn mixed_contacts_report_both() {
    let kinds = vec![BlockKind::Clipped, BlockKind::Ground, BlockKind::Hazard];
    let e = classify_contacts(&kinds);
    assert!(e.ground_contact);
    assert!(e.respawn.is_some());
}

#[test]
fn clipped_blocks_classify_to_nothing() {
    let kinds = vec![BlockKind::Clipped, BlockKind::Clipped];
    let e = classify_contacts(&kinds);
    assert!(!e.ground_contact);
    assert!(e.respawn.is_none());
}

#[test]
fn no_contacts_no_events() {
    let kinds: Vec<BlockKind> = Vec::new();
    let e = classify_contacts(&kinds);
    assert!(!e.ground_contact);
    assert!(e.respawn.is_none());
}
