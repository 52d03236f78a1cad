use deepfilter_vst::{poll_changes, ParamBank, ParamKind};

fn bank(a: u32, mi: u32, e: u32, ma: u32, p: u32) -> ParamBank {
    ParamBank {
        atten_lim: a,
        min_thresh: mi,
        max_erb: e,
        max_thresh: ma,
        post_filter_beta: p,
    }
}

#[test]
fn write_is_skipped_when_bits_match() {
    let mut b = bank(1, 2, 3, 4, 5);
    assert!(!b.write_if_changed(ParamKind::AttenLim, 1));
    assert_eq!(b, bank(1, 2, 3, 4, 5));
    assert!(b.write_if_changed(ParamKind::AttenLim, 9));
    assert_eq!(b, bank(9, 2, 3, 4, 5));
    // The second identical write changes nothing.
    assert!(!b.write_if_changed(ParamKind::AttenLim, 9));
    assert_eq!(b, bank(9, 2, 3, 4, 5));
}

#[test]
fn bit_patterns_not_numbers_decide_a_change() {
    // 0.0 and -0.0 compare equal as numbers but have different bit
    // patterns: the channel must treat them as a change.
    let plus = 0.0f32.to_bits();
    let minus = (-0.0f32).to_bits();
    assert_ne!(plus, minus);
    let mut b = bank(plus, 0, 0, 0, 0);
    assert!(b.write_if_changed(ParamKind::AttenLim, minus));
}

#[test]
fn poll_lists_changed_slots_in_slot_order() {
    let last = bank(1, 2, 3, 4, 5);
    let cur = bank(1, 20, 3, 40, 5);
    let changes = poll_changes(&last, &cur);
    assert_eq!(changes.len(), 2);
    assert_eq!(changes[0].kind, ParamKind::MinThresh);
    assert_eq!(changes[0].bits, 20);
    assert_eq!(changes[1].kind, ParamKind::MaxThresh);
    assert_eq!(changes[1].bits, 40);
}

#[test]
fn poll_on_synced_banks_is_empty() {
    let b = bank(1, 2, 3, 4, 5);
    assert_eq!(poll_changes(&b, &b).len(), 0);
}

#[test]
fn every_slot_can_change_at_once() {
    let last = bank(1, 2, 3, 4, 5);
    let cur = bank(10, 20, 30, 40, 50);
    let changes = poll_changes(&last, &cur);
    assert_eq!(changes.len(), 5);
    assert_eq!(changes[0].kind, ParamKind::AttenLim);
    assert_eq!(changes[1].kind, ParamKind::MinThresh);
    assert_eq!(changes[2].kind, ParamKind::MaxErb);
    assert_eq!(changes[3].kind, ParamKind::MaxThresh);
    assert_eq!(changes[4].kind, ParamKind::PostFilterBeta);
}
