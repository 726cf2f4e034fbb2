use alarm_sync::clock::{time_eq, AlarmTime, Clocks, Slot};

fn pending(h: u8, m: u8) -> AlarmTime {
    AlarmTime::Pending(Some((h, m)))
}

#[test]
fn hour_adjust_then_inverse_is_identity() {
    let starts = [(0u8, 0u8), (5, 30), (12, 0), (23, 59)];
    let deltas = [1i8, 3, 9];
    for &(h, m) in starts.iter() {
        for &d in deltas.iter() {
            let mut a = pending(h, m);
            a.adjust_hour(d);
            a.adjust_hour(-d);
            assert_eq!(a, pending(h, m));
        }
    }
}

#[test]
fn minute_adjust_then_inverse_is_identity() {
    let starts = [(0u8, 0u8), (5, 30), (12, 0), (23, 59)];
    let deltas = [1i8, 5, 15];
    for &(h, m) in starts.iter() {
        for &d in deltas.iter() {
            let mut a = pending(h, m);
            a.adjust_min(d);
            a.adjust_min(-d);
            assert_eq!(a, pending(h, m));
        }
    }
}

#[test]
fn inverse_holds_from_synced_values_too() {
    let mut a = AlarmTime::Synced(Some((23, 59)));
    a.adjust_hour(9);
    a.adjust_hour(-9);
    assert_eq!(a, pending(23, 59));
}

#[test]
fn midnight_minute_down_wraps_to_day_end() {
    let mut a = pending(0, 0);
    a.adjust_min(-1);
    assert_eq!(a, pending(23, 59));
}

#[test]
fn day_end_minute_up_wraps_to_midnight() {
    let mut a = pending(23, 59);
    a.adjust_min(1);
    assert_eq!(a, pending(0, 0));
}

#[test]
fn minute_carry_borrows_into_hour() {
    let mut a = pending(10, 59);
    a.adjust_min(1);
    assert_eq!(a, pending(11, 0));

    let mut b = pending(10, 0);
    b.adjust_min(-1);
    assert_eq!(b, pending(9, 59));
}

#[test]
fn hour_wraps_in_both_directions() {
    let mut a = pending(23, 10);
    a.adjust_hour(1);
    assert_eq!(a, pending(0, 10));

    let mut b = pending(0, 10);
    b.adjust_hour(-1);
    assert_eq!(b, pending(23, 10));
}

#[test]
fn unset_clock_adjusts_from_noon_default() {
    let mut a = AlarmTime::Pending(None);
    a.adjust_hour(1);
    assert_eq!(a, pending(13, 0));

    let mut b = AlarmTime::Pending(None);
    b.adjust_min(-15);
    assert_eq!(b, pending(11, 45));
}

#[test]
fn large_deltas_wrap_fully_into_range() {
    let mut a = pending(0, 0);
    a.adjust_hour(127);
    assert_eq!(a, pending(7, 0));

    let mut b = pending(0, 0);
    b.adjust_min(-128);
    assert_eq!(b, pending(21, 52));
}

#[test]
fn set_synced_keeps_value_and_retags() {
    let mut a = pending(6, 30);
    a.set_synced();
    assert_eq!(a, AlarmTime::Synced(Some((6, 30))));

    let mut b = AlarmTime::Pending(None);
    b.set_synced();
    assert_eq!(b, AlarmTime::Synced(None));
}

#[test]
fn adjustment_always_produces_a_pending_value() {
    let mut a = AlarmTime::Synced(Some((6, 30)));
    a.adjust_min(5);
    assert_eq!(a, pending(6, 35));
}

#[test]
fn inner_reads_through_both_tags() {
    assert_eq!(*pending(7, 0).inner(), Some((7, 0)));
    assert_eq!(*AlarmTime::Synced(None).inner(), None);
}

#[test]
fn inner_mut_writes_keep_the_tag() {
    let mut a = AlarmTime::Synced(Some((1, 2)));
    *a.inner_mut() = Some((3, 4));
    assert_eq!(a, AlarmTime::Synced(Some((3, 4))));

    let mut b = AlarmTime::Pending(None);
    *b.inner_mut() = Some((5, 6));
    assert_eq!(b, pending(5, 6));
}

#[test]
fn inner_or_def_returns_value_or_noon() {
    let mut a = pending(7, 45);
    assert_eq!(a.inner_or_def(), (7, 45));
    let mut b = AlarmTime::Synced(None);
    assert_eq!(b.inner_or_def(), (12, 0));
}

#[test]
fn clocks_accessors_follow_the_slot_tag() {
    let t = Clocks::Tomorrow(pending(7, 0));
    let u = Clocks::Usually(AlarmTime::Synced(None));
    assert_eq!(t.slot(), Slot::Tomorrow);
    assert_eq!(u.slot(), Slot::Usually);
    assert_eq!(*t.inner(), pending(7, 0));
    assert_eq!(*u.inner(), AlarmTime::Synced(None));
}

#[test]
fn clocks_set_synced_keeps_slot_and_value() {
    let t = Clocks::Tomorrow(pending(7, 0));
    assert_eq!(t.set_synced(), Clocks::Tomorrow(AlarmTime::Synced(Some((7, 0)))));
}

#[test]
fn clocks_set_none_keeps_slot_only() {
    let mut u = Clocks::Usually(AlarmTime::Synced(Some((6, 30))));
    u.set_none();
    assert_eq!(u, Clocks::Usually(AlarmTime::Pending(None)));
}

#[test]
fn clocks_inner_mut_keeps_slot() {
    let mut t = Clocks::Tomorrow(pending(1, 0));
    t.inner_mut().adjust_hour(2);
    assert_eq!(t, Clocks::Tomorrow(pending(3, 0)));
}

#[test]
fn time_eq_compares_values_only() {
    assert!(time_eq(None, None));
    assert!(time_eq(Some((7, 0)), Some((7, 0))));
    assert!(!time_eq(Some((7, 0)), Some((6, 30))));
    assert!(!time_eq(Some((7, 0)), None));
}
