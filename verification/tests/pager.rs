use rse_core::model::Pager;

#[test]
fn a_pager_keeps_what_it_is_given() {
    let p = Pager::new(5, 10);
    assert_eq!(p.offset(), 5);
    assert_eq!(p.limit(), 10);
}

#[test]
fn a_limit_below_one_becomes_one() {
    for offset in [i64::MIN, -1, 0, 1, 42, i64::MAX] {
        for limit in [i64::MIN, -5, -1, 0] {
            let p = Pager::new(offset, limit);
            assert_eq!(p.limit(), 1);
            assert_eq!(p.offset(), offset);
        }
    }
}

#[test]
fn a_limit_of_one_or_more_stays() {
    assert_eq!(Pager::new(0, 1).limit(), 1);
    assert_eq!(Pager::new(0, 2).limit(), 2);
    assert_eq!(Pager::new(0, i64::MAX).limit(), i64::MAX);
}

#[test]
fn a_negative_offset_is_kept() {
    let p = Pager::new(-7, -3);
    assert_eq!(p.offset(), -7);
    assert_eq!(p.limit(), 1);
}

#[test]
fn the_offset_moves_and_the_limit_stays() {
    let mut p = Pager::new(0, 16);
    p.add_offset(16);
    assert_eq!((p.offset(), p.limit()), (16, 16));
    p.add_offset(-32);
    assert_eq!((p.offset(), p.limit()), (-16, 16));
    p.set_offset(48);
    assert_eq!((p.offset(), p.limit()), (48, 16));
}

#[test]
fn the_limit_moves_and_the_offset_stays() {
    let mut p = Pager::new(3, 16);
    p.add_limit(4);
    assert_eq!((p.offset(), p.limit()), (3, 20));
    p.add_limit(-5);
    assert_eq!((p.offset(), p.limit()), (3, 15));
    p.set_limit(7);
    assert_eq!((p.offset(), p.limit()), (3, 7));
    p.set_limit(i64::MAX);
    assert_eq!((p.offset(), p.limit()), (3, i64::MAX));
}

#[test]
fn the_limit_never_falls_below_one() {
    let mut p = Pager::new(3, 16);
    p.add_limit(-25);
    assert_eq!((p.offset(), p.limit()), (3, 1));
    p.add_limit(-16);
    assert_eq!((p.offset(), p.limit()), (3, 1));
    p.add_limit(i64::MIN);
    assert_eq!((p.offset(), p.limit()), (3, 1));
    p.add_limit(1);
    assert_eq!((p.offset(), p.limit()), (3, 2));
    for v in [0, -1, -5, i64::MIN] {
        p.set_limit(9);
        p.set_limit(v);
        assert_eq!((p.offset(), p.limit()), (3, 1));
    }
    p.set_limit(1);
    assert_eq!(p.limit(), 1);
}

#[test]
fn the_limit_moves_up_to_the_end_of_the_range() {
    let mut p = Pager::new(0, i64::MAX - 1);
    p.add_limit(1);
    assert_eq!(p.limit(), i64::MAX);
    p.add_limit(0);
    assert_eq!(p.limit(), i64::MAX);
}

#[test]
fn moving_to_the_ends_of_the_range_fits() {
    let mut p = Pager::new(i64::MAX - 1, 1);
    p.add_offset(1);
    assert_eq!(p.offset(), i64::MAX);
    let mut q = Pager::new(i64::MIN + 1, 1);
    q.add_offset(-1);
    assert_eq!(q.offset(), i64::MIN);
}
