use gwrs::segments::Segment;

#[test]
fn test_new_segment() {
    assert_eq!(
        Segment::new(0.0, 10.0),
        Segment {
            start: 0.0,
            end: 10.0
        }
    );
    assert_eq!(
        Segment::new(10.0, 0.0),
        Segment {
            start: 0.0,
            end: 10.0
        }
    );
    assert_eq!(
        Segment::new(5.0, 5.0),
        Segment {
            start: 5.0,
            end: 5.0
        }
    );
}

#[test]
fn test_start_end_properties() {
    let s = Segment::new(1.0, 5.0);
    assert_eq!(s.start(), 1.0);
    assert_eq!(s.end(), 5.0);
}

#[test]
fn test_contains() {
    assert!(Segment::new(0.0, 10.0).contains_segment(&Segment::new(1.0, 2.0)));
    assert!(!Segment::new(0.0, 10.0).contains_segment(&Segment::new(1.0, 11.0)));
    assert!(!Segment::new(0.0, 10.0).contains_segment(&Segment::new(-1.0, 2.0)));
    assert!(Segment::new(0.0, 10.0).contains_segment(&Segment::new(0.0, 10.0)));
    assert!(Segment::new(0.0, 0.0).contains_segment(&Segment::new(0.0, 0.0)));
}

#[test]
fn test_is_empty() {
    assert!(!Segment::new(0.0, 1.0).is_empty());
    assert!(Segment::new(0.0, 0.0).is_empty());
    assert!(Segment::new(5.0, 5.0).is_empty());
}

#[test]
fn test_debug_repr() {
    let s = Segment::new(1.0, 5.0);
    assert_eq!(format!("{:?}", s), "Segment { start: 1.0, end: 5.0 }");
}

#[test]
fn test_bitand_intersection() {
    let s1 = Segment::new(0.0, 10.0);
    let s2 = Segment::new(5.0, 15.0);
    assert_eq!(s1 & s2, Segment::new(5.0, 10.0));
}

#[test]
fn test_bitor_union() {
    let s1 = Segment::new(0.0, 10.0);
    let s2 = Segment::new(5.0, 15.0);
    assert_eq!(s1 | s2, Segment::new(0.0, 15.0));
    let s3 = Segment::new(0.0, 5.0);
    let s4 = Segment::new(10.0, 15.0);
    assert_eq!(s3 | s4, Segment::new(0.0, 15.0));
}

#[test]
fn test_sub_difference() {
    assert_eq!(
        Segment::new(0.0, 10.0) - Segment::new(5.0, 15.0),
        Segment::new(0.0, 5.0)
    );
    assert_eq!(
        Segment::new(5.0, 15.0) - Segment::new(0.0, 10.0),
        Segment::new(10.0, 15.0)
    );
    assert_eq!(
        Segment::new(0.0, 10.0) - Segment::new(2.0, 8.0),
        Segment::new(0.0, 2.0)
    );
    assert_eq!(
        Segment::new(0.0, 5.0) - Segment::new(10.0, 15.0),
        Segment::new(0.0, 5.0)
    );
    assert_eq!(
        Segment::new(10.0, 15.0) - Segment::new(0.0, 5.0),
        Segment::new(10.0, 15.0)
    );
    assert_eq!(
        Segment::new(2.0, 8.0) - Segment::new(0.0, 10.0),
        Segment::new(2.0, 2.0)
    );
    assert_eq!(
        Segment::new(0.0, 10.0) - Segment::new(2.0, 8.0),
        Segment::new(0.0, 2.0)
    );
}

#[test]
fn test_partial_ord_less_than() {
    assert!(Segment::new(0.0, 10.0) < Segment::new(5.0, 15.0));
    assert!(Segment::new(0.0, 10.0) < Segment::new(5.0, 10.0));
    assert!(Segment::new(0.0, 10.0) < Segment::new(5.0, 8.0));
    assert!(Segment::new(5.0, 10.0) < Segment::new(5.0, 15.0));
    assert!(Segment::new(6.0, 10.0) > Segment::new(5.0, 15.0));
    assert!(Segment::new(0.0, 10.0) < Segment::new(0.0, 15.0));
    assert!(Segment::new(0.0, 10.0) == Segment::new(0.0, 10.0));
}

#[test]
fn literal_cases_on_integers() {
    assert_eq!(Segment::new(0, 10) & Segment::new(5, 15), Segment::new(5, 10));
    assert_eq!(Segment::new(0, 10) | Segment::new(5, 15), Segment::new(0, 15));
    assert_eq!(Segment::new(0, 10) - Segment::new(5, 15), Segment::new(0, 5));
    assert_eq!(Segment::new(5, 15) - Segment::new(0, 10), Segment::new(10, 15));
    assert_eq!(format!("{:?}", Segment::new(5u8, 1u8)), "Segment { start: 1, end: 5 }");
}

#[test]
fn new_ignores_the_order_of_the_bounds() {
    for (a, b) in [(0, 10), (-7, 3), (4, 4), (i64::MIN, i64::MAX)] {
        assert_eq!(Segment::new(a, b), Segment::new(b, a));
        assert!(Segment::new(a, b).start() <= Segment::new(a, b).end());
    }
    assert_eq!(Segment::new(2.5, -1.5), Segment::new(-1.5, 2.5));
}

#[test]
fn point_containment_is_half_open() {
    let s = Segment::new(2, 5);
    assert!(s.contains(2));
    assert!(s.contains(4));
    assert!(!s.contains(5));
    assert!(!s.contains(1));
    assert!(!Segment::new(3, 3).contains(3));
    assert!(Segment::new(0.0, 1.0).contains(0.999));
    assert!(!Segment::new(0.0, 1.0).contains(1.0));
}

#[test]
fn containment_is_reflexive() {
    for s in [Segment::new(0, 10), Segment::new(3, 3), Segment::new(-5, -1)] {
        assert!(s.contains_segment(&s));
    }
}

#[test]
fn empty_segment_inside_and_outside() {
    assert!(Segment::new(0, 10).contains_segment(&Segment::new(4, 4)));
    assert!(!Segment::new(4, 4).contains_segment(&Segment::new(0, 10)));
    assert!(!Segment::new(4, 4).contains_segment(&Segment::new(5, 5)));
}

#[test]
fn intersection_is_commutative() {
    let cases = [
        (Segment::new(0, 10), Segment::new(5, 15)),
        (Segment::new(0, 5), Segment::new(10, 15)),
        (Segment::new(0, 5), Segment::new(5, 9)),
        (Segment::new(2, 2), Segment::new(0, 9)),
    ];
    for (a, b) in cases {
        assert_eq!(a & b, b & a);
    }
}

#[test]
fn disjoint_intersection_is_empty_at_the_larger_start() {
    assert_eq!(Segment::new(0, 5) & Segment::new(10, 15), Segment::new(10, 10));
    assert_eq!(Segment::new(10, 15) & Segment::new(0, 5), Segment::new(10, 10));
    assert_eq!(Segment::new(0, 5) & Segment::new(5, 9), Segment::new(5, 5));
    assert_eq!(Segment::new(0, 5).intersection(Segment::new(3, 4)), Segment::new(3, 4));
}

#[test]
fn union_is_commutative_and_covers_both() {
    let cases = [
        (Segment::new(0, 10), Segment::new(5, 15)),
        (Segment::new(0, 5), Segment::new(10, 15)),
        (Segment::new(3, 3), Segment::new(-2, 1)),
    ];
    for (a, b) in cases {
        assert_eq!(a | b, b | a);
        assert!((a | b).contains_segment(&a));
        assert!((a | b).contains_segment(&b));
        assert_eq!(a.union(b), a | b);
    }
}

#[test]
fn difference_by_cases() {
    // touching segments do not overlap
    assert_eq!(Segment::new(0, 5) - Segment::new(5, 9), Segment::new(0, 5));
    // equal segments
    assert_eq!(Segment::new(0, 5) - Segment::new(0, 5), Segment::new(0, 0));
    // the subtrahend shares the start and ends inside
    assert_eq!(Segment::new(0, 10) - Segment::new(0, 4), Segment::new(0, 0));
    // the subtrahend starts inside and shares the end
    assert_eq!(Segment::new(0, 10) - Segment::new(6, 10), Segment::new(0, 6));
    assert_eq!(Segment::new(0, 10).difference(Segment::new(-3, 4)), Segment::new(4, 10));
}

#[test]
fn order_is_by_start_then_end() {
    assert!(Segment::new(0, 10) < Segment::new(0, 11));
    assert!(Segment::new(0, 10) < Segment::new(1, 2));
    assert!(!(Segment::new(0, 10) < Segment::new(0, 10)));
    assert!(Segment::new(1, 2) > Segment::new(0, 10));
    assert_eq!(
        Segment::new(1, 2).partial_cmp(&Segment::new(1, 2)),
        Some(std::cmp::Ordering::Equal)
    );
    assert_eq!(
        Segment::new(1, 3).partial_cmp(&Segment::new(1, 2)),
        Some(std::cmp::Ordering::Greater)
    );
    assert_eq!(Segment::new(1, 3).cmp(&Segment::new(1, 2)), std::cmp::Ordering::Greater);
    assert_eq!(Segment::new(f64::NAN, 1.0).partial_cmp(&Segment::new(0.0, 1.0)), None);
}
