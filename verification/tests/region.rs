use notty_encoding::args::{Coords, Region, ResizeRule, SplitKind};

fn region() -> Region {
    Region { left: 0, top: 10, right: 100, bottom: 100 }
}

fn coords_cases() -> Vec<(Coords, bool, Coords)> {
    vec![
        (Coords { x: 0, y: 0 }, false, Coords { x: 0, y: 10 }),
        (Coords { x: 0, y: 10 }, true, Coords { x: 0, y: 10 }),
        (Coords { x: 50, y: 50 }, true, Coords { x: 50, y: 50 }),
        (Coords { x: 99, y: 99 }, true, Coords { x: 99, y: 99 }),
        (Coords { x: 100, y: 0 }, false, Coords { x: 99, y: 10 }),
        (Coords { x: 100, y: 100 }, false, Coords { x: 99, y: 99 }),
        (Coords { x: 200, y: 200 }, false, Coords { x: 99, y: 99 }),
    ]
}

#[test]
fn region_contains_coords() {
    for (coords, b, _) in coords_cases() {
        assert!(region().contains(coords) == b, "{:?}", coords);
    }
}

#[test]
fn region_coords_within() {
    for (coords, _, within) in coords_cases() {
        assert_eq!(region().xy_within(coords), within);
    }
}

#[test]
fn region_new_orders_its_corners() {
    let want = Region { left: 1, top: 2, right: 7, bottom: 9 };
    assert_eq!(Region::new(1, 2, 7, 9), want);
    assert_eq!(Region::new(7, 9, 1, 2), want);
    assert_eq!(Region::new(7, 2, 1, 9), want);
    assert_eq!(Region::new(1, 9, 7, 2), want);
}

#[test]
fn region_half_open_edges() {
    let r = region();
    assert!(!r.contains(Coords { x: 0, y: 0 }));
    assert!(r.contains(Coords { x: 0, y: 10 }));
    assert!(r.contains(Coords { x: 99, y: 99 }));
    assert!(!r.contains(Coords { x: 100, y: 100 }));
    assert!(!r.contains(Coords { x: 99, y: 100 }));
    assert!(!r.contains(Coords { x: 100, y: 99 }));
    assert!(!r.contains(Coords { x: 50, y: 9 }));
}

#[test]
fn region_width_and_height() {
    assert_eq!(region().width(), 100);
    assert_eq!(region().height(), 90);
    assert_eq!(Region::new(5, 5, 6, 6).width(), 1);
    assert_eq!(Region::new(0, 0, u32::MAX, 1).width(), u32::MAX);
}

#[test]
fn region_within_is_idempotent() {
    let r = Region::new(3, 4, 10, 20);
    for p in [
        Coords { x: 0, y: 0 },
        Coords { x: 3, y: 4 },
        Coords { x: 9, y: 19 },
        Coords { x: 10, y: 20 },
        Coords { x: u32::MAX, y: 7 },
        Coords { x: 5, y: u32::MAX },
    ] {
        let once = r.xy_within(p);
        assert!(r.contains(once));
        assert_eq!(r.xy_within(once), once);
        if r.contains(p) {
            assert_eq!(once, p);
        }
    }
    assert_eq!(r.x_within(0), 3);
    assert_eq!(r.x_within(10), 9);
    assert_eq!(r.x_within(7), 7);
    assert_eq!(r.y_within(2), 4);
    assert_eq!(r.y_within(99), 19);
}

#[test]
fn region_offset_saturates() {
    let r = Region::new(10, 20, 30, 40);
    assert_eq!(r.offset(Coords { x: 15, y: 25 }), Coords { x: 5, y: 5 });
    assert_eq!(r.offset(Coords { x: 10, y: 20 }), Coords { x: 0, y: 0 });
    assert_eq!(r.offset(Coords { x: 3, y: 50 }), Coords { x: 0, y: 30 });
    assert_eq!(r.offset(Coords { x: 50, y: 3 }), Coords { x: 40, y: 0 });
}

#[test]
fn region_move_to_contain_each_side() {
    let r = Region::new(10, 20, 30, 50);
    let cases = [
        // inside
        (Coords { x: 10, y: 20 }, r),
        (Coords { x: 29, y: 49 }, r),
        // left and above
        (Coords { x: 4, y: 7 }, Region { left: 4, top: 7, right: 24, bottom: 37 }),
        // left and below
        (Coords { x: 4, y: 60 }, Region { left: 4, top: 31, right: 24, bottom: 61 }),
        // right and above
        (Coords { x: 30, y: 0 }, Region { left: 11, top: 0, right: 31, bottom: 30 }),
        // right and below
        (Coords { x: 100, y: 50 }, Region { left: 81, top: 21, right: 101, bottom: 51 }),
        // left only
        (Coords { x: 0, y: 25 }, Region { left: 0, top: 20, right: 20, bottom: 50 }),
        // right only
        (Coords { x: 35, y: 25 }, Region { left: 16, top: 20, right: 36, bottom: 50 }),
        // above only
        (Coords { x: 15, y: 19 }, Region { left: 10, top: 19, right: 30, bottom: 49 }),
        // below only
        (Coords { x: 15, y: 50 }, Region { left: 10, top: 21, right: 30, bottom: 51 }),
    ];
    for (p, want) in cases {
        let moved = r.move_to_contain(p);
        assert_eq!(moved, want, "{:?}", p);
        assert!(moved.contains(p));
        assert_eq!(moved.width(), r.width());
        assert_eq!(moved.height(), r.height());
    }
}

#[test]
fn region_move_to_contain_near_the_limits() {
    let r = Region::new(0, 0, 5, 5);
    let far = Coords { x: u32::MAX - 1, y: u32::MAX - 1 };
    let moved = r.move_to_contain(far);
    assert_eq!(
        moved,
        Region { left: u32::MAX - 5, top: u32::MAX - 5, right: u32::MAX, bottom: u32::MAX }
    );
    assert!(moved.contains(far));
    let back = moved.move_to_contain(Coords { x: 0, y: 0 });
    assert_eq!(back, r);
}

#[test]
fn region_split_from_the_low_side() {
    let r = Region::new(10, 20, 30, 50);
    for rule in [ResizeRule::Percentage, ResizeRule::MaxLeftTop] {
        assert_eq!(
            r.split(SplitKind::Horizontal(5), rule),
            (
                SplitKind::Horizontal(25),
                Region { left: 10, top: 20, right: 30, bottom: 25 },
                Region { left: 10, top: 25, right: 30, bottom: 50 },
            )
        );
        assert_eq!(
            r.split(SplitKind::Horizontal(1000), rule),
            (
                SplitKind::Horizontal(49),
                Region { left: 10, top: 20, right: 30, bottom: 49 },
                Region { left: 10, top: 49, right: 30, bottom: 50 },
            )
        );
        assert_eq!(
            r.split(SplitKind::Vertical(7), rule),
            (
                SplitKind::Vertical(17),
                Region { left: 10, top: 20, right: 17, bottom: 50 },
                Region { left: 17, top: 20, right: 30, bottom: 50 },
            )
        );
        assert_eq!(
            r.split(SplitKind::Vertical(u32::MAX), rule),
            (
                SplitKind::Vertical(29),
                Region { left: 10, top: 20, right: 29, bottom: 50 },
                Region { left: 29, top: 20, right: 30, bottom: 50 },
            )
        );
    }
}

#[test]
fn region_split_from_the_high_side() {
    let r = Region::new(10, 20, 30, 50);
    let rule = ResizeRule::MaxRightBottom;
    assert_eq!(
        r.split(SplitKind::Horizontal(5), rule),
        (
            SplitKind::Horizontal(45),
            Region { left: 10, top: 20, right: 30, bottom: 45 },
            Region { left: 10, top: 45, right: 30, bottom: 50 },
        )
    );
    assert_eq!(
        r.split(SplitKind::Horizontal(0), rule),
        (
            SplitKind::Horizontal(49),
            Region { left: 10, top: 20, right: 30, bottom: 49 },
            Region { left: 10, top: 49, right: 30, bottom: 50 },
        )
    );
    assert_eq!(
        r.split(SplitKind::Horizontal(1000), rule),
        (
            SplitKind::Horizontal(21),
            Region { left: 10, top: 20, right: 30, bottom: 21 },
            Region { left: 10, top: 21, right: 30, bottom: 50 },
        )
    );
    assert_eq!(
        r.split(SplitKind::Vertical(8), rule),
        (
            SplitKind::Vertical(22),
            Region { left: 10, top: 20, right: 22, bottom: 50 },
            Region { left: 22, top: 20, right: 30, bottom: 50 },
        )
    );
}

#[test]
fn region_split_leaves_no_half_empty() {
    let r = Region::new(0, 0, 2, 2);
    for n in [1, 2, 3, 100, u32::MAX] {
        for rule in [ResizeRule::Percentage, ResizeRule::MaxLeftTop, ResizeRule::MaxRightBottom] {
            for kind in [SplitKind::Horizontal(n), SplitKind::Vertical(n)] {
                let (_, first, second) = r.split(kind, rule);
                assert!(first.width() >= 1 && first.height() >= 1);
                assert!(second.width() >= 1 && second.height() >= 1);
            }
        }
    }
    let (_, first, second) = r.split(SplitKind::Vertical(0), ResizeRule::MaxRightBottom);
    assert_eq!((first.width(), second.width()), (1, 1));
}

#[test]
fn region_split_at_offset_zero_from_the_low_side() {
    let r = Region::new(10, 20, 30, 50);
    let (kind, first, second) = r.split(SplitKind::Horizontal(0), ResizeRule::MaxLeftTop);
    assert_eq!(kind, SplitKind::Horizontal(20));
    assert_eq!(first, Region { left: 10, top: 20, right: 30, bottom: 20 });
    assert_eq!(second, r);
}
