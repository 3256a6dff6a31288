use xzbbox::{Axis, Binary64, XZBBox, XZBBoxError, XZBBoxPoints, XZBBoxRect, XZPoint, XZVector};

fn length(value: f64) -> Binary64 {
    Binary64::from_bits(value.to_bits())
}

fn collect(mut points: XZBBoxPoints) -> Vec<XZPoint> {
    let mut all = Vec::new();
    while let Some(p) = points.next() {
        all.push(p);
    }
    all
}

#[test]
fn test_valid_inputs() {
    // 2 * 2
    let obj = XZBBox::rect_from_xz_lengths(length(1.0), length(1.0));
    assert!(obj.is_ok());
    let obj = obj.unwrap();
    assert_eq!(obj.bounding_rect().total_blocks_x(), 2);
    assert_eq!(obj.bounding_rect().total_blocks_z(), 2);
    assert_eq!(obj.bounding_rect().total_blocks(), 4);
    assert_eq!(obj.min_x(), 0);
    assert_eq!(obj.max_x(), 1);
    assert_eq!(obj.min_z(), 0);
    assert_eq!(obj.max_z(), 1);

    // edge cases
    // 1 * 2
    let obj = XZBBox::rect_from_xz_lengths(length(0.0), length(1.0));
    assert!(obj.is_ok());
    let obj = obj.unwrap();
    assert_eq!(obj.bounding_rect().total_blocks_x(), 1);
    assert_eq!(obj.bounding_rect().total_blocks_z(), 2);
    assert_eq!(obj.bounding_rect().total_blocks(), 2);
    assert_eq!(obj.min_x(), 0);
    assert_eq!(obj.max_x(), 0);
    assert_eq!(obj.min_z(), 0);
    assert_eq!(obj.max_z(), 1);

    // 2 * 1
    let obj = XZBBox::rect_from_xz_lengths(length(1.0), length(0.0));
    assert!(obj.is_ok());
    let obj = obj.unwrap();
    assert_eq!(obj.bounding_rect().total_blocks_x(), 2);
    assert_eq!(obj.bounding_rect().total_blocks_z(), 1);
    assert_eq!(obj.bounding_rect().total_blocks(), 2);
    assert_eq!(obj.min_x(), 0);
    assert_eq!(obj.max_x(), 1);
    assert_eq!(obj.min_z(), 0);
    assert_eq!(obj.max_z(), 0);

    // normal case
    let obj = XZBBox::rect_from_xz_lengths(length(123.4), length(322.5));
    assert!(obj.is_ok());
    let obj = obj.unwrap();
    assert_eq!(obj.bounding_rect().total_blocks_x(), 124);
    assert_eq!(obj.bounding_rect().total_blocks_z(), 323);
    assert_eq!(obj.bounding_rect().total_blocks(), 124 * 323);
    assert_eq!(obj.min_x(), 0);
    assert_eq!(obj.max_x(), 123);
    assert_eq!(obj.min_z(), 0);
    assert_eq!(obj.max_z(), 322);
}

#[test]
fn test_invalid_inputs() {
    assert!(XZBBox::rect_from_xz_lengths(length(-1.0), length(1.5)).is_err());
    assert!(XZBBox::rect_from_xz_lengths(length(1323.5), length(-3287238791.395)).is_err());
    assert!(
        XZBBox::rect_from_xz_lengths(length(-239928341323.29389498), length(-3287238791.938395))
            .is_err()
    );
    assert!(XZBBox::rect_from_xz_lengths(length(-0.1), length(1.5)).is_err());
    assert!(XZBBox::rect_from_xz_lengths(length(-0.5), length(1.5)).is_err());
    assert!(XZBBox::rect_from_xz_lengths(length(123948761293874123.2398), length(-0.5)).is_err());

    assert!(XZBBox::rect_from_xz_lengths(length(i32::MAX as f64 + 10.0), length(-0.5)).is_err());
    assert!(XZBBox::rect_from_xz_lengths(length(0.2), length(i32::MAX as f64 + 10.0)).is_err());
}

#[test]
fn test_into_iter() {
    // Test 2x2 bbox
    let bbox = XZBBox::rect_from_xz_lengths(length(1.0), length(1.0)).unwrap();
    let points: Vec<XZPoint> = collect(bbox.into_iter());

    assert_eq!(points.len(), 4);
    assert!(points.contains(&XZPoint::new(0, 0)));
    assert!(points.contains(&XZPoint::new(0, 1)));
    assert!(points.contains(&XZPoint::new(1, 0)));
    assert!(points.contains(&XZPoint::new(1, 1)));

    // Test 1x1 bbox
    let bbox = XZBBox::rect_from_xz_lengths(length(0.0), length(0.0)).unwrap();
    let points: Vec<XZPoint> = collect(bbox.into_iter());

    assert_eq!(points.len(), 1);
    assert_eq!(points[0], XZPoint::new(0, 0));

    // Test larger bbox
    let bbox = XZBBox::rect_from_xz_lengths(length(2.0), length(1.0)).unwrap();
    let points: Vec<XZPoint> = collect(bbox.into_iter());

    assert_eq!(points.len(), 6); // 3x2 = 6 points
    assert!(points.contains(&XZPoint::new(0, 0)));
    assert!(points.contains(&XZPoint::new(0, 1)));
    assert!(points.contains(&XZPoint::new(1, 0)));
    assert!(points.contains(&XZPoint::new(1, 1)));
    assert!(points.contains(&XZPoint::new(2, 0)));
    assert!(points.contains(&XZPoint::new(2, 1)));
}

#[test]
fn negative_x_is_reported_with_its_value() {
    let r = XZBBox::rect_from_xz_lengths(length(-1.0), length(1.5));
    assert_eq!(r, Err(XZBBoxError::NegativeLength { axis: Axis::X, length: length(-1.0) }));
}

#[test]
fn negative_z_is_reported_with_its_own_value() {
    let r = XZBBox::rect_from_xz_lengths(length(1323.5), length(-3287238791.395));
    assert_eq!(
        r,
        Err(XZBBoxError::NegativeLength { axis: Axis::Z, length: length(-3287238791.395) })
    );
}

#[test]
fn overflowing_x_is_reported() {
    let big = i32::MAX as f64 + 10.0;
    let r = XZBBox::rect_from_xz_lengths(length(big), length(0.0));
    assert_eq!(r, Err(XZBBoxError::LengthOverflow { axis: Axis::X, length: length(big) }));
}

#[test]
fn overflowing_z_is_reported() {
    let big = i32::MAX as f64 + 10.0;
    let r = XZBBox::rect_from_xz_lengths(length(0.2), length(big));
    assert_eq!(r, Err(XZBBoxError::LengthOverflow { axis: Axis::Z, length: length(big) }));
}

#[test]
fn the_first_failing_check_decides() {
    let big = 1e300;
    // Both signs are checked before either size.
    assert_eq!(
        XZBBox::rect_from_xz_lengths(length(big), length(-0.5)),
        Err(XZBBoxError::NegativeLength { axis: Axis::Z, length: length(-0.5) })
    );
    assert_eq!(
        XZBBox::rect_from_xz_lengths(length(-2.0), length(-3.0)),
        Err(XZBBoxError::NegativeLength { axis: Axis::X, length: length(-2.0) })
    );
    assert_eq!(
        XZBBox::rect_from_xz_lengths(length(-2.0), length(big)),
        Err(XZBBoxError::NegativeLength { axis: Axis::X, length: length(-2.0) })
    );
    assert_eq!(
        XZBBox::rect_from_xz_lengths(length(big), length(big)),
        Err(XZBBoxError::LengthOverflow { axis: Axis::X, length: length(big) })
    );
}

#[test]
fn nan_and_infinite_lengths_are_rejected() {
    assert_eq!(
        XZBBox::rect_from_xz_lengths(length(f64::NAN), length(1.0)),
        Err(XZBBoxError::NegativeLength { axis: Axis::X, length: length(f64::NAN) })
    );
    assert_eq!(
        XZBBox::rect_from_xz_lengths(length(1.0), length(f64::NAN)),
        Err(XZBBoxError::NegativeLength { axis: Axis::Z, length: length(f64::NAN) })
    );
    assert_eq!(
        XZBBox::rect_from_xz_lengths(length(f64::INFINITY), length(1.0)),
        Err(XZBBoxError::LengthOverflow { axis: Axis::X, length: length(f64::INFINITY) })
    );
    assert_eq!(
        XZBBox::rect_from_xz_lengths(length(f64::NEG_INFINITY), length(1.0)),
        Err(XZBBoxError::NegativeLength { axis: Axis::X, length: length(f64::NEG_INFINITY) })
    );
}

#[test]
fn lengths_at_the_edges_of_the_accepted_range() {
    let top = i32::MAX as f64;
    let b = XZBBox::rect_from_xz_lengths(length(top), length(-0.0)).unwrap();
    assert_eq!(b.max_x(), i32::MAX);
    assert_eq!(b.max_z(), 0);
    assert_eq!(b.bounding_rect().total_blocks_x(), 0x8000_0000);
    assert_eq!(b.bounding_rect().total_blocks_z(), 1);

    // Half a block above the bound is too much, though it would truncate into range.
    assert_eq!(
        XZBBox::rect_from_xz_lengths(length(top + 0.5), length(0.0)),
        Err(XZBBoxError::LengthOverflow { axis: Axis::X, length: length(top + 0.5) })
    );
    let just_below = XZBBox::rect_from_xz_lengths(length(top - 0.5), length(0.999)).unwrap();
    assert_eq!(just_below.max_x(), i32::MAX - 1);
    assert_eq!(just_below.max_z(), 0);
}

#[test]
fn accepted_lengths_give_floor_plus_one_cells() {
    let lengths = [0.0, 0.25, 0.99, 1.0, 1.01, 7.5, 123.4, 322.5, 65535.999, 1e9, 2147483646.99];
    for &lx in lengths.iter() {
        for &lz in lengths.iter() {
            let b = XZBBox::rect_from_xz_lengths(length(lx), length(lz)).unwrap();
            assert_eq!(b.min_x(), 0);
            assert_eq!(b.min_z(), 0);
            assert_eq!(b.max_x() as f64, lx.floor());
            assert_eq!(b.max_z() as f64, lz.floor());
            assert_eq!(b.bounding_rect().total_blocks_x() as f64, lx.floor() + 1.0);
            assert_eq!(b.bounding_rect().total_blocks_z() as f64, lz.floor() + 1.0);
            assert_eq!(
                b.bounding_rect().total_blocks(),
                b.bounding_rect().total_blocks_x() as u128 * b.bounding_rect().total_blocks_z() as u128
            );
        }
    }
}

#[test]
fn rectangle_rejects_corners_out_of_order() {
    let min = XZPoint::new(3, 0);
    let max = XZPoint::new(2, 5);
    assert_eq!(XZBBoxRect::new(min, max), Err(XZBBoxError::InvalidBounds { min, max }));
    let min = XZPoint::new(0, 6);
    let max = XZPoint::new(2, 5);
    assert_eq!(XZBBoxRect::new(min, max), Err(XZBBoxError::InvalidBounds { min, max }));
    let r = XZBBoxRect::new(XZPoint::new(-4, 7), XZPoint::new(-4, 7)).unwrap();
    assert_eq!(r.min(), XZPoint::new(-4, 7));
    assert_eq!(r.max(), XZPoint::new(-4, 7));
    assert_eq!(r.total_blocks(), 1);
}

#[test]
fn total_blocks_of_the_whole_grid_does_not_wrap() {
    let r = XZBBoxRect::new(XZPoint::new(i32::MIN, i32::MIN), XZPoint::new(i32::MAX, i32::MAX))
        .unwrap();
    assert_eq!(r.total_blocks_x(), 1u64 << 32);
    assert_eq!(r.total_blocks_z(), 1u64 << 32);
    assert_eq!(r.total_blocks(), 1u128 << 64);
    let column = XZBBoxRect::new(XZPoint::new(5, i32::MIN), XZPoint::new(5, i32::MAX)).unwrap();
    assert_eq!(column.total_blocks_x(), 1);
    assert_eq!(column.total_blocks(), 1u128 << 32);
}

#[test]
fn contains_corners_and_nothing_one_step_outside() {
    let rect = XZBBoxRect::new(XZPoint::new(-2, 3), XZPoint::new(4, 9)).unwrap();
    let bbox = XZBBox::Rect(rect);
    assert!(bbox.contains(&XZPoint::new(-2, 3)));
    assert!(bbox.contains(&XZPoint::new(4, 9)));
    assert!(bbox.contains(&XZPoint::new(-2, 9)));
    assert!(bbox.contains(&XZPoint::new(4, 3)));
    assert!(bbox.contains(&XZPoint::new(0, 5)));
    assert!(rect.contains(&XZPoint::new(0, 5)));
    for z in 2..=10 {
        assert!(!bbox.contains(&XZPoint::new(-3, z)));
        assert!(!bbox.contains(&XZPoint::new(5, z)));
    }
    for x in -3..=5 {
        assert!(!bbox.contains(&XZPoint::new(x, 2)));
        assert!(!bbox.contains(&XZPoint::new(x, 10)));
    }
}

#[test]
fn bounding_rect_of_a_rectangle_is_itself() {
    let rect = XZBBoxRect::new(XZPoint::new(-2, 3), XZPoint::new(4, 9)).unwrap();
    let bbox = XZBBox::Rect(rect);
    assert_eq!(bbox.bounding_rect(), rect);
    assert_eq!(bbox.min_x(), -2);
    assert_eq!(bbox.max_x(), 4);
    assert_eq!(bbox.min_z(), 3);
    assert_eq!(bbox.max_z(), 9);
}

#[test]
fn points_come_column_by_column() {
    let bbox = XZBBox::rect_from_xz_lengths(length(2.0), length(1.0)).unwrap();
    let points = collect(bbox.iter());
    assert_eq!(
        points,
        vec![
            XZPoint::new(0, 0),
            XZPoint::new(0, 1),
            XZPoint::new(1, 0),
            XZPoint::new(1, 1),
            XZPoint::new(2, 0),
            XZPoint::new(2, 1),
        ]
    );
    // Walking by reference leaves the box usable, and a second walk gives the same points.
    assert_eq!(collect(bbox.iter()), points);
    assert_eq!(collect(bbox.into_iter()), points);
}

#[test]
fn points_cover_each_cell_exactly_once() {
    let rect = XZBBoxRect::new(XZPoint::new(-3, 10), XZPoint::new(3, 14)).unwrap();
    let bbox = XZBBox::Rect(rect);
    let points = collect(bbox.iter());
    assert_eq!(points.len() as u128, rect.total_blocks());
    assert_eq!(points.len(), 7 * 5);
    for p in points.iter() {
        assert!(bbox.contains(p));
    }
    for x in -3..=3 {
        for z in 10..=14 {
            let wanted = XZPoint::new(x, z);
            assert_eq!(points.iter().filter(|p| **p == wanted).count(), 1);
        }
    }
}

#[test]
fn points_at_the_edge_of_the_grid() {
    let rect =
        XZBBoxRect::new(XZPoint::new(i32::MAX - 1, i32::MIN), XZPoint::new(i32::MAX, i32::MIN + 1))
            .unwrap();
    let points = collect(XZBBox::Rect(rect).into_iter());
    assert_eq!(
        points,
        vec![
            XZPoint::new(i32::MAX - 1, i32::MIN),
            XZPoint::new(i32::MAX - 1, i32::MIN + 1),
            XZPoint::new(i32::MAX, i32::MIN),
            XZPoint::new(i32::MAX, i32::MIN + 1),
        ]
    );
}

#[test]
fn cursor_stays_empty_after_the_last_point() {
    let bbox = XZBBox::rect_from_xz_lengths(length(0.0), length(0.0)).unwrap();
    let mut points = bbox.iter();
    assert_eq!(points.next(), Some(XZPoint::new(0, 0)));
    assert_eq!(points.next(), None);
    assert_eq!(points.next(), None);
}

#[test]
fn cursor_is_lazy_on_a_huge_box() {
    let rect = XZBBoxRect::new(XZPoint::new(i32::MIN, i32::MIN), XZPoint::new(i32::MAX, i32::MAX))
        .unwrap();
    let mut points = XZBBox::Rect(rect).into_iter();
    assert_eq!(points.next(), Some(XZPoint::new(i32::MIN, i32::MIN)));
    assert_eq!(points.next(), Some(XZPoint::new(i32::MIN, i32::MIN + 1)));
}

#[test]
fn translation_moves_both_corners() {
    let bbox = XZBBox::rect_from_xz_lengths(length(2.0), length(1.0)).unwrap();
    let moved = bbox + XZVector::new(10, -20);
    assert_eq!(moved.min_x(), 10);
    assert_eq!(moved.max_x(), 12);
    assert_eq!(moved.min_z(), -20);
    assert_eq!(moved.max_z(), -19);
    assert_eq!(moved.bounding_rect().total_blocks(), 6);
    let back = moved - XZVector::new(10, -20);
    assert_eq!(back, bbox);
    let other_way = bbox - XZVector::new(1, 1);
    assert_eq!(other_way.min_x(), -1);
    assert_eq!(other_way.max_z(), 0);
}

#[test]
fn translation_round_trip_returns_the_box() {
    let rect = XZBBoxRect::new(XZPoint::new(-7, 2), XZPoint::new(5, 40)).unwrap();
    let bbox = XZBBox::Rect(rect);
    let vectors = [(0, 0), (1, 0), (0, -1), (1000, -1000), (-123456, 654321), (i32::MAX - 5, 7)];
    for &(dx, dz) in vectors.iter() {
        let v = XZVector::new(dx, dz);
        let opposite = XZVector::new(-dx, -dz);
        assert_eq!((bbox + v) + opposite, bbox);
        assert_eq!((bbox + v) - v, bbox);
        assert_eq!((rect + v) - v, rect);
        let mut in_place = bbox;
        in_place.add_assign(v);
        assert_eq!(in_place, bbox + v);
        in_place.sub_assign(v);
        assert_eq!(in_place, bbox);
        let mut rect_in_place = rect;
        rect_in_place.add_assign(v);
        assert_eq!(rect_in_place, rect + v);
        rect_in_place.sub_assign(v);
        assert_eq!(rect_in_place, rect);
    }
}

#[test]
fn points_move_by_vectors() {
    let p = XZPoint::new(3, -4);
    assert_eq!(p + XZVector::new(-3, 4), XZPoint::new(0, 0));
    assert_eq!(p - XZVector::new(-3, 4), XZPoint::new(6, -8));
    assert_eq!(XZPoint::new(i32::MIN, i32::MAX) + XZVector::new(i32::MAX, i32::MIN), XZPoint::new(-1, -1));
}

#[test]
fn text_names_the_shape_and_both_corners() {
    let bbox = XZBBox::rect_from_xz_lengths(length(1.0), length(1.0)).unwrap();
    assert_eq!(bbox.to_string(), "XZBBox::Rect(XZPoint(0, 0), XZPoint(1, 1))");
    let rect = XZBBoxRect::new(XZPoint::new(i32::MIN, -10), XZPoint::new(i32::MAX, 1234567890))
        .unwrap();
    assert_eq!(rect.to_string(), "Rect(XZPoint(-2147483648, -10), XZPoint(2147483647, 1234567890))");
    assert_eq!(
        XZBBox::Rect(rect).to_string(),
        "XZBBox::Rect(XZPoint(-2147483648, -10), XZPoint(2147483647, 1234567890))"
    );
    assert_eq!(XZPoint::new(-9, 100).to_string(), "XZPoint(-9, 100)");
}
