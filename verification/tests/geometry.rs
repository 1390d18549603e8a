use retro_games::geometry::{Coord, Rect};

#[test]
fn point_in_rect_is_inclusive_on_all_edges() {
    let r = Rect { left: 10, top: 20, right: 30, bottom: 40 };
    assert!(r.contains(Coord::new(10, 20)));
    assert!(r.contains(Coord::new(30, 40)));
    assert!(r.contains(Coord::new(10, 40)));
    assert!(r.contains(Coord::new(30, 20)));
    assert!(r.contains(Coord::new(20, 30)));
    assert!(!r.contains(Coord::new(9, 30)));
    assert!(!r.contains(Coord::new(31, 30)));
    assert!(!r.contains(Coord::new(20, 19)));
    assert!(!r.contains(Coord::new(20, 41)));
}

#[test]
fn rects_that_overlap_or_touch_intersect() {
    let a = Rect { left: 10, top: 10, right: 20, bottom: 20 };
    assert!(a.intersects_rect(&Rect { left: 15, top: 15, right: 30, bottom: 30 }));
    assert!(a.intersects_rect(&Rect { left: 20, top: 10, right: 30, bottom: 20 }));
    assert!(a.intersects_rect(&Rect { left: 20, top: 20, right: 30, bottom: 30 }));
    assert!(a.intersects_rect(&Rect { left: 12, top: 12, right: 14, bottom: 14 }));
    assert!(Rect { left: 12, top: 12, right: 14, bottom: 14 }.intersects_rect(&a));
    assert!(a.intersects_rect(&a));
}

#[test]
fn rects_apart_do_not_intersect() {
    let a = Rect { left: 10, top: 10, right: 20, bottom: 20 };
    assert!(!a.intersects_rect(&Rect { left: 21, top: 10, right: 30, bottom: 20 }));
    assert!(!a.intersects_rect(&Rect { left: 10, top: 21, right: 20, bottom: 30 }));
    assert!(!a.intersects_rect(&Rect { left: 0, top: 0, right: 9, bottom: 9 }));
    assert!(!Rect { left: 30, top: 10, right: 40, bottom: 20 }.intersects_rect(&a));
}

#[test]
fn rect_from_corners_in_any_order() {
    let r = Rect::new(Coord::new(30, 5), Coord::new(10, 25));
    assert_eq!(r, Rect { left: 10, top: 5, right: 30, bottom: 25 });
}

#[test]
fn rect_with_size_reaches_to_the_far_edges() {
    let r = Rect::new_with_size(Coord::new(3, 4), 5, 8);
    assert_eq!(r, Rect { left: 3, top: 4, right: 8, bottom: 12 });
}

#[test]
fn rect_moves() {
    let r = Rect { left: 0, top: 0, right: 6, bottom: 30 };
    assert_eq!(r.translated(0, -2), Rect { left: 0, top: -2, right: 6, bottom: 28 });
    assert_eq!(
        r.moved_to(Coord::new(154, 83)),
        Rect { left: 154, top: 83, right: 160, bottom: 113 }
    );
}

#[test]
fn rect_center_rounds_towards_zero() {
    assert_eq!(Rect { left: 70, top: 133, right: 90, bottom: 144 }.center(), Coord::new(80, 138));
    assert_eq!(Rect { left: -4, top: -3, right: 1, bottom: 0 }.center(), Coord::new(-1, -1));
}

#[test]
fn coord_translates() {
    assert_eq!(Coord::new(3, 4).translated(-5, 2), Coord::new(-2, 6));
}
