use rat_focus::handle_mouse_focus;
use rat_focus::Focus;
use rat_focus::FocusFlag;
use rat_focus::Navigation;
use rat_focus::Outcome;
use rat_focus::Rect;
use rat_focus::ZRect;

#[test]
fn rect_contains_is_half_open() {
    let r = Rect::new(2, 3, 4, 5);
    assert!(r.contains(2, 3));
    assert!(r.contains(5, 7));
    assert!(!r.contains(6, 3));
    assert!(!r.contains(2, 8));
    assert!(!r.contains(1, 3));
    let empty = Rect::new(2, 3, 0, 5);
    assert!(!empty.contains(2, 3));
}

#[test]
fn hit_test_uses_implicit_area_region() {
    let mut f = Focus::new();
    f.add(FocusFlag::named("a"), Rect::new(0, 0, 5, 5), Vec::new(), Navigation::Regular);
    f.add(FocusFlag::named("b"), Rect::new(5, 0, 5, 5), Vec::new(), Navigation::Regular);
    assert_eq!(f.hit_test(2, 2), Some(0));
    assert_eq!(f.hit_test(7, 2), Some(1));
    assert_eq!(f.hit_test(2, 7), None);
}

#[test]
fn z_priority_wins_hit_test_regardless_of_order() {
    // Overlapping regions with z priorities 5 and 10: the priority-10
    // region wins, whichever entry comes first in traversal order.
    let overlap = Rect::new(0, 0, 10, 10);
    let mut f = Focus::new();
    f.add(FocusFlag::named("low"), overlap, vec![ZRect::new(5, overlap)], Navigation::Regular);
    f.add(FocusFlag::named("high"), overlap, vec![ZRect::new(10, overlap)], Navigation::Regular);
    assert_eq!(f.hit_test(4, 4), Some(1));

    let mut g = Focus::new();
    g.add(FocusFlag::named("high"), overlap, vec![ZRect::new(10, overlap)], Navigation::Regular);
    g.add(FocusFlag::named("low"), overlap, vec![ZRect::new(5, overlap)], Navigation::Regular);
    assert_eq!(g.hit_test(4, 4), Some(0));
}

#[test]
fn equal_priority_goes_to_later_entry() {
    let overlap = Rect::new(0, 0, 10, 10);
    let mut f = Focus::new();
    f.add(FocusFlag::named("a"), overlap, Vec::new(), Navigation::Regular);
    f.add(FocusFlag::named("b"), overlap, Vec::new(), Navigation::Regular);
    assert_eq!(f.hit_test(4, 4), Some(1));
}

#[test]
fn popup_over_base_takes_the_press() {
    // The popup region (z = 10) fully overlaps the base widget's region
    // (z = 0); the base is earlier in traversal order. A press inside
    // the overlap focuses the popup's owner.
    let base_area = Rect::new(0, 0, 20, 20);
    let popup_area = Rect::new(5, 5, 10, 10);
    let mut f = Focus::new();
    let mut base = FocusFlag::named("base");
    base.set(true);
    f.add(base, base_area, vec![ZRect::new(0, base_area)], Navigation::Regular);
    f.add(
        FocusFlag::named("popup"),
        popup_area,
        vec![ZRect::new(10, popup_area)],
        Navigation::Regular,
    );
    assert_eq!(f.focus_at(7, 7), Outcome::Changed);
    assert_eq!(f.focused_index(), Some(1));
    let base = f.flag_at(0);
    assert!(!base.get());
    assert!(base.lost());
    let popup = f.flag_at(1);
    assert!(popup.get());
    assert!(popup.gained());
}

#[test]
fn widget_with_several_regions_matches_any_of_them() {
    let mut f = Focus::new();
    let regions = vec![
        ZRect::new(0, Rect::new(0, 0, 5, 1)),
        ZRect::new(1, Rect::new(30, 30, 5, 5)),
    ];
    f.add(FocusFlag::named("a"), Rect::new(0, 0, 5, 1), regions, Navigation::Regular);
    assert_eq!(f.hit_test(32, 32), Some(0));
    assert_eq!(f.hit_test(2, 0), Some(0));
    assert_eq!(f.hit_test(10, 10), None);
}

#[test]
fn press_on_focused_entry_is_consumed_without_change() {
    let mut f = Focus::new();
    let mut a = FocusFlag::named("a");
    a.set(true);
    f.add(a, Rect::new(0, 0, 5, 5), Vec::new(), Navigation::Regular);
    assert_eq!(f.focus_at(2, 2), Outcome::Unchanged);
    let flag = f.flag_at(0);
    assert!(flag.get());
    assert!(!flag.gained());
    assert!(!flag.lost());
}

#[test]
fn press_outside_everything_is_not_consumed() {
    let mut f = Focus::new();
    f.add(FocusFlag::named("a"), Rect::new(0, 0, 5, 5), Vec::new(), Navigation::Regular);
    assert_eq!(f.focus_at(9, 9), Outcome::Continue);
    assert_eq!(f.focused_index(), None);
}

#[test]
fn press_on_unreachable_widget_is_not_consumed() {
    let mut f = Focus::new();
    f.add(FocusFlag::named("a"), Rect::new(0, 0, 5, 5), Vec::new(), Navigation::Unreachable);
    assert_eq!(f.focus_at(2, 2), Outcome::Continue);
    assert_eq!(f.focused_index(), None);
}

#[test]
fn mouse_policy_widget_is_clickable() {
    let mut f = Focus::new();
    f.add(FocusFlag::named("a"), Rect::new(0, 0, 5, 5), Vec::new(), Navigation::Mouse);
    assert_eq!(handle_mouse_focus(&mut f, 2, 2), Outcome::Changed);
    assert_eq!(f.focused_index(), Some(0));
    assert!(f.flag_at(0).gained());
}

#[test]
fn mouse_transition_moves_focus_between_widgets() {
    let mut f = Focus::new();
    let mut a = FocusFlag::named("a");
    a.set(true);
    f.add(a, Rect::new(0, 0, 5, 5), Vec::new(), Navigation::Regular);
    f.add(FocusFlag::named("b"), Rect::new(5, 0, 5, 5), Vec::new(), Navigation::Regular);
    assert_eq!(handle_mouse_focus(&mut f, 7, 2), Outcome::Changed);
    assert_eq!(f.focused_index(), Some(1));
    assert!(f.flag_at(0).lost());
    assert!(f.flag_at(1).gained());
}
