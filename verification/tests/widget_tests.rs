use rat_focus::Focus;
use rat_focus::FocusFlag;
use rat_focus::HasFocus;
use rat_focus::HasFocusFlag;
use rat_focus::Navigation;
use rat_focus::Outcome;
use rat_focus::Rect;
use rat_focus::ZRect;

struct TextInput {
    flag: FocusFlag,
    area: Rect,
}

impl HasFocusFlag for TextInput {
    fn focus(&self) -> &FocusFlag {
        &self.flag
    }

    fn area(&self) -> Rect {
        self.area
    }

    fn navigable(&self) -> Navigation {
        Navigation::Reach
    }
}

struct Pane {
    area: Rect,
}

impl HasFocus for Pane {
    fn focus(&self) -> Focus {
        let mut f = Focus::new_container(
            rat_focus::ContainerFlag::named("pane"),
            self.area,
        );
        f.add(
            FocusFlag::named("inner"),
            Rect::new(1, 1, 4, 1),
            Vec::<ZRect>::new(),
            Navigation::Regular,
        );
        f
    }
}

#[test]
fn leaf_trait_defaults_read_the_flag() {
    let mut w = TextInput { flag: FocusFlag::named("input"), area: Rect::new(0, 0, 8, 1) };
    assert!(!w.is_focused());
    assert!(!w.gained_focus());
    assert!(!w.lost_focus());
    w.flag.set(true);
    w.flag.set_gained(true);
    assert!(w.is_focused());
    assert!(w.gained_focus());
    assert_eq!(w.navigable(), Navigation::Reach);
    assert!(w.z_areas().is_empty());
    assert_eq!(HasFocusFlag::area(&w), Rect::new(0, 0, 8, 1));
}

#[test]
fn registry_built_from_a_widget() {
    let w = TextInput { flag: FocusFlag::named("input"), area: Rect::new(0, 0, 8, 1) };
    let mut f = Focus::new();
    let mut flag = FocusFlag::named(w.focus().name());
    flag.set(w.focus().get());
    f.add(flag, HasFocusFlag::area(&w), w.z_areas(), w.navigable());
    assert_eq!(f.len(), 1);
    assert_eq!(f.next(), Outcome::Changed);
    assert!(f.flag_at(0).get());
}

#[test]
fn container_trait_defaults_read_the_container_flag() {
    let p = Pane { area: Rect::new(0, 0, 10, 10) };
    assert_eq!(HasFocus::area(&p), Rect::new(0, 0, 10, 10));
    let c = p.container().unwrap();
    assert_eq!(c.name(), "pane");
    assert!(!p.is_focused());
    assert!(!p.gained_focus());
    assert!(!p.lost_focus());
    let mut f = p.focus();
    assert_eq!(f.next(), Outcome::Changed);
    assert!(f.container_flag().unwrap().get());
}
