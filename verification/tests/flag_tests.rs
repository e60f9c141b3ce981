use rat_focus::ContainerFlag;
use rat_focus::FocusFlag;
use rat_focus::Navigation;

#[test]
fn new_flag_is_all_false() {
    let f = FocusFlag::new();
    assert!(!f.get());
    assert!(!f.gained());
    assert!(!f.lost());
    assert_eq!(f.name(), "");
}

#[test]
fn named_flag_keeps_name() {
    let f = FocusFlag::named("first");
    assert_eq!(f.name(), "first");
    assert!(!f.get());
    let c = ContainerFlag::named("root");
    assert_eq!(c.name(), "root");
    assert!(!c.get());
}

#[test]
fn set_and_get() {
    let mut f = FocusFlag::new();
    f.set(true);
    assert!(f.get());
    f.set(false);
    assert!(!f.get());
}

#[test]
fn set_gained_and_lost() {
    let mut f = FocusFlag::new();
    f.set_gained(true);
    assert!(f.gained());
    assert!(!f.lost());
    f.set_gained(false);
    f.set_lost(true);
    assert!(f.lost());
    assert!(!f.gained());
}

#[test]
fn clear_resets_all() {
    let mut f = FocusFlag::named("field");
    f.set(true);
    f.set_gained(true);
    f.set_lost(true);
    f.clear();
    assert!(!f.get());
    assert!(!f.gained());
    assert!(!f.lost());
    assert_eq!(f.name(), "field");
}

#[test]
fn clear_is_idempotent() {
    let mut f = FocusFlag::named("field");
    f.set(true);
    f.set_gained(true);
    f.set_lost(true);
    f.clear();
    let once = (f.get(), f.gained(), f.lost());
    f.clear();
    let twice = (f.get(), f.gained(), f.lost());
    assert_eq!(once, twice);
    assert_eq!(twice, (false, false, false));
    assert_eq!(f.name(), "field");
}

#[test]
fn defaults_are_all_false() {
    let f = FocusFlag::default();
    assert!(!f.get() && !f.gained() && !f.lost());
    assert_eq!(f.name(), "");
    let c = ContainerFlag::default();
    assert!(!c.get() && !c.gained() && !c.lost());
    assert_eq!(Navigation::default(), Navigation::Regular);
}

#[test]
fn container_flag_mirrors_leaf_flag() {
    let mut c = ContainerFlag::new();
    assert_eq!(c.name(), "");
    c.set(true);
    c.set_gained(true);
    assert!(c.get());
    assert!(c.gained());
    c.clear();
    assert!(!c.get());
    assert!(!c.gained());
    assert!(!c.lost());
    c.set_lost(true);
    assert!(c.lost());
}
