//! Focus-navigation and hit-testing engine for trees of interactive widgets.
//!
//! Each focusable unit owns a tri-state flag (`focused`, `gained`, `lost`).
//! A [`Focus`] registry is built per input-handling pass from the widget
//! tree; it decides how focus moves under directional navigation and how
//! pointer presses resolve to a widget through a z-prioritized hit test.

use vstd::prelude::*;

mod focus;
mod zrect;

pub use focus::handle_focus;
pub use focus::handle_mouse_focus;
pub use focus::Focus;
pub use focus::FocusEntry;
pub use focus::FocusEvent;
pub use focus::Outcome;
pub use zrect::Rect;
pub use zrect::ZRect;

verus! {

/// The shared record backing one focusable unit.
///
/// `gained` and `lost` are transient: they are true only for the single
/// handling pass in which the focus transition occurred, and are cleared
/// at the start of the next transition that touches this flag.
pub struct FocusFlagCore {
    /// Field name for debugging purposes.
    pub name: String,
    /// The unit currently holds input focus.
    pub focused: bool,
    /// The unit just gained the focus in the last transition.
    pub gained: bool,
    /// The unit just lost the focus in the last transition.
    pub lost: bool,
}

/// Holds the flags for the focus of one leaf widget.
/// This struct is embedded in the widget state.
pub struct FocusFlag(pub FocusFlagCore);

/// The same as [`FocusFlag`], but distinct to mark the focus for a
/// container. It summarizes the focus of the container: if any of the
/// widgets of the container has the focus, the container itself has it.
pub struct ContainerFlag(pub FocusFlagCore);

/// The flag state after `clear`: every boolean false, the name kept.
pub open spec fn spec_cleared(f: FocusFlagCore) -> FocusFlagCore {
    FocusFlagCore { name: f.name, focused: false, gained: false, lost: false }
}

impl FocusFlagCore {
    /// Create a named core with all flags false.
    pub fn named(name: &str) -> (r: Self)
        ensures
            r.name@ == name@,
            !r.focused,
            !r.gained,
            !r.lost,
    {
        Self { name: name.to_string(), focused: false, gained: false, lost: false }
    }
}

impl FocusFlag {
    /// Create a default flag: unnamed, all flags false.
    pub fn new() -> (r: Self)
        ensures
            r.0.name@ == Seq::<char>::empty(),
            !r.0.focused,
            !r.0.gained,
            !r.0.lost,
    {
        FocusFlag(FocusFlagCore { name: String::new(), focused: false, gained: false, lost: false })
    }

    /// Create a named flag with all flags false.
    pub fn named(name: &str) -> (r: Self)
        ensures
            r.0.name@ == name@,
            !r.0.focused,
            !r.0.gained,
            !r.0.lost,
    {
        FocusFlag(FocusFlagCore::named(name))
    }

    /// Has the focus.
    pub fn get(&self) -> (r: bool)
        ensures
            r == self.0.focused,
    {
        self.0.focused
    }

    /// Set the focus.
    pub fn set(&mut self, focus: bool)
        ensures
            final(self).0.focused == focus,
            final(self).0.gained == old(self).0.gained,
            final(self).0.lost == old(self).0.lost,
            final(self).0.name == old(self).0.name,
    {
        self.0.focused = focus;
    }

    /// Get the field-name.
    pub fn name(&self) -> (r: &str)
        ensures
            r@ == self.0.name@,
    {
        self.0.name.as_str()
    }

    /// Just lost the focus.
    pub fn lost(&self) -> (r: bool)
        ensures
            r == self.0.lost,
    {
        self.0.lost
    }

    /// Set the lost flag.
    pub fn set_lost(&mut self, lost: bool)
        ensures
            final(self).0.lost == lost,
            final(self).0.focused == old(self).0.focused,
            final(self).0.gained == old(self).0.gained,
            final(self).0.name == old(self).0.name,
    {
        self.0.lost = lost;
    }

    /// Just gained the focus.
    pub fn gained(&self) -> (r: bool)
        ensures
            r == self.0.gained,
    {
        self.0.gained
    }

    /// Set the gained flag.
    pub fn set_gained(&mut self, gained: bool)
        ensures
            final(self).0.gained == gained,
            final(self).0.focused == old(self).0.focused,
            final(self).0.lost == old(self).0.lost,
            final(self).0.name == old(self).0.name,
    {
        self.0.gained = gained;
    }

    /// Reset all flags to false.
    pub fn clear(&mut self)
        ensures
            final(self).0 == spec_cleared(old(self).0),
    {
        self.0.focused = false;
        self.0.lost = false;
        self.0.gained = false;
    }
}

impl ContainerFlag {
    /// Create a default flag: unnamed, all flags false.
    pub fn new() -> (r: Self)
        ensures
            r.0.name@ == Seq::<char>::empty(),
            !r.0.focused,
            !r.0.gained,
            !r.0.lost,
    {
        ContainerFlag(FocusFlagCore { name: String::new(), focused: false, gained: false, lost: false })
    }

    /// Create a named flag with all flags false.
    pub fn named(name: &str) -> (r: Self)
        ensures
            r.0.name@ == name@,
            !r.0.focused,
            !r.0.gained,
            !r.0.lost,
    {
        ContainerFlag(FocusFlagCore::named(name))
    }

    /// Has the focus.
    pub fn get(&self) -> (r: bool)
        ensures
            r == self.0.focused,
    {
        self.0.focused
    }

    /// Set the focus.
    pub fn set(&mut self, focus: bool)
        ensures
            final(self).0.focused == focus,
            final(self).0.gained == old(self).0.gained,
            final(self).0.lost == old(self).0.lost,
            final(self).0.name == old(self).0.name,
    {
        self.0.focused = focus;
    }

    /// Get the field-name.
    pub fn name(&self) -> (r: &str)
        ensures
            r@ == self.0.name@,
    {
        self.0.name.as_str()
    }

    /// Just lost the focus.
    pub fn lost(&self) -> (r: bool)
        ensures
            r == self.0.lost,
    {
        self.0.lost
    }

    /// Set the lost flag.
    pub fn set_lost(&mut self, lost: bool)
        ensures
            final(self).0.lost == lost,
            final(self).0.focused == old(self).0.focused,
            final(self).0.gained == old(self).0.gained,
            final(self).0.name == old(self).0.name,
    {
        self.0.lost = lost;
    }

    /// Just gained the focus.
    pub fn gained(&self) -> (r: bool)
        ensures
            r == self.0.gained,
    {
        self.0.gained
    }

    /// Set the gained flag.
    pub fn set_gained(&mut self, gained: bool)
        ensures
            final(self).0.gained == gained,
            final(self).0.focused == old(self).0.focused,
            final(self).0.lost == old(self).0.lost,
            final(self).0.name == old(self).0.name,
    {
        self.0.gained = gained;
    }

    /// Reset all flags to false.
    pub fn clear(&mut self)
        ensures
            final(self).0 == spec_cleared(old(self).0),
    {
        self.0.focused = false;
        self.0.lost = false;
        self.0.gained = false;
    }
}

impl Default for FocusFlag {
    /// The default flag: unnamed, all flags false.
    fn default() -> (r: Self)
        ensures
            r.0.name@ == Seq::<char>::empty(),
            !r.0.focused,
            !r.0.gained,
            !r.0.lost,
    {
        FocusFlag::new()
    }
}

impl Default for ContainerFlag {
    /// The default flag: unnamed, all flags false.
    fn default() -> (r: Self)
        ensures
            r.0.name@ == Seq::<char>::empty(),
            !r.0.focused,
            !r.0.gained,
            !r.0.lost,
    {
        ContainerFlag::new()
    }
}

/// Clearing a flag twice in a row leaves it in the same state as
/// clearing it once: all three booleans false, the name unchanged.
pub proof fn lemma_clear_idempotent(f: FocusFlagCore)
    ensures
        spec_cleared(spec_cleared(f)) == spec_cleared(f),
{
}

/// Focus navigation for widgets: how a widget participates in
/// directional traversal.
#[derive(Clone, Copy, Debug, Default, PartialEq, Eq, Structural)]
pub enum Navigation {
    /// Widget is not reachable with normal keyboard or mouse navigation.
    Unreachable,
    /// Widget is not reachable with keyboard navigation, but can be focused with the mouse.
    Mouse,
    /// Widget cannot be reached with normal keyboard navigation, but can be left.
    /// (e.g. Tabs, Split-Divider)
    Leave,
    /// Widget can be reached with normal keyboard navigation, but not left.
    /// (e.g. TextArea)
    Reach,
    /// Widget can be reached with normal keyboard navigation, but only be left with
    /// backward navigation.
    ReachLeaveFront,
    /// Widget can be reached with normal keyboard navigation, but only be left with
    /// forward navigation.
    ReachLeaveBack,
    /// Widget can be reached and left with normal keyboard navigation.
    #[default]
    Regular,
}

/// Trait for a widget that has a focus flag. Implementers expose the
/// flag, the clickable geometry and the navigation policy; the host
/// builds the [`Focus`] registry from them.
pub trait HasFocusFlag {
    /// Access to the flag.
    fn focus(&self) -> &FocusFlag;

    /// Access the area for mouse focus.
    fn area(&self) -> Rect;

    /// The widget might have several disjointed regions, e.g. when it
    /// shows a popup. The result of `area` is the union of all regions
    /// given here; an empty list means the area is the only region.
    fn z_areas(&self) -> Vec<ZRect> {
        Vec::new()
    }

    /// Declares how the widget interacts with focus.
    fn navigable(&self) -> Navigation {
        Navigation::Regular
    }

    /// Focused?
    fn is_focused(&self) -> bool {
        self.focus().get()
    }

    /// Just lost focus.
    fn lost_focus(&self) -> bool {
        self.focus().lost()
    }

    /// Just gained focus.
    fn gained_focus(&self) -> bool {
        self.focus().gained()
    }
}

/// Trait for a container widget: it can describe its subtree as a
/// [`Focus`] registry, and its derived queries read the container flag.
pub trait HasFocus {
    /// Returns a registry describing the subtree.
    fn focus(&self) -> Focus;

    /// Returns the container flag, when the subtree declares one.
    fn container(&self) -> Option<ContainerFlag> {
        self.focus().into_container_flag()
    }

    /// Area of the container.
    fn area(&self) -> Rect {
        self.focus().container_area()
    }

    /// Focused?
    fn is_focused(&self) -> bool {
        let f = self.focus();
        match f.container_flag() {
            Some(c) => c.get(),
            None => false,
        }
    }

    /// Just lost focus.
    fn lost_focus(&self) -> bool {
        let f = self.focus();
        match f.container_flag() {
            Some(c) => c.lost(),
            None => false,
        }
    }

    /// Just gained focus.
    fn gained_focus(&self) -> bool {
        let f = self.focus();
        match f.container_flag() {
            Some(c) => c.gained(),
            None => false,
        }
    }
}

} // verus!
