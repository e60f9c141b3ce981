//! The focus registry: an ordered snapshot of focusable entries built
//! from the widget tree for one input-handling pass, with directional
//! traversal, pointer hit-testing and the two dispatch entry points.

use vstd::prelude::*;

use crate::zrect::Rect;
use crate::zrect::ZRect;
use crate::ContainerFlag;
use crate::FocusFlag;
use crate::FocusFlagCore;
use crate::Navigation;

verus! {

/// One focusable unit as the registry sees it: its flag, its primary
/// area, its optional list of prioritized regions, and its navigation
/// policy. When `z_areas` is empty the widget has exactly one implicit
/// region equal to `area` at z priority 0.
pub struct FocusEntry {
    /// The flag holding the tri-state for this unit.
    pub flag: FocusFlag,
    /// The primary area for mouse focus; the union of all regions.
    pub area: Rect,
    /// Optional higher-resolution regions, e.g. for popups.
    pub z_areas: Vec<ZRect>,
    /// How this unit participates in directional traversal.
    pub navigable: Navigation,
}

/// The focus registry: the ordered sequence of entries, in document
/// order of the widget tree at build time, plus an optional container
/// flag and area for the whole tree slice it was built from.
pub struct Focus {
    /// The entries, in traversal order.
    pub entries: Vec<FocusEntry>,
    /// Aggregate flag for the whole registry, when one was declared.
    pub container: Option<ContainerFlag>,
    /// Area of the whole registry.
    pub container_area: Rect,
}

/// What a dispatch call reports back to the host input loop.
#[derive(Clone, Copy, Debug, PartialEq, Eq, Structural)]
pub enum Outcome {
    /// The event was not consumed; hand it to other handlers.
    Continue,
    /// The event was consumed, but no focus changed.
    Unchanged,
    /// The event was consumed and focus changed.
    Changed,
}

/// A decoded keyboard navigation event, as the host hands it in.
#[derive(Clone, Copy, Debug, PartialEq, Eq, Structural)]
pub enum FocusEvent {
    /// Advance focus (Tab-equivalent).
    Next,
    /// Retreat focus (Shift-Tab-equivalent).
    Prev,
    /// Any other key: passed through unconsumed.
    Other,
}

/// The policy permits being a directional-navigation target.
/// Targets are every policy except `Unreachable`, `Mouse` and `Leave`.
pub open spec fn is_nav_target(n: Navigation) -> bool {
    match n {
        Navigation::Reach => true,
        Navigation::ReachLeaveFront => true,
        Navigation::ReachLeaveBack => true,
        Navigation::Regular => true,
        _ => false,
    }
}

/// The policy permits departing from the entry under forward navigation.
/// `Reach` permits neither direction, `ReachLeaveFront` only backward.
pub open spec fn leaves_forward(n: Navigation) -> bool {
    match n {
        Navigation::Reach => false,
        Navigation::ReachLeaveFront => false,
        _ => true,
    }
}

/// The policy permits departing from the entry under backward navigation.
/// `Reach` permits neither direction, `ReachLeaveBack` only forward.
pub open spec fn leaves_backward(n: Navigation) -> bool {
    match n {
        Navigation::Reach => false,
        Navigation::ReachLeaveBack => false,
        _ => true,
    }
}

/// The policy permits gaining focus from a pointer press.
/// Only `Unreachable` is out of the pointer's reach.
pub open spec fn is_mouse_target(n: Navigation) -> bool {
    n != Navigation::Unreachable
}

/// The first index in `[lo, hi)` whose entry is focused, if any.
pub open spec fn first_focused_in(s: Seq<FocusEntry>, lo: int, hi: int) -> Option<int>
    decreases hi - lo,
{
    if lo >= hi {
        None
    } else if s[lo].flag.0.focused {
        Some(lo)
    } else {
        first_focused_in(s, lo + 1, hi)
    }
}

/// The current focus of a registry: the first focused entry, if any.
pub open spec fn current_focus(s: Seq<FocusEntry>) -> Option<int> {
    first_focused_in(s, 0, s.len() as int)
}

/// At most one entry of the registry is focused.
pub open spec fn at_most_one_focused(s: Seq<FocusEntry>) -> bool {
    forall|i: int, j: int|
        0 <= i < s.len() && 0 <= j < s.len() && s[i].flag.0.focused && s[j].flag.0.focused ==> i
            == j
}

/// The first index in `[lo, hi)` whose policy is a navigation target.
pub open spec fn first_target_in(s: Seq<FocusEntry>, lo: int, hi: int) -> Option<int>
    decreases hi - lo,
{
    if lo >= hi {
        None
    } else if is_nav_target(s[lo].navigable) {
        Some(lo)
    } else {
        first_target_in(s, lo + 1, hi)
    }
}

/// The last index in `[lo, hi)` whose policy is a navigation target.
pub open spec fn last_target_in(s: Seq<FocusEntry>, lo: int, hi: int) -> Option<int>
    decreases hi - lo,
{
    if lo >= hi {
        None
    } else {
        match last_target_in(s, lo + 1, hi) {
            Some(j) => Some(j),
            None => if is_nav_target(s[lo].navigable) {
                Some(lo)
            } else {
                None
            },
        }
    }
}

/// The entry that forward navigation moves to, if any: scanning from
/// just after the current focus, wrapping around the registry end and
/// stopping before the current focus itself. With no current focus the
/// first target in traversal order is selected. `None` both when no
/// target exists and when the current entry's policy forbids forward
/// departure.
pub open spec fn fwd_candidate(s: Seq<FocusEntry>) -> Option<int> {
    match current_focus(s) {
        Some(i) => if leaves_forward(s[i].navigable) {
            match first_target_in(s, i + 1, s.len() as int) {
                Some(j) => Some(j),
                None => first_target_in(s, 0, i),
            }
        } else {
            None
        },
        None => first_target_in(s, 0, s.len() as int),
    }
}

/// The entry that backward navigation moves to, if any: scanning from
/// just before the current focus, wrapping around the registry start
/// and stopping after the current focus itself. With no current focus
/// the last target in traversal order is selected.
pub open spec fn bwd_candidate(s: Seq<FocusEntry>) -> Option<int> {
    match current_focus(s) {
        Some(i) => if leaves_backward(s[i].navigable) {
            match last_target_in(s, 0, i) {
                Some(j) => Some(j),
                None => last_target_in(s, i + 1, s.len() as int),
            }
        } else {
            None
        },
        None => last_target_in(s, 0, s.len() as int),
    }
}

/// An index option seen as a mathematical option over `int`.
pub open spec fn opt_index(r: Option<usize>) -> Option<int> {
    match r {
        Some(i) => Some(i as int),
        None => None,
    }
}

/// The highest z priority among the regions of `rs` at or after `lo`
/// that contain the point, if any.
pub open spec fn best_z_in(rs: Seq<ZRect>, px: u16, py: u16, lo: int) -> Option<u16>
    decreases rs.len() - lo,
{
    if lo >= rs.len() {
        None
    } else {
        let rest = best_z_in(rs, px, py, lo + 1);
        if rs[lo].rect.spec_contains(px as int, py as int) {
            match rest {
                Some(z) => if rs[lo].z > z {
                    Some(rs[lo].z)
                } else {
                    Some(z)
                },
                None => Some(rs[lo].z),
            }
        } else {
            rest
        }
    }
}

/// The highest z priority at which an entry's regions contain the
/// point, if any region does. An entry without declared regions has one
/// implicit region equal to its area, at z priority 0.
pub open spec fn entry_best(e: FocusEntry, px: u16, py: u16) -> Option<u16> {
    if e.z_areas@.len() == 0 {
        if e.area.spec_contains(px as int, py as int) {
            Some(0u16)
        } else {
            None
        }
    } else {
        best_z_in(e.z_areas@, px, py, 0)
    }
}

/// The winning entry of the hit test among entries at or after `lo`,
/// with its z priority: the highest z priority wins; among entries that
/// share the top priority, the one latest in traversal order wins.
pub open spec fn best_hit_in(s: Seq<FocusEntry>, px: u16, py: u16, lo: int) -> Option<(int, u16)>
    decreases s.len() - lo,
{
    if lo >= s.len() {
        None
    } else {
        let rest = best_hit_in(s, px, py, lo + 1);
        match entry_best(s[lo], px, py) {
            Some(z) => match rest {
                Some(p) => if z > p.1 {
                    Some((lo, z))
                } else {
                    Some(p)
                },
                None => Some((lo, z)),
            },
            None => rest,
        }
    }
}

/// The entry the hit test selects for a pointer press at the point.
pub open spec fn hit_index(s: Seq<FocusEntry>, px: u16, py: u16) -> Option<int> {
    match best_hit_in(s, px, py, 0) {
        Some(p) => Some(p.0),
        None => None,
    }
}

/// The entry that a pointer press at the point moves focus to, if any:
/// the hit test's winner, unless its policy keeps it out of the
/// pointer's reach.
pub open spec fn mouse_candidate(s: Seq<FocusEntry>, px: u16, py: u16) -> Option<int> {
    match hit_index(s, px, py) {
        Some(i) => if is_mouse_target(s[i].navigable) {
            Some(i)
        } else {
            None
        },
        None => None,
    }
}

/// One entry after a transition that focuses the entry at the new index:
/// `gained`/`lost` are first cleared; the new entry becomes focused and
/// gains unless it already was focused; every other entry is unfocused
/// and loses exactly when it was focused.
pub open spec fn entry_transitioned(e: FocusEntry, is_new: bool) -> FocusEntry {
    FocusEntry {
        flag: FocusFlag(
            FocusFlagCore {
                name: e.flag.0.name,
                focused: is_new,
                gained: is_new && !e.flag.0.focused,
                lost: !is_new && e.flag.0.focused,
            },
        ),
        area: e.area,
        z_areas: e.z_areas,
        navigable: e.navigable,
    }
}

/// The whole registry after a transition to index `n`.
pub open spec fn transition(s: Seq<FocusEntry>, n: int) -> Seq<FocusEntry> {
    Seq::new(s.len(), |j: int| entry_transitioned(s[j], j == n))
}

/// The container flag after a transition: some leaf is focused, so the
/// container is focused; it gains when it was unfocused before, and
/// cannot lose.
pub open spec fn container_transitioned(c: Option<ContainerFlag>) -> Option<ContainerFlag> {
    match c {
        Some(f) => Some(
            ContainerFlag(
                FocusFlagCore {
                    name: f.0.name,
                    focused: true,
                    gained: !f.0.focused,
                    lost: false,
                },
            ),
        ),
        None => None,
    }
}

/// The container flag agrees with the leaves: it is focused exactly
/// when at least one entry is focused.
pub open spec fn container_synced(f: Focus) -> bool {
    match f.container {
        Some(c) => c.0.focused == exists|i: int|
            0 <= i < f.entries@.len() && f.entries@[i].flag.0.focused,
        None => true,
    }
}

/// What a directional dispatch with the given candidate does to the
/// registry: with a candidate, the transition to it and the outcome
/// `Changed`; without one, nothing, and the outcome `Continue`.
pub open spec fn nav_applied(pre: Focus, post: Focus, cand: Option<int>, r: Outcome) -> bool {
    &&& post.container_area == pre.container_area
    &&& match cand {
        Some(j) => {
            &&& r == Outcome::Changed
            &&& post.entries@ == transition(pre.entries@, j)
            &&& post.container == container_transitioned(pre.container)
        },
        None => {
            &&& r == Outcome::Continue
            &&& post.entries@ == pre.entries@
            &&& post.container == pre.container
        },
    }
}

/// What a pointer dispatch at the point does to the registry: a press
/// on the already-focused entry is consumed without a change; a press
/// on another pointer-reachable entry performs the transition; a press
/// that hits nothing the pointer can focus is not consumed.
pub open spec fn mouse_applied(pre: Focus, post: Focus, px: u16, py: u16, r: Outcome) -> bool {
    &&& post.container_area == pre.container_area
    &&& match mouse_candidate(pre.entries@, px, py) {
        Some(j) => if current_focus(pre.entries@) == Some(j) {
            &&& r == Outcome::Unchanged
            &&& post.entries@ == pre.entries@
            &&& post.container == pre.container
        } else {
            &&& r == Outcome::Changed
            &&& post.entries@ == transition(pre.entries@, j)
            &&& post.container == container_transitioned(pre.container)
        },
        None => {
            &&& r == Outcome::Continue
            &&& post.entries@ == pre.entries@
            &&& post.container == pre.container
        },
    }
}

/// A transition leaves exactly the new entry focused, whatever the
/// registry held before.
pub proof fn lemma_transition_focus(s: Seq<FocusEntry>, n: int)
    requires
        0 <= n < s.len(),
    ensures
        transition(s, n).len() == s.len(),
        forall|j: int| 0 <= j < s.len() ==> (#[trigger] transition(s, n)[j].flag.0.focused <==> j
            == n),
        at_most_one_focused(transition(s, n)),
{
    assert forall|j: int| 0 <= j < s.len() implies (#[trigger] transition(s, n)[j].flag.0.focused
        <==> j == n) by {
        assert(transition(s, n)[j] == entry_transitioned(s[j], j == n));
    }
}

/// A navigation-target policy is never `Unreachable` or `Mouse`;
/// forward and backward candidate search select only targets. A current
/// entry whose policy is `Reach` blocks departure in both directions.
pub proof fn lemma_candidates_respect_policy(s: Seq<FocusEntry>)
    ensures
        fwd_candidate(s) matches Some(j) ==> 0 <= j < s.len() && is_nav_target(s[j].navigable),
        bwd_candidate(s) matches Some(j) ==> 0 <= j < s.len() && is_nav_target(s[j].navigable),
        match current_focus(s) {
            Some(i) => s[i].navigable == Navigation::Reach ==> ((fwd_candidate(s) matches None)
                && (bwd_candidate(s) matches None)),
            None => true,
        },
{
    lemma_first_focused_props(s, 0, s.len() as int);
    match current_focus(s) {
        Some(i) => {
            lemma_first_target_props(s, i + 1, s.len() as int);
            lemma_first_target_props(s, 0, i);
            lemma_last_target_props(s, 0, i);
            lemma_last_target_props(s, i + 1, s.len() as int);
        },
        None => {
            lemma_first_target_props(s, 0, s.len() as int);
            lemma_last_target_props(s, 0, s.len() as int);
        },
    }
}

/// What the focus scan finds: the focused entry, with no focused entry
/// before it in the scanned range; or the assurance that the range
/// holds no focused entry.
pub proof fn lemma_first_focused_props(s: Seq<FocusEntry>, lo: int, hi: int)
    ensures
        match first_focused_in(s, lo, hi) {
            Some(j) => lo <= j < hi && s[j].flag.0.focused && (forall|k: int|
                lo <= k < j ==> !s[k].flag.0.focused),
            None => forall|k: int| lo <= k < hi ==> !s[k].flag.0.focused,
        },
    decreases hi - lo,
{
    if lo < hi {
        lemma_first_focused_props(s, lo + 1, hi);
    }
}

/// What the first-target scan finds: a target, with none before it in
/// the scanned range; or the assurance that the range holds no target.
pub proof fn lemma_first_target_props(s: Seq<FocusEntry>, lo: int, hi: int)
    ensures
        match first_target_in(s, lo, hi) {
            Some(j) => lo <= j < hi && is_nav_target(s[j].navigable) && (forall|k: int|
                lo <= k < j ==> !is_nav_target(s[k].navigable)),
            None => forall|k: int| lo <= k < hi ==> !is_nav_target(s[k].navigable),
        },
    decreases hi - lo,
{
    if lo < hi {
        lemma_first_target_props(s, lo + 1, hi);
    }
}

/// What the last-target scan finds: a target, with none after it in the
/// scanned range; or the assurance that the range holds no target.
pub proof fn lemma_last_target_props(s: Seq<FocusEntry>, lo: int, hi: int)
    ensures
        match last_target_in(s, lo, hi) {
            Some(j) => lo <= j < hi && is_nav_target(s[j].navigable) && (forall|k: int|
                j < k < hi ==> !is_nav_target(s[k].navigable)),
            None => forall|k: int| lo <= k < hi ==> !is_nav_target(s[k].navigable),
        },
    decreases hi - lo,
{
    if lo < hi {
        lemma_last_target_props(s, lo + 1, hi);
    }
}

/// Splitting the last-target scan at a midpoint: the upper part wins
/// when it holds a target, else the lower part decides.
proof fn lemma_last_target_split(s: Seq<FocusEntry>, lo: int, mid: int, hi: int)
    requires
        lo <= mid <= hi,
    ensures
        last_target_in(s, lo, hi) == match last_target_in(s, mid, hi) {
            Some(j) => Some(j),
            None => last_target_in(s, lo, mid),
        },
    decreases mid - lo,
{
    if lo < mid {
        lemma_last_target_split(s, lo + 1, mid, hi);
    }
}

/// Transition exclusivity: immediately after a transition away from the
/// one focused entry, that entry has `lost` set and is unfocused, the
/// newly focused entry has `gained` set and is focused, and every other
/// entry has neither transient flag set.
pub proof fn lemma_transition_exclusivity(s: Seq<FocusEntry>, i: int, n: int)
    requires
        0 <= i < s.len(),
        0 <= n < s.len(),
        i != n,
        s[i].flag.0.focused,
        forall|k: int| 0 <= k < s.len() && k != i ==> !s[k].flag.0.focused,
    ensures
        transition(s, n)[i].flag.0.lost,
        !transition(s, n)[i].flag.0.focused,
        !transition(s, n)[i].flag.0.gained,
        transition(s, n)[n].flag.0.gained,
        transition(s, n)[n].flag.0.focused,
        !transition(s, n)[n].flag.0.lost,
        forall|k: int|
            0 <= k < s.len() && k != i && k != n ==> !(#[trigger] transition(
                s,
                n,
            )[k]).flag.0.gained && !transition(s, n)[k].flag.0.lost && !transition(
                s,
                n,
            )[k].flag.0.focused,
{
    assert forall|k: int| 0 <= k < s.len() && k != i && k != n implies !(#[trigger] transition(
        s,
        n,
    )[k]).flag.0.gained && !transition(s, n)[k].flag.0.lost && !transition(
        s,
        n,
    )[k].flag.0.focused by {
        assert(transition(s, n)[k] == entry_transitioned(s[k], false));
    }
}

/// Splitting the first-target scan at a midpoint: the lower part wins
/// when it holds a target, else the upper part decides.
proof fn lemma_first_target_split(s: Seq<FocusEntry>, lo: int, mid: int, hi: int)
    requires
        lo <= mid <= hi,
    ensures
        first_target_in(s, lo, hi) == match first_target_in(s, lo, mid) {
            Some(j) => Some(j),
            None => first_target_in(s, mid, hi),
        },
    decreases mid - lo,
{
    if lo < mid {
        lemma_first_target_split(s, lo + 1, mid, hi);
    }
}

/// Wraparound forward: forward navigation away from the last eligible
/// entry, when some other eligible entry stands before it, selects the
/// first eligible entry of the registry.
pub proof fn lemma_wraparound_forward(s: Seq<FocusEntry>, i: int)
    requires
        current_focus(s) == Some(i),
        0 <= i < s.len(),
        is_nav_target(s[i].navigable),
        leaves_forward(s[i].navigable),
        forall|k: int| i < k < s.len() ==> !is_nav_target(s[k].navigable),
        exists|j: int| 0 <= j < i && is_nav_target(s[j].navigable),
    ensures
        fwd_candidate(s) == first_target_in(s, 0, s.len() as int),
        fwd_candidate(s) matches Some(_),
{
    lemma_first_target_props(s, i + 1, s.len() as int);
    lemma_first_target_props(s, 0, i);
    lemma_first_target_split(s, 0, i, s.len() as int);
}

/// Wraparound backward: backward navigation away from the first
/// eligible entry, when some other eligible entry stands after it,
/// selects the last eligible entry of the registry.
pub proof fn lemma_wraparound_backward(s: Seq<FocusEntry>, i: int)
    requires
        current_focus(s) == Some(i),
        0 <= i < s.len(),
        is_nav_target(s[i].navigable),
        leaves_backward(s[i].navigable),
        forall|k: int| 0 <= k < i ==> !is_nav_target(s[k].navigable),
        exists|j: int| i < j < s.len() && is_nav_target(s[j].navigable),
    ensures
        bwd_candidate(s) == last_target_in(s, 0, s.len() as int),
        bwd_candidate(s) matches Some(_),
{
    lemma_last_target_props(s, 0, i);
    lemma_last_target_props(s, i + 1, s.len() as int);
    lemma_last_target_split(s, 0, i + 1, s.len() as int);
    assert(last_target_in(s, i + 1, s.len() as int) == last_target_in(
        s,
        i,
        s.len() as int,
    ) || last_target_in(s, i, s.len() as int) == Some(i));
}

/// The z priority of a region set at a point is at most the bound.
pub open spec fn z_le(o: Option<u16>, z: u16) -> bool {
    match o {
        Some(w) => w <= z,
        None => true,
    }
}

/// The z priority of a region set at a point is below the bound.
pub open spec fn z_lt(o: Option<u16>, z: u16) -> bool {
    match o {
        Some(w) => w < z,
        None => true,
    }
}

/// What the region scan finds: the z priority of some region of the set
/// that contains the point, with no containing region above it; or the
/// assurance that no region of the set contains the point.
pub proof fn lemma_best_z_props(rs: Seq<ZRect>, px: u16, py: u16, lo: int)
    ensures
        match best_z_in(rs, px, py, lo) {
            Some(z) => (exists|k: int|
                lo <= k < rs.len() && (#[trigger] rs[k].rect.spec_contains(px as int, py as int))
                    && rs[k].z == z) && (forall|k: int|
                lo <= k < rs.len() && (#[trigger] rs[k].rect.spec_contains(px as int, py as int))
                    ==> rs[k].z <= z),
            None => forall|k: int|
                lo <= k < rs.len() ==> !(#[trigger] rs[k].rect.spec_contains(
                    px as int,
                    py as int,
                )),
        },
    decreases rs.len() - lo,
{
    if lo < rs.len() {
        lemma_best_z_props(rs, px, py, lo + 1);
    }
}

/// An entry matches the hit test at some z priority exactly when one of
/// its regions contains the point — its declared regions, or, when it
/// declares none, the implicit region equal to its area at z priority 0.
pub proof fn lemma_entry_best_props(e: FocusEntry, px: u16, py: u16)
    ensures
        e.z_areas@.len() == 0 ==> entry_best(e, px, py) == (if e.area.spec_contains(
            px as int,
            py as int,
        ) {
            Some(0u16)
        } else {
            None
        }),
        e.z_areas@.len() > 0 ==> match entry_best(e, px, py) {
            Some(z) => (exists|k: int|
                0 <= k < e.z_areas@.len() && (#[trigger] e.z_areas@[k].rect.spec_contains(
                    px as int,
                    py as int,
                )) && e.z_areas@[k].z == z) && (forall|k: int|
                0 <= k < e.z_areas@.len() && (#[trigger] e.z_areas@[k].rect.spec_contains(
                    px as int,
                    py as int,
                )) ==> e.z_areas@[k].z <= z),
            None => forall|k: int|
                0 <= k < e.z_areas@.len() ==> !(#[trigger] e.z_areas@[k].rect.spec_contains(
                    px as int,
                    py as int,
                )),
        },
{
    lemma_best_z_props(e.z_areas@, px, py, 0);
}

/// What the hit scan selects: an entry that the point hits, whose z
/// priority no entry beats, and that no later entry matches; or the
/// assurance that the point hits no entry at all.
pub proof fn lemma_best_hit_props(s: Seq<FocusEntry>, px: u16, py: u16, lo: int)
    ensures
        match best_hit_in(s, px, py, lo) {
            Some(p) => lo <= p.0 < s.len() && entry_best(s[p.0], px, py) == Some(p.1) && (forall|
                k: int,
            |
                lo <= k < s.len() ==> z_le(#[trigger] entry_best(s[k], px, py), p.1)) && (forall|
                k: int,
            | p.0 < k < s.len() ==> z_lt(#[trigger] entry_best(s[k], px, py), p.1)),
            None => forall|k: int|
                lo <= k < s.len() ==> (#[trigger] entry_best(s[k], px, py)) matches None,
        },
    decreases s.len() - lo,
{
    if lo < s.len() {
        lemma_best_hit_props(s, px, py, lo + 1);
    }
}

/// Z priority wins the hit test: when the point hits entry `i` at z
/// priority `zi` and every other entry it hits stays strictly below
/// `zi`, the hit test selects entry `i`, wherever it stands in
/// traversal order.
pub proof fn lemma_z_priority_wins(s: Seq<FocusEntry>, px: u16, py: u16, i: int, zi: u16)
    requires
        0 <= i < s.len(),
        entry_best(s[i], px, py) == Some(zi),
        forall|k: int| 0 <= k < s.len() && k != i ==> z_lt(#[trigger] entry_best(s[k], px, py), zi),
    ensures
        hit_index(s, px, py) == Some(i),
{
    lemma_best_hit_props(s, px, py, 0);
    match best_hit_in(s, px, py, 0) {
        Some(p) => {
            if p.0 != i {
                assert(z_le(entry_best(s[i], px, py), p.1));
                assert(z_lt(entry_best(s[p.0], px, py), zi));
            }
        },
        None => {
            assert(entry_best(s[i], px, py) matches None);
        },
    }
}

/// Executable test for [`is_nav_target`].
fn nav_is_target(n: Navigation) -> (r: bool)
    ensures
        r == is_nav_target(n),
{
    match n {
        Navigation::Reach => true,
        Navigation::ReachLeaveFront => true,
        Navigation::ReachLeaveBack => true,
        Navigation::Regular => true,
        _ => false,
    }
}

/// Executable test for [`leaves_forward`].
fn nav_leaves_forward(n: Navigation) -> (r: bool)
    ensures
        r == leaves_forward(n),
{
    match n {
        Navigation::Reach => false,
        Navigation::ReachLeaveFront => false,
        _ => true,
    }
}

/// Executable test for [`leaves_backward`].
fn nav_leaves_backward(n: Navigation) -> (r: bool)
    ensures
        r == leaves_backward(n),
{
    match n {
        Navigation::Reach => false,
        Navigation::ReachLeaveBack => false,
        _ => true,
    }
}

impl Focus {
    /// Create an empty registry without a container flag.
    pub fn new() -> (r: Focus)
        ensures
            r.entries@ == Seq::<FocusEntry>::empty(),
            r.container matches None,
            r.container_area == (Rect { x: 0, y: 0, width: 0, height: 0 }),
    {
        Focus {
            entries: Vec::new(),
            container: None,
            container_area: Rect { x: 0, y: 0, width: 0, height: 0 },
        }
    }

    /// Create an empty registry that aggregates into a container flag.
    pub fn new_container(container: ContainerFlag, container_area: Rect) -> (r: Focus)
        ensures
            r.entries@ == Seq::<FocusEntry>::empty(),
            r.container matches Some(c) && c == container,
            r.container_area == container_area,
    {
        Focus { entries: Vec::new(), container: Some(container), container_area }
    }

    /// Append one widget's entry, after all entries added so far.
    pub fn add(&mut self, flag: FocusFlag, area: Rect, z_areas: Vec<ZRect>, navigable: Navigation)
        ensures
            final(self).entries@ == old(self).entries@.push(
                FocusEntry { flag, area, z_areas, navigable },
            ),
            final(self).container == old(self).container,
            final(self).container_area == old(self).container_area,
    {
        self.entries.push(FocusEntry { flag, area, z_areas, navigable });
    }

    /// Number of entries in the registry.
    pub fn len(&self) -> (r: usize)
        ensures
            r == self.entries@.len(),
    {
        self.entries.len()
    }

    /// The registry holds no entries.
    pub fn is_empty(&self) -> (r: bool)
        ensures
            r == (self.entries@.len() == 0),
    {
        self.entries.len() == 0
    }

    /// The flag of the entry at the given index.
    pub fn flag_at(&self, i: usize) -> (r: &FocusFlag)
        requires
            i < self.entries@.len(),
        ensures
            *r == self.entries@[i as int].flag,
    {
        &self.entries[i].flag
    }

    /// The navigation policy of the entry at the given index.
    pub fn navigable_at(&self, i: usize) -> (r: Navigation)
        requires
            i < self.entries@.len(),
        ensures
            r == self.entries@[i as int].navigable,
    {
        self.entries[i].navigable
    }

    /// The container flag, when one was declared.
    pub fn container_flag(&self) -> (r: Option<&ContainerFlag>)
        ensures
            match r {
                Some(c) => self.container matches Some(f) && *c == f,
                None => self.container matches None,
            },
    {
        match &self.container {
            Some(c) => Some(c),
            None => None,
        }
    }

    /// The container flag by value, consuming the registry.
    pub fn into_container_flag(self) -> (r: Option<ContainerFlag>)
        ensures
            r == self.container,
    {
        self.container
    }

    /// Area of the whole registry.
    pub fn container_area(&self) -> (r: Rect)
        ensures
            r == self.container_area,
    {
        self.container_area
    }

    /// The index of the currently focused entry: the first entry whose
    /// flag is focused, if any.
    pub fn focused_index(&self) -> (r: Option<usize>)
        ensures
            match r {
                Some(i) => i < self.entries@.len() && current_focus(self.entries@) == Some(
                    i as int,
                ),
                None => current_focus(self.entries@) matches None,
            },
    {
        let len: usize = self.entries.len();
        let mut j: usize = 0;
        while j < len
            invariant
                j <= len,
                len == self.entries@.len(),
                current_focus(self.entries@) == first_focused_in(self.entries@, j as int, len as int),
            decreases len - j,
        {
            if self.entries[j].flag.0.focused {
                return Some(j);
            }
            j = j + 1;
        }
        None
    }

    /// The first navigation target in `[lo, hi)`, if any.
    fn first_target_from(&self, lo: usize, hi: usize) -> (r: Option<usize>)
        requires
            lo <= hi <= self.entries@.len(),
        ensures
            opt_index(r) == first_target_in(self.entries@, lo as int, hi as int),
            r matches Some(j) ==> lo <= j < hi,
    {
        let mut j: usize = lo;
        while j < hi
            invariant
                lo <= j <= hi <= self.entries@.len(),
                first_target_in(self.entries@, lo as int, hi as int) == first_target_in(
                    self.entries@,
                    j as int,
                    hi as int,
                ),
            decreases hi - j,
        {
            if nav_is_target(self.entries[j].navigable) {
                return Some(j);
            }
            j = j + 1;
        }
        None
    }

    /// The last navigation target in `[lo, hi)`, if any.
    fn last_target_from(&self, lo: usize, hi: usize) -> (r: Option<usize>)
        requires
            lo <= hi <= self.entries@.len(),
        ensures
            opt_index(r) == last_target_in(self.entries@, lo as int, hi as int),
            r matches Some(j) ==> lo <= j < hi,
    {
        let mut j: usize = hi;
        while j > lo
            invariant
                lo <= j <= hi <= self.entries@.len(),
                last_target_in(self.entries@, j as int, hi as int) matches None,
            decreases j,
        {
            j = j - 1;
            if nav_is_target(self.entries[j].navigable) {
                proof {
                    lemma_last_target_split(self.entries@, lo as int, j as int, hi as int);
                }
                return Some(j);
            }
        }
        None
    }

    /// Perform the focus transition to the entry at index `n`: clear all
    /// transient flags, unfocus every other entry (marking the one that
    /// was focused as lost), focus entry `n` (marking it as gained when
    /// it was not focused before), and update the container flag.
    fn focus_index(&mut self, n: usize)
        requires
            n < old(self).entries@.len(),
        ensures
            final(self).entries@ == transition(old(self).entries@, n as int),
            final(self).container == container_transitioned(old(self).container),
            final(self).container_area == old(self).container_area,
            at_most_one_focused(final(self).entries@),
            container_synced(*final(self)),
    {
        let ghost s0 = self.entries@;
        let len: usize = self.entries.len();
        let mut j: usize = 0;
        while j < len
            invariant
                j <= len,
                n < len,
                len == self.entries@.len(),
                len == s0.len(),
                forall|k: int| 0 <= k < j ==> self.entries@[k] == entry_transitioned(
                    s0[k],
                    k == n as int,
                ),
                forall|k: int| j <= k < len ==> self.entries@[k] == s0[k],
                self.container == old(self).container,
                self.container_area == old(self).container_area,
            decreases len - j,
        {
            let was: bool = self.entries[j].flag.0.focused;
            if j == n {
                self.entries[j].flag.0.focused = true;
                self.entries[j].flag.0.gained = !was;
                self.entries[j].flag.0.lost = false;
            } else {
                self.entries[j].flag.0.focused = false;
                self.entries[j].flag.0.gained = false;
                self.entries[j].flag.0.lost = was;
            }
            j = j + 1;
        }
        proof {
            assert(self.entries@ =~= transition(s0, n as int));
            lemma_transition_focus(s0, n as int);
        }
        match &mut self.container {
            Some(c) => {
                let was: bool = c.0.focused;
                c.0.focused = true;
                c.0.gained = !was;
                c.0.lost = false;
            },
            None => {},
        }
        proof {
            assert(container_synced(*self)) by {
                assert(self.entries@[n as int].flag.0.focused);
            }
        }
    }

    /// Advance focus to the next eligible entry, wrapping around the
    /// registry end. Reports `Changed` when focus moved, `Continue` when
    /// the registry is empty, no eligible target exists, or the current
    /// entry's policy forbids forward departure.
    pub fn next(&mut self) -> (r: Outcome)
        ensures
            nav_applied(*old(self), *final(self), fwd_candidate(old(self).entries@), r),
            at_most_one_focused(old(self).entries@) ==> at_most_one_focused(
                final(self).entries@,
            ),
            container_synced(*old(self)) ==> container_synced(*final(self)),
    {
        let len: usize = self.entries.len();
        match self.focused_index() {
            Some(i) => {
                if !nav_leaves_forward(self.entries[i].navigable) {
                    return Outcome::Continue;
                }
                let cand: Option<usize> = match self.first_target_from(i + 1, len) {
                    Some(j) => Some(j),
                    None => self.first_target_from(0, i),
                };
                match cand {
                    Some(j) => {
                        self.focus_index(j);
                        Outcome::Changed
                    },
                    None => Outcome::Continue,
                }
            },
            None => {
                match self.first_target_from(0, len) {
                    Some(j) => {
                        self.focus_index(j);
                        Outcome::Changed
                    },
                    None => Outcome::Continue,
                }
            },
        }
    }

    /// Retreat focus to the previous eligible entry, wrapping around the
    /// registry start. Reports `Changed` when focus moved, `Continue`
    /// when the registry is empty, no eligible target exists, or the
    /// current entry's policy forbids backward departure.
    pub fn prev(&mut self) -> (r: Outcome)
        ensures
            nav_applied(*old(self), *final(self), bwd_candidate(old(self).entries@), r),
            at_most_one_focused(old(self).entries@) ==> at_most_one_focused(
                final(self).entries@,
            ),
            container_synced(*old(self)) ==> container_synced(*final(self)),
    {
        let len: usize = self.entries.len();
        match self.focused_index() {
            Some(i) => {
                if !nav_leaves_backward(self.entries[i].navigable) {
                    return Outcome::Continue;
                }
                let cand: Option<usize> = match self.last_target_from(0, i) {
                    Some(j) => Some(j),
                    None => self.last_target_from(i + 1, len),
                };
                match cand {
                    Some(j) => {
                        self.focus_index(j);
                        Outcome::Changed
                    },
                    None => Outcome::Continue,
                }
            },
            None => {
                match self.last_target_from(0, len) {
                    Some(j) => {
                        self.focus_index(j);
                        Outcome::Changed
                    },
                    None => Outcome::Continue,
                }
            },
        }
    }

    /// The hit test: among all regions of all entries that contain the
    /// point, the entry owning the region with the highest z priority
    /// wins; entries that share the top priority are won by the one
    /// latest in traversal order (later-declared widgets are drawn on
    /// top).
    pub fn hit_test(&self, px: u16, py: u16) -> (r: Option<usize>)
        ensures
            opt_index(r) == hit_index(self.entries@, px, py),
            r matches Some(i) ==> i < self.entries@.len(),
    {
        let len: usize = self.entries.len();
        let mut best: Option<(usize, u16)> = None;
        let mut j: usize = len;
        while j > 0
            invariant
                j <= len,
                len == self.entries@.len(),
                pair_as_hit(best) == best_hit_in(self.entries@, px, py, j as int),
                best matches Some(p) ==> p.0 < len,
            decreases j,
        {
            j = j - 1;
            let cur: Option<u16> = entry_best_at(&self.entries[j], px, py);
            best = match (cur, best) {
                (Some(z), Some((bi, bz))) => if z > bz {
                    Some((j, z))
                } else {
                    Some((bi, bz))
                },
                (Some(z), None) => Some((j, z)),
                (None, b) => b,
            };
        }
        match best {
            Some((bi, _)) => Some(bi),
            None => None,
        }
    }

    /// Dispatch a pointer press at the point: run the hit test, and move
    /// focus to the winning entry unless its policy keeps it out of the
    /// pointer's reach. A press on the already-focused entry is consumed
    /// without a change; a press that the pointer cannot focus anything
    /// with is not consumed.
    pub fn focus_at(&mut self, px: u16, py: u16) -> (r: Outcome)
        ensures
            mouse_applied(*old(self), *final(self), px, py, r),
            at_most_one_focused(old(self).entries@) ==> at_most_one_focused(
                final(self).entries@,
            ),
            container_synced(*old(self)) ==> container_synced(*final(self)),
    {
        match self.hit_test(px, py) {
            Some(i) => {
                if !nav_is_mouse_target(self.entries[i].navigable) {
                    return Outcome::Continue;
                }
                let same: bool = match self.focused_index() {
                    Some(f) => f == i,
                    None => false,
                };
                if same {
                    Outcome::Unchanged
                } else {
                    self.focus_index(i);
                    Outcome::Changed
                }
            },
            None => Outcome::Continue,
        }
    }
}

/// A best-hit accumulator seen as the mathematical best-hit option.
spec fn pair_as_hit(r: Option<(usize, u16)>) -> Option<(int, u16)> {
    match r {
        Some(p) => Some((p.0 as int, p.1)),
        None => None,
    }
}

/// Executable test for [`is_mouse_target`].
fn nav_is_mouse_target(n: Navigation) -> (r: bool)
    ensures
        r == is_mouse_target(n),
{
    match n {
        Navigation::Unreachable => false,
        _ => true,
    }
}

/// The highest z priority at which the entry's regions contain the
/// point, if any region does.
fn entry_best_at(e: &FocusEntry, px: u16, py: u16) -> (r: Option<u16>)
    ensures
        r == entry_best(*e, px, py),
{
    let n: usize = e.z_areas.len();
    if n == 0 {
        if e.area.contains(px, py) {
            Some(0)
        } else {
            None
        }
    } else {
        let mut acc: Option<u16> = None;
        let mut j: usize = n;
        while j > 0
            invariant
                j <= n,
                n == e.z_areas@.len(),
                acc == best_z_in(e.z_areas@, px, py, j as int),
            decreases j,
        {
            j = j - 1;
            let zr: ZRect = e.z_areas[j];
            if zr.rect.contains(px, py) {
                acc = match acc {
                    Some(z) => if zr.z > z {
                        Some(zr.z)
                    } else {
                        Some(z)
                    },
                    None => Some(zr.z),
                };
            }
        }
        acc
    }
}

/// Dispatch one decoded keyboard event to the registry: Tab-equivalents
/// advance, Shift-Tab-equivalents retreat, every other key is passed
/// through unconsumed.
pub fn handle_focus(focus: &mut Focus, event: FocusEvent) -> (r: Outcome)
    ensures
        match event {
            FocusEvent::Next => nav_applied(
                *old(focus),
                *final(focus),
                fwd_candidate(old(focus).entries@),
                r,
            ),
            FocusEvent::Prev => nav_applied(
                *old(focus),
                *final(focus),
                bwd_candidate(old(focus).entries@),
                r,
            ),
            FocusEvent::Other => {
                &&& r == Outcome::Continue
                &&& final(focus).entries@ == old(focus).entries@
                &&& final(focus).container == old(focus).container
                &&& final(focus).container_area == old(focus).container_area
            },
        },
        at_most_one_focused(old(focus).entries@) ==> at_most_one_focused(final(focus).entries@),
        container_synced(*old(focus)) ==> container_synced(*final(focus)),
{
    match event {
        FocusEvent::Next => focus.next(),
        FocusEvent::Prev => focus.prev(),
        FocusEvent::Other => Outcome::Continue,
    }
}

/// Dispatch one pointer press at a coordinate to the registry.
pub fn handle_mouse_focus(focus: &mut Focus, px: u16, py: u16) -> (r: Outcome)
    ensures
        mouse_applied(*old(focus), *final(focus), px, py, r),
        at_most_one_focused(old(focus).entries@) ==> at_most_one_focused(final(focus).entries@),
        container_synced(*old(focus)) ==> container_synced(*final(focus)),
{
    focus.focus_at(px, py)
}

} // verus!
