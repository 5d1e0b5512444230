//! Dragging files onto folders, tabs and breadcrumbs: the drag state machine
//! and the flashing highlight that precedes entering a hovered folder.
use vstd::prelude::*;
use std::time::Instant;
use crate::path::{path_eq, same_path};
use crate::geometry::{Point, Rect};

verus! {

/// Distance in pixels the pointer must travel before a press becomes a drag.
pub const DRAG_THRESHOLD: i32 = 5;

/// How long the highlight stays on, or off, in milliseconds.
pub const FLASH_DURATION_MS: u64 = 150;

/// Number of flash cycles before a hovered folder is entered.
pub const TOTAL_FLASHES: u8 = 3;

#[verifier::external_type_specification]
#[verifier::external_body]
pub struct ExInstant(Instant);

/// `Instant::now`: the current moment. Nothing is claimed of it.
#[verifier::external_body]
pub(crate) fn instant_now() -> (res: Instant) {
    Instant::now()
}

/// `Instant::elapsed` on `since`, in whole milliseconds cut to `u64`, as
/// `elapsed().as_millis() as u64` gives it. It depends on the clock, so
/// nothing is claimed of the number.
#[verifier::external_body]
pub(crate) fn millis_since(since: &Instant) -> (res: u64) {
    since.elapsed().as_millis() as u64
}

/// The flash cycle count and highlight after one update, given the
/// milliseconds since the last toggle.
pub open spec fn flash_step(count: u8, on: bool, elapsed: u64) -> (u8, bool) {
    if count >= TOTAL_FLASHES || elapsed < FLASH_DURATION_MS {
        (count, on)
    } else if on {
        (count, false)
    } else {
        ((count + 1) as u8, true)
    }
}

/// Flash animation state for hover feedback.
#[derive(Debug)]
pub struct FlashState {
    /// Number of complete flash cycles (0 to TOTAL_FLASHES).
    flash_count: u8,
    /// Time of last toggle.
    last_toggle: Instant,
    /// Whether highlight is currently visible.
    highlight_on: bool,
}

impl FlashState {
    /// The number of complete flash cycles.
    pub closed spec fn flashes(&self) -> u8 {
        self.flash_count
    }

    /// Whether the highlight is shown.
    pub closed spec fn lit(&self) -> bool {
        self.highlight_on
    }

    /// Create a new flash state starting with highlight on.
    pub fn new() -> (res: Self)
        ensures
            res.flashes() == 0,
            res.lit(),
    {
        FlashState { flash_count: 0, last_toggle: instant_now(), highlight_on: true }
    }

    /// Move the animation on, given the milliseconds since the last toggle:
    /// once that is at least the flash duration the highlight toggles, and
    /// turning it back on completes a cycle. Returns whether all cycles are done.
    pub fn advance(&mut self, elapsed_ms: u64) -> (done: bool)
        ensures
            (final(self).flashes(), final(self).lit()) == flash_step(
                old(self).flashes(),
                old(self).lit(),
                elapsed_ms,
            ),
            done == (final(self).flashes() >= TOTAL_FLASHES),
    {
        if self.flash_count >= TOTAL_FLASHES {
            return true;
        }
        if elapsed_ms >= FLASH_DURATION_MS {
            self.last_toggle = instant_now();
            if self.highlight_on {
                self.highlight_on = false;
            } else {
                self.highlight_on = true;
                self.flash_count = self.flash_count + 1;
            }
        }
        self.flash_count >= TOTAL_FLASHES
    }

    /// Update flash state from the clock. Returns true if flash sequence is
    /// complete. Whether the highlight toggles depends on the time passed.
    pub fn update(&mut self) -> (done: bool)
        ensures
            exists|e: u64|
                (final(self).flashes(), final(self).lit()) == #[trigger] flash_step(
                    old(self).flashes(),
                    old(self).lit(),
                    e,
                ),
            done == (final(self).flashes() >= TOTAL_FLASHES),
    {
        let elapsed = millis_since(&self.last_toggle);
        self.advance(elapsed)
    }

    /// Check if highlight should be shown.
    pub fn is_highlighted(&self) -> (res: bool)
        ensures
            res == self.lit(),
    {
        self.highlight_on
    }

    /// Get the flash count.
    pub fn count(&self) -> (res: u8)
        ensures
            res == self.flashes(),
    {
        self.flash_count
    }
}

/// The state reached from a fresh flash after `n` updates that each came a
/// full flash duration after the last toggle.
pub open spec fn flash_run(n: nat) -> (u8, bool)
    decreases n,
{
    if n == 0 {
        (0u8, true)
    } else {
        let prev = flash_run((n - 1) as nat);
        flash_step(prev.0, prev.1, FLASH_DURATION_MS)
    }
}

/// A fresh flash completes one cycle per two timed updates, and completes
/// the whole sequence after exactly six of them, then stays complete.
pub proof fn law_flash_completes_after_three_cycles(n: nat)
    ensures
        flash_run(n).0 == (if n / 2 < 3 { n / 2 } else { 3 }),
        flash_run(n).1 == (n % 2 == 0 || n >= 6),
        (flash_run(n).0 >= TOTAL_FLASHES) <==> n >= 6,
    decreases n,
{
    if n > 0 {
        law_flash_completes_after_three_cycles((n - 1) as nat);
    }
}

/// Once the flash sequence is complete, updates change nothing.
pub proof fn law_complete_flash_is_stable(count: u8, on: bool, elapsed: u64)
    requires
        count >= TOTAL_FLASHES,
    ensures
        flash_step(count, on, elapsed) == (count, on),
{
}

/// Target being hovered over during drag.
#[derive(Debug)]
pub enum DragTarget {
    /// A directory entry in the current view.
    Directory { path: String, bounds: Rect },
    /// A tab in the tab bar.
    Tab { index: usize, target_path: String },
    /// A breadcrumb segment in the path bar.
    Breadcrumb { path: String, bounds: Rect },
}

/// The path a drop target stands for.
pub open spec fn target_path(t: DragTarget) -> Seq<char> {
    match t {
        DragTarget::Directory { path, .. } => path@,
        DragTarget::Tab { target_path, .. } => target_path@,
        DragTarget::Breadcrumb { path, .. } => path@,
    }
}

impl DragTarget {
    /// Get the path associated with this target.
    pub fn path(&self) -> (res: &String)
        ensures
            res@ == target_path(*self),
    {
        match self {
            DragTarget::Directory { path, .. } => path,
            DragTarget::Tab { target_path, .. } => target_path,
            DragTarget::Breadcrumb { path, .. } => path,
        }
    }

    /// Check if this target matches a path (paths compared as paths, piece
    /// by piece).
    pub fn matches_path(&self, other: &str) -> (res: bool)
        ensures
            res == same_path(target_path(*self), other@),
    {
        path_eq(self.path().as_str(), other)
    }

    /// A copy of the target.
    pub fn duplicate(&self) -> (res: Self)
        ensures
            res == *self,
    {
        match self {
            DragTarget::Directory { path, bounds } => DragTarget::Directory {
                path: path.clone(),
                bounds: *bounds,
            },
            DragTarget::Tab { index, target_path } => DragTarget::Tab {
                index: *index,
                target_path: target_path.clone(),
            },
            DragTarget::Breadcrumb { path, bounds } => DragTarget::Breadcrumb {
                path: path.clone(),
                bounds: *bounds,
            },
        }
    }
}

/// File drag state machine.
#[derive(Debug)]
pub enum FileDragState {
    /// No drag in progress.
    Idle,
    /// Mouse pressed on selected item, awaiting threshold.
    Pending { start_pos: Point, paths: Vec<String> },
    /// Actively dragging files.
    Dragging { paths: Vec<String>, current_pos: Point },
    /// Hovering over a drop target with flash animation.
    Hovering { paths: Vec<String>, current_pos: Point, target: DragTarget, flash_state: FlashState },
}

/// The pointer has moved more than the drag threshold away from the press,
/// along either axis.
pub open spec fn moved_past(start: Point, pos: Point) -> bool {
    let dx = pos.x - start.x;
    let dy = pos.y - start.y;
    dx > DRAG_THRESHOLD || -dx > DRAG_THRESHOLD || dy > DRAG_THRESHOLD || -dy > DRAG_THRESHOLD
}

/// The dragged paths of a state, if a drag is pending or under way.
pub open spec fn dragged_of(s: FileDragState) -> Option<Seq<String>> {
    match s {
        FileDragState::Idle => None,
        FileDragState::Pending { paths, .. } => Some(paths@),
        FileDragState::Dragging { paths, .. } => Some(paths@),
        FileDragState::Hovering { paths, .. } => Some(paths@),
    }
}

/// Controller for file drag operations.
#[derive(Debug)]
pub struct FileDragController {
    state: FileDragState,
}

impl FileDragController {
    /// The current state.
    pub closed spec fn st(&self) -> FileDragState {
        self.state
    }

    /// Create a new file drag controller.
    pub fn new() -> (res: Self)
        ensures
            res.st() is Idle,
    {
        FileDragController { state: FileDragState::Idle }
    }

    /// Get the current state.
    pub fn state(&self) -> (res: &FileDragState)
        ensures
            *res == self.st(),
    {
        &self.state
    }

    /// Check if any drag operation is in progress (pending or active).
    pub fn is_active(&self) -> (res: bool)
        ensures
            res == !(self.st() is Idle),
    {
        !matches!(self.state, FileDragState::Idle)
    }

    /// Check if actively dragging (past threshold).
    pub fn is_dragging(&self) -> (res: bool)
        ensures
            res == (self.st() is Dragging || self.st() is Hovering),
    {
        matches!(self.state, FileDragState::Dragging { .. } | FileDragState::Hovering { .. })
    }

    /// Check if hovering over a target.
    pub fn is_hovering(&self) -> (res: bool)
        ensures
            res == self.st() is Hovering,
    {
        matches!(self.state, FileDragState::Hovering { .. })
    }

    /// Get the dragged paths if dragging.
    pub fn dragged_paths(&self) -> (res: Option<&Vec<String>>)
        ensures
            match res {
                Some(v) => dragged_of(self.st()) == Some(v@),
                None => dragged_of(self.st()) is None,
            },
    {
        match &self.state {
            FileDragState::Pending { paths, .. } => Some(paths),
            FileDragState::Dragging { paths, .. } => Some(paths),
            FileDragState::Hovering { paths, .. } => Some(paths),
            FileDragState::Idle => None,
        }
    }

    /// Get current mouse position during drag.
    pub fn current_pos(&self) -> (res: Option<Point>)
        ensures
            res == (match self.st() {
                FileDragState::Dragging { current_pos, .. } => Some(current_pos),
                FileDragState::Hovering { current_pos, .. } => Some(current_pos),
                _ => None,
            }),
    {
        match &self.state {
            FileDragState::Dragging { current_pos, .. } => Some(*current_pos),
            FileDragState::Hovering { current_pos, .. } => Some(*current_pos),
            _ => None,
        }
    }

    /// Get the current hover target.
    pub fn current_target(&self) -> (res: Option<&DragTarget>)
        ensures
            res == (match self.st() {
                FileDragState::Hovering { target, .. } => Some(&target),
                _ => None,
            }),
    {
        match &self.state {
            FileDragState::Hovering { target, .. } => Some(target),
            _ => None,
        }
    }

    /// Check if a path is being targeted for highlight.
    pub fn is_target_path(&self, path: &str) -> (res: bool)
        ensures
            res == (match self.st() {
                FileDragState::Hovering { target, .. } => same_path(target_path(target), path@),
                _ => false,
            }),
    {
        match &self.state {
            FileDragState::Hovering { target, .. } => target.matches_path(path),
            _ => false,
        }
    }

    /// Check if highlight should be shown for current target.
    pub fn should_show_highlight(&self) -> (res: bool)
        ensures
            res == (match self.st() {
                FileDragState::Hovering { flash_state, .. } => flash_state.lit(),
                _ => false,
            }),
    {
        match &self.state {
            FileDragState::Hovering { flash_state, .. } => flash_state.is_highlighted(),
            _ => false,
        }
    }

    /// Get the target tab index if hovering over a tab.
    pub fn target_tab_index(&self) -> (res: Option<usize>)
        ensures
            res == (match self.st() {
                FileDragState::Hovering { target: DragTarget::Tab { index, .. }, .. } => Some(index),
                _ => None,
            }),
    {
        match &self.state {
            FileDragState::Hovering { target: DragTarget::Tab { index, .. }, .. } => Some(*index),
            _ => None,
        }
    }

    /// Start a potential file drag (on mouse press); nothing happens without
    /// paths.
    pub fn start_pending(&mut self, pos: Point, paths: Vec<String>)
        ensures
            paths.len() == 0 ==> final(self).st() == old(self).st(),
            paths.len() > 0 ==> final(self).st() == (FileDragState::Pending { start_pos: pos, paths }),
    {
        if paths.len() == 0 {
            return;
        }
        self.state = FileDragState::Pending { start_pos: pos, paths };
    }

    /// Update position during drag. Returns true if state changed. A pending
    /// press becomes a drag once the pointer moves past the threshold.
    pub fn update_position(&mut self, pos: Point) -> (changed: bool)
        ensures
            (match old(self).st() {
                FileDragState::Pending { start_pos, paths } => if moved_past(start_pos, pos) {
                    changed && final(self).st() == (FileDragState::Dragging {
                        paths,
                        current_pos: pos,
                    })
                } else {
                    !changed && final(self).st() == old(self).st()
                },
                FileDragState::Dragging { paths, .. } => changed && final(self).st() == (
                FileDragState::Dragging { paths, current_pos: pos }),
                FileDragState::Hovering { paths, target, flash_state, .. } => changed && final(self).st() == (FileDragState::Hovering {
                    paths,
                    current_pos: pos,
                    target,
                    flash_state,
                }),
                FileDragState::Idle => !changed && final(self).st() == old(self).st(),
            }),
    {
        let mut st = FileDragState::Idle;
        std::mem::swap(&mut st, &mut self.state);
        match st {
            FileDragState::Pending { start_pos, paths } => {
                let dx: i64 = pos.x as i64 - start_pos.x as i64;
                let dy: i64 = pos.y as i64 - start_pos.y as i64;
                let limit: i64 = DRAG_THRESHOLD as i64;
                if dx > limit || -dx > limit || dy > limit || -dy > limit {
                    self.state = FileDragState::Dragging { paths, current_pos: pos };
                    true
                } else {
                    self.state = FileDragState::Pending { start_pos, paths };
                    false
                }
            },
            FileDragState::Dragging { paths, .. } => {
                self.state = FileDragState::Dragging { paths, current_pos: pos };
                true
            },
            FileDragState::Hovering { paths, target, flash_state, .. } => {
                self.state = FileDragState::Hovering { paths, current_pos: pos, target, flash_state };
                true
            },
            FileDragState::Idle => false,
        }
    }

    /// Set a hover target. Call when cursor is over a valid drop target:
    /// a new target starts a fresh flash, the same target keeps its flash,
    /// and no target goes back to plain dragging.
    pub fn set_hover_target(&mut self, target: Option<DragTarget>)
        ensures
            (match (old(self).st(), target) {
                (FileDragState::Dragging { paths, current_pos }, Some(t)) => match final(self).st() {
                    FileDragState::Hovering {
                        paths: p2,
                        current_pos: c2,
                        target: t2,
                        flash_state: f2,
                    } => p2 == paths && c2 == current_pos && t2 == t && f2.flashes() == 0 && f2.lit(),
                    _ => false,
                },
                (FileDragState::Hovering { paths, current_pos, target: old_t, .. }, Some(t)) => if same_path(
                    target_path(old_t),
                    target_path(t),
                ) {
                    final(self).st() == old(self).st()
                } else {
                    match final(self).st() {
                        FileDragState::Hovering {
                            paths: p2,
                            current_pos: c2,
                            target: t2,
                            flash_state: f2,
                        } => p2 == paths && c2 == current_pos && t2 == t && f2.flashes() == 0
                            && f2.lit(),
                        _ => false,
                    }
                },
                (FileDragState::Hovering { paths, current_pos, .. }, None) => final(self).st() == (
                FileDragState::Dragging { paths, current_pos }),
                _ => final(self).st() == old(self).st(),
            }),
    {
        let mut st = FileDragState::Idle;
        std::mem::swap(&mut st, &mut self.state);
        match (st, target) {
            (FileDragState::Dragging { paths, current_pos }, Some(new_target)) => {
                self.state = FileDragState::Hovering {
                    paths,
                    current_pos,
                    target: new_target,
                    flash_state: FlashState::new(),
                };
            },
            (FileDragState::Hovering { paths, current_pos, target, flash_state }, Some(new_target)) => {
                if !target.matches_path(new_target.path().as_str()) {
                    self.state = FileDragState::Hovering {
                        paths,
                        current_pos,
                        target: new_target,
                        flash_state: FlashState::new(),
                    };
                } else {
                    self.state = FileDragState::Hovering { paths, current_pos, target, flash_state };
                }
            },
            (FileDragState::Hovering { paths, current_pos, .. }, None) => {
                self.state = FileDragState::Dragging { paths, current_pos };
            },
            (other, _) => {
                self.state = other;
            },
        }
    }

    /// Update flash animation. Returns true if flash sequence completed.
    pub fn update_flash(&mut self) -> (done: bool)
        ensures
            (match old(self).st() {
                FileDragState::Hovering { paths, current_pos, target, flash_state } => match final(self).st() {
                    FileDragState::Hovering {
                        paths: p2,
                        current_pos: c2,
                        target: t2,
                        flash_state: f2,
                    } => p2 == paths && c2 == current_pos && t2 == target && (exists|e: u64|
                        (f2.flashes(), f2.lit()) == #[trigger] flash_step(
                            flash_state.flashes(),
                            flash_state.lit(),
                            e,
                        )) && done == (f2.flashes() >= TOTAL_FLASHES),
                    _ => false,
                },
                _ => !done && final(self).st() == old(self).st(),
            }),
    {
        match &mut self.state {
            FileDragState::Hovering { flash_state, .. } => flash_state.update(),
            _ => false,
        }
    }

    /// Complete the drag operation. Returns the paths and target if dropped
    /// on a target; the controller is idle afterwards.
    pub fn complete(&mut self) -> (res: Option<(Vec<String>, DragTarget)>)
        ensures
            final(self).st() is Idle,
            (match old(self).st() {
                FileDragState::Hovering { paths, target, .. } => match res {
                    Some(r) => r.0 == paths && r.1 == target,
                    None => false,
                },
                _ => res is None,
            }),
    {
        let mut st = FileDragState::Idle;
        std::mem::swap(&mut st, &mut self.state);
        match st {
            FileDragState::Hovering { paths, target, .. } => Some((paths, target)),
            _ => None,
        }
    }

    /// The hovered target, for entering it, without leaving the drag.
    pub fn get_auto_enter_target(&self) -> (res: Option<DragTarget>)
        ensures
            res == (match self.st() {
                FileDragState::Hovering { target, .. } => Some(target),
                _ => None,
            }),
    {
        match &self.state {
            FileDragState::Hovering { target, .. } => Some(target.duplicate()),
            _ => None,
        }
    }

    /// Continue dragging after auto-enter (changes directory but keeps dragging).
    pub fn continue_after_enter(&mut self)
        ensures
            (match old(self).st() {
                FileDragState::Hovering { paths, current_pos, .. } => final(self).st() == (
                FileDragState::Dragging { paths, current_pos }),
                _ => final(self).st() == old(self).st(),
            }),
    {
        let mut st = FileDragState::Idle;
        std::mem::swap(&mut st, &mut self.state);
        match st {
            FileDragState::Hovering { paths, current_pos, .. } => {
                self.state = FileDragState::Dragging { paths, current_pos };
            },
            other => {
                self.state = other;
            },
        }
    }

    /// Cancel the drag operation.
    pub fn cancel(&mut self)
        ensures
            final(self).st() is Idle,
    {
        self.state = FileDragState::Idle;
    }
}

/// Where dragged files would be dropped, given what lies under the
/// pointer: a tab (its index and directory) other than the one showing
/// the current directory; else a breadcrumb segment for a directory other
/// than the current one; else a directory entry of the view that is not
/// itself among the dragged paths.
pub open spec fn drop_target(
    tab: Option<(usize, Seq<char>)>,
    current: Seq<char>,
    crumb: Option<(Seq<char>, Rect)>,
    entry: Option<(Seq<char>, bool, Rect)>,
    dragged: Seq<Seq<char>>,
) -> Option<(u8, usize, Seq<char>, Rect)> {
    let by_tab = match tab {
        Some((i, p)) => if !same_path(current, p) {
            Some((0u8, i, p, Rect { x: 0, y: 0, width: 0, height: 0 }))
        } else {
            None
        },
        None => None,
    };
    let by_crumb = match crumb {
        Some((p, b)) => if !same_path(current, p) {
            Some((1u8, 0usize, p, b))
        } else {
            None
        },
        None => None,
    };
    let by_entry = match entry {
        Some((p, is_dir, b)) => if is_dir && !(exists|k: int|
            0 <= k < dragged.len() && same_path(#[trigger] dragged[k], p)) {
            Some((2u8, 0usize, p, b))
        } else {
            None
        },
        None => None,
    };
    if by_tab is Some {
        by_tab
    } else if by_crumb is Some {
        by_crumb
    } else {
        by_entry
    }
}

/// The drop target as the pieces `drop_target` gives: its kind (0 tab,
/// 1 breadcrumb, 2 directory), tab index, path and bounds.
pub open spec fn target_parts(t: DragTarget) -> (u8, usize, Seq<char>, Rect) {
    match t {
        DragTarget::Tab { index, target_path } => (0u8, index, target_path@, Rect { x: 0, y: 0, width: 0, height: 0 }),
        DragTarget::Breadcrumb { path, bounds } => (1u8, 0usize, path@, bounds),
        DragTarget::Directory { path, bounds } => (2u8, 0usize, path@, bounds),
    }
}

/// A tab under the pointer, its directory as text.
pub open spec fn tab_text(t: Option<(usize, String)>) -> Option<(usize, Seq<char>)> {
    match t {
        Some((i, p)) => Some((i, p@)),
        None => None,
    }
}

/// A breadcrumb segment under the pointer, its path as text.
pub open spec fn crumb_text(c: Option<(String, Rect)>) -> Option<(Seq<char>, Rect)> {
    match c {
        Some((p, b)) => Some((p@, b)),
        None => None,
    }
}

/// An entry under the pointer, its path as text.
pub open spec fn entry_text(e: Option<(String, bool, Rect)>) -> Option<(Seq<char>, bool, Rect)> {
    match e {
        Some((p, d, b)) => Some((p@, d, b)),
        None => None,
    }
}

/// Find where dragged files would be dropped (see `drop_target`): `tab` is
/// the tab under the pointer with its directory, `current` the directory
/// shown, `crumb` the breadcrumb segment under the pointer, `entry` the
/// entry of the view under the pointer (its path, whether it is a
/// directory, its bounds), `dragged` the paths being dragged.
pub fn detect_file_drag_target(
    tab: Option<(usize, String)>,
    current: &str,
    crumb: Option<(String, Rect)>,
    entry: Option<(String, bool, Rect)>,
    dragged: &Vec<String>,
) -> (res: Option<DragTarget>)
    ensures
        ({
            let want = drop_target(
                tab_text(tab),
                current@,
                crumb_text(crumb),
                entry_text(entry),
                dragged@.map_values(|s: String| s@),
            );
            match res {
                Some(t) => want == Some(target_parts(t)),
                None => want is None,
            }
        }),
{
    let ghost dv = dragged@.map_values(|s: String| s@);
    let ghost t0 = tab_text(tab);
    let ghost c0 = crumb_text(crumb);
    let ghost e0 = entry_text(entry);
    match tab {
        Some((i, p)) => {
            if !path_eq(current, &p) {
                return Some(DragTarget::Tab { index: i, target_path: p });
            }
        },
        None => {},
    }
    match crumb {
        Some((p, b)) => {
            if !path_eq(current, &p) {
                return Some(DragTarget::Breadcrumb { path: p, bounds: b });
            }
        },
        None => {},
    }
    match entry {
        Some((p, is_dir, b)) => {
            if is_dir {
                let mut k: usize = 0;
                while k < dragged.len()
                    invariant
                        k <= dragged@.len(),
                        dv == dragged@.map_values(|s: String| s@),
                        match t0 {
                            Some((_, q)) => same_path(current@, q),
                            None => true,
                        },
                        match c0 {
                            Some((q, _)) => same_path(current@, q),
                            None => true,
                        },
                        e0 == Some((p@, is_dir, b)),
                        t0 == tab_text(tab),
                        c0 == crumb_text(crumb),
                        e0 == entry_text(entry),
                        is_dir,
                        forall|j: int| 0 <= j < k ==> !same_path(#[trigger] dv[j], p@),
                    decreases dragged@.len() - k,
                {
                    if path_eq(&dragged[k], &p) {
                        proof {
                            assert(same_path(dv[k as int], p@));
                        }
                        return None;
                    }
                    k = k + 1;
                }
                return Some(DragTarget::Directory { path: p, bounds: b });
            }
            None
        },
        None => None,
    }
}

} // verus!
