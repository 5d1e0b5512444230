//! The tab bar: one equally wide tab per open tab, each with a close
//! button.
use vstd::prelude::*;
use crate::geometry::{inside, Point, Rect};
use crate::views::TabInfo;

verus! {

/// Height of the tab bar.
pub const TAB_BAR_HEIGHT: u32 = 32;

/// Width of the close button area.
pub const CLOSE_BUTTON_WIDTH: u32 = 20;

/// Minimum tab width.
pub const MIN_TAB_WIDTH: u32 = 80;

/// Maximum tab width.
pub const MAX_TAB_WIDTH: u32 = 200;

/// The width of each of `n` tabs in a bar this wide: an equal share,
/// kept between the minimum and maximum width.
pub open spec fn tab_width(width: u32, n: int) -> int {
    let raw = (width as int) / n;
    if raw < MIN_TAB_WIDTH { MIN_TAB_WIDTH as int } else if raw > MAX_TAB_WIDTH { MAX_TAB_WIDTH as int } else { raw as int }
}

/// Where tab `i` of `n` is, left to right from the bar's left edge.
pub open spec fn tab_rect(b: Rect, n: int, i: int) -> Rect {
    Rect { x: (b.x + i * tab_width(b.width, n)) as i32, y: b.y, width: tab_width(b.width, n) as u32, height: TAB_BAR_HEIGHT }
}

/// The close button of a tab, at its right end.
pub open spec fn close_rect(t: Rect) -> Rect {
    Rect {
        x: (t.x + t.width - CLOSE_BUTTON_WIDTH - 4) as i32,
        y: (t.y + 6) as i32,
        width: CLOSE_BUTTON_WIDTH,
        height: (TAB_BAR_HEIGHT - 12) as u32,
    }
}

/// The first tab (from the `k`th) under the point.
pub open spec fn tab_hit(rects: Seq<Rect>, p: Point, k: int) -> Option<usize>
    decreases rects.len() - k,
{
    if k < 0 || k >= rects.len() {
        None
    } else if inside(rects[k], p) {
        Some(k as usize)
    } else {
        tab_hit(rects, p, k + 1)
    }
}

/// What the tab bar holds.
pub struct TabBarState {
    pub bounds: Rect,
    pub titles: Seq<Seq<char>>,
    pub active_flags: Seq<bool>,
    pub active_index: usize,
    pub hovered_tab: Option<usize>,
    pub hovered_close: Option<usize>,
    pub tab_bounds: Seq<Rect>,
}

/// The tabs laid out for these bounds: none without tabs.
pub open spec fn laid_out(b: Rect, n: int) -> Seq<Rect> {
    if n == 0 { Seq::empty() } else { Seq::new(n as nat, |i: int| tab_rect(b, n, i)) }
}

/// The bar lies well inside `i32` and has at most a thousand tabs.
pub open spec fn bar_ok(s: TabBarState) -> bool {
    &&& -0x2000_0000 <= s.bounds.x <= 0x2000_0000
    &&& -0x2000_0000 <= s.bounds.y <= 0x2000_0000
    &&& s.titles.len() <= 1000
    &&& s.titles.len() == s.active_flags.len()
    &&& s.tab_bounds == laid_out(s.bounds, s.titles.len() as int)
}

/// The tab bar.
pub struct TabBar {
    bounds: Rect,
    tabs: Vec<TabInfo>,
    active_index: usize,
    hovered_tab: Option<usize>,
    hovered_close: Option<usize>,
    tab_bounds: Vec<Rect>,
}

impl View for TabBar {
    type V = TabBarState;

    closed spec fn view(&self) -> TabBarState {
        TabBarState {
            bounds: self.bounds,
            titles: self.tabs@.map_values(|t: TabInfo| t.title@),
            active_flags: self.tabs@.map_values(|t: TabInfo| t.active),
            active_index: self.active_index,
            hovered_tab: self.hovered_tab,
            hovered_close: self.hovered_close,
            tab_bounds: self.tab_bounds@,
        }
    }
}

impl TabBar {
    /// Create a new tab bar, without tabs.
    pub fn new(bounds: Rect) -> (res: Self)
        requires
            -0x2000_0000 <= bounds.x <= 0x2000_0000,
            -0x2000_0000 <= bounds.y <= 0x2000_0000,
        ensures
            bar_ok(res@),
            res@.bounds == bounds,
            res@.titles.len() == 0,
            res@.active_index == 0,
            res@.hovered_tab is None,
            res@.hovered_close is None,
    {
        let res = TabBar {
            bounds,
            tabs: Vec::new(),
            active_index: 0,
            hovered_tab: None,
            hovered_close: None,
            tab_bounds: Vec::new(),
        };
        assert(res@.titles =~= Seq::<Seq<char>>::empty());
        assert(res@.active_flags =~= Seq::<bool>::empty());
        res
    }

    fn recalculate_tab_bounds(&mut self)
        requires
            -0x2000_0000 <= old(self).bounds.x <= 0x2000_0000,
            old(self).tabs@.len() <= 1000,
        ensures
            final(self).tab_bounds@ == laid_out(old(self).bounds, old(self).tabs@.len() as int),
            final(self).bounds == old(self).bounds,
            final(self).tabs == old(self).tabs,
            final(self).active_index == old(self).active_index,
            final(self).hovered_tab == old(self).hovered_tab,
            final(self).hovered_close == old(self).hovered_close,
    {
        let mut rects: Vec<Rect> = Vec::new();
        let n = self.tabs.len();
        if n == 0 {
            self.tab_bounds = rects;
            assert(self.tab_bounds@ =~= Seq::<Rect>::empty());
            return;
        }
        let raw = self.bounds.width / (n as u32);
        let w: u32 = if raw < MIN_TAB_WIDTH {
            MIN_TAB_WIDTH
        } else if raw > MAX_TAB_WIDTH {
            MAX_TAB_WIDTH
        } else {
            raw
        };
        assert(w as int == tab_width(self.bounds.width, n as int));
        let mut x: i64 = self.bounds.x as i64;
        let mut i: usize = 0;
        while i < n
            invariant
                1 <= n <= 1000,
                n == self.tabs@.len(),
                i <= n,
                w == tab_width(self.bounds.width, n as int),
                MIN_TAB_WIDTH <= w <= MAX_TAB_WIDTH,
                x == self.bounds.x + i * w,
                -0x2000_0000 <= self.bounds.x <= 0x2000_0000,
                rects@.len() == i,
                forall|k: int| 0 <= k < i ==> #[trigger] rects@[k] == tab_rect(self.bounds, n as int, k),
            decreases n - i,
        {
            proof {
                assert(i * w <= 1000 * 200) by (nonlinear_arith)
                    requires
                        i <= 1000,
                        w <= 200,
                ;
            }
            rects.push(Rect { x: x as i32, y: self.bounds.y, width: w, height: TAB_BAR_HEIGHT });
            proof {
                assert((i + 1) * w == i * w + w) by (nonlinear_arith);
            }
            x = x + w as i64;
            i = i + 1;
        }
        self.tab_bounds = rects;
        assert(self.tab_bounds@ =~= laid_out(self.bounds, n as int));
    }

    /// Update bounds (the tabs are laid out again).
    pub fn set_bounds(&mut self, bounds: Rect)
        requires
            bar_ok(old(self)@),
            -0x2000_0000 <= bounds.x <= 0x2000_0000,
            -0x2000_0000 <= bounds.y <= 0x2000_0000,
        ensures
            bar_ok(final(self)@),
            final(self)@ == (TabBarState {
                bounds,
                tab_bounds: laid_out(bounds, old(self)@.titles.len() as int),
                ..old(self)@
            }),
    {
        self.bounds = bounds;
        self.recalculate_tab_bounds();
    }

    /// Set the tabs to display and the active one.
    pub fn set_tabs(&mut self, tabs: Vec<TabInfo>, active_index: usize)
        requires
            bar_ok(old(self)@),
            tabs@.len() <= 1000,
        ensures
            bar_ok(final(self)@),
            final(self)@ == (TabBarState {
                titles: tabs@.map_values(|t: TabInfo| t.title@),
                active_flags: tabs@.map_values(|t: TabInfo| t.active),
                active_index,
                tab_bounds: laid_out(old(self)@.bounds, tabs@.len() as int),
                ..old(self)@
            }),
    {
        self.tabs = tabs;
        self.active_index = active_index;
        self.recalculate_tab_bounds();
    }

    /// Update only the active index.
    pub fn set_active(&mut self, index: usize)
        requires
            bar_ok(old(self)@),
        ensures
            bar_ok(final(self)@),
            final(self)@ == (TabBarState { active_index: index, ..old(self)@ }),
    {
        self.active_index = index;
    }

    /// Get tab count.
    pub fn tab_count(&self) -> (res: usize)
        ensures
            res == self@.titles.len(),
    {
        self.tabs.len()
    }

    /// The tabs shown.
    pub fn tabs(&self) -> (res: &Vec<TabInfo>)
        ensures
            res@.map_values(|t: TabInfo| t.title@) == self@.titles,
            res@.map_values(|t: TabInfo| t.active) == self@.active_flags,
    {
        &self.tabs
    }

    /// Where each tab is.
    pub fn tab_bounds(&self) -> (res: &Vec<Rect>)
        ensures
            res@ == self@.tab_bounds,
    {
        &self.tab_bounds
    }

    /// The hovered tab and the tab whose close button is hovered.
    pub fn hover_state(&self) -> (res: (Option<usize>, Option<usize>))
        ensures
            res == (self@.hovered_tab, self@.hovered_close),
    {
        (self.hovered_tab, self.hovered_close)
    }

    /// The close button of tab `i`.
    pub fn close_button_bounds(&self, i: usize) -> (res: Option<Rect>)
        requires
            bar_ok(self@),
        ensures
            res == if i < self@.tab_bounds.len() { Some(close_rect(self@.tab_bounds[i as int])) } else { None::<Rect> },
    {
        if i >= self.tab_bounds.len() {
            return None;
        }
        let t = self.tab_bounds[i];
        proof {
            let n = self@.titles.len() as int;
            assert(i * tab_width(self@.bounds.width, n) <= 1000 * 200) by (nonlinear_arith)
                requires
                    i < 1000,
                    tab_width(self@.bounds.width, n) <= 200,
            ;
        }
        Some(
            Rect {
                x: (t.x as i64 + t.width as i64 - CLOSE_BUTTON_WIDTH as i64 - 4) as i32,
                y: t.y + 6,
                width: CLOSE_BUTTON_WIDTH,
                height: TAB_BAR_HEIGHT - 12,
            },
        )
    }

    fn hit(&self, pos: Point) -> (res: Option<usize>)
        requires
            bar_ok(self@),
        ensures
            res == tab_hit(self@.tab_bounds, pos, 0),
            res matches Some(k) ==> k < self@.tab_bounds.len(),
    {
        let mut k: usize = 0;
        while k < self.tab_bounds.len()
            invariant
                k <= self@.tab_bounds.len(),
                tab_hit(self@.tab_bounds, pos, 0) == tab_hit(self@.tab_bounds, pos, k as int),
            decreases self@.tab_bounds.len() - k,
        {
            if self.tab_bounds[k].contains_point(pos) {
                return Some(k);
            }
            k = k + 1;
        }
        None
    }

    /// Handle mouse move: the tab under the pointer is hovered, or its close
    /// button.
    pub fn on_mouse_move(&mut self, pos: Point)
        requires
            bar_ok(old(self)@),
        ensures
            bar_ok(final(self)@),
            ({
                let s = old(self)@;
                let hit = if inside(s.bounds, pos) { tab_hit(s.tab_bounds, pos, 0) } else { None };
                final(self)@ == (TabBarState {
                    hovered_close: match hit {
                        Some(i) => if inside(close_rect(s.tab_bounds[i as int]), pos) { Some(i) } else { None },
                        None => None,
                    },
                    hovered_tab: match hit {
                        Some(i) => if inside(close_rect(s.tab_bounds[i as int]), pos) { None } else { Some(i) },
                        None => None,
                    },
                    ..s
                })
            }),
    {
        self.hovered_tab = None;
        self.hovered_close = None;
        if !self.bounds.contains_point(pos) {
            return;
        }
        match self.hit(pos) {
            Some(i) => {
                let c = self.close_button_bounds(i).unwrap();
                if c.contains_point(pos) {
                    self.hovered_close = Some(i);
                } else {
                    self.hovered_tab = Some(i);
                }
            },
            None => {},
        }
    }

    /// Handle click: the tab clicked, and whether on its close button.
    pub fn on_click(&self, pos: Point) -> (res: Option<(usize, bool)>)
        requires
            bar_ok(self@),
        ensures
            res == if !inside(self@.bounds, pos) {
                None
            } else {
                match tab_hit(self@.tab_bounds, pos, 0) {
                    Some(i) => Some((i, inside(close_rect(self@.tab_bounds[i as int]), pos))),
                    None => None,
                }
            },
    {
        if !self.bounds.contains_point(pos) {
            return None;
        }
        match self.hit(pos) {
            Some(i) => {
                let c = self.close_button_bounds(i).unwrap();
                Some((i, c.contains_point(pos)))
            },
            None => None,
        }
    }

    /// Clear hover state.
    pub fn clear_hover(&mut self)
        requires
            bar_ok(old(self)@),
        ensures
            bar_ok(final(self)@),
            final(self)@ == (TabBarState { hovered_tab: None, hovered_close: None, ..old(self)@ }),
    {
        self.hovered_tab = None;
        self.hovered_close = None;
    }
}

/// The tabs sit side by side without gaps: each starts where the one before
/// ends.
pub proof fn law_tabs_adjoin(b: Rect, n: int, i: int)
    requires
        1 <= n,
        0 <= i,
        i + 1 < n,
        -0x2000_0000 <= b.x <= 0x2000_0000,
        n <= 1000,
    ensures
        tab_rect(b, n, i + 1).x == tab_rect(b, n, i).x + tab_rect(b, n, i).width,
{
    let w = tab_width(b.width, n);
    assert(MIN_TAB_WIDTH <= w <= MAX_TAB_WIDTH);
    assert((i + 1) * w == i * w + w) by (nonlinear_arith);
    assert(0 <= i * w <= 1000 * 200) by (nonlinear_arith)
        requires
            0 <= i < 1000,
            0 <= w <= 200,
    ;
}

} // verus!
