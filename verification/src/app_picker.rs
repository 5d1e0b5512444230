//! The "Open With" dialog: a list of applications filtered by fuzzy search,
//! driven by keys and clicks.
use vstd::prelude::*;
use nucleo_matcher::{Config, Matcher, Utf32Str};
use nucleo_matcher::pattern::{AtomKind, CaseMatching, Normalization, Pattern};
use crate::apps::{AppEntry, AppPickerResult, AppView};
use crate::geometry::{inside, Point, Rect};
use crate::keys::Key;
use crate::order::{arrangement, score_before, stable_score_order};
use crate::text::{all_ascii, chars_of, copy_string, is_ascii_char, string_of};

verus! {

/// Maximum number of visible items in the list.
pub const MAX_VISIBLE_ITEMS: usize = 10;

/// Item height in pixels.
pub const ITEM_HEIGHT: u32 = 36;

/// Input field height.
pub const INPUT_HEIGHT: u32 = 40;

/// Padding inside dialog.
pub const DIALOG_PADDING: u32 = 16;

/// The score nucleo's matcher gives `haystack` for the fuzzy search
/// `pattern` (smart case, smart normalization, each word of the pattern
/// matched on its own), `None` where it does not match.
pub uninterp spec fn fuzzy_score(pattern: Seq<char>, haystack: Seq<char>) -> Option<u32>;

/// `Pattern::new(pattern, CaseMatching::Smart, Normalization::Smart,
/// AtomKind::Fuzzy).score(haystack)` of nucleo-matcher with a matcher of the
/// default configuration. The result, a function of the two texts, is named
/// `fuzzy_score`. The matcher asserts that the haystack, as it reads it (its
/// UTF-8 bytes where its graphemes are ASCII, else one unit per grapheme),
/// has at most `u32::MAX` units; four units per character bound both.
#[verifier::external_body]
fn fuzzy_score_of(pattern: &str, haystack: &str) -> (res: Option<u32>)
    requires
        haystack@.len() <= MAX_HAYSTACK,
    ensures
        res == fuzzy_score(pattern@, haystack@),
{
    let mut matcher = Matcher::new(Config::DEFAULT);
    let mut buf = Vec::new();
    Pattern::new(pattern, CaseMatching::Smart, Normalization::Smart, AtomKind::Fuzzy).score(Utf32Str::new(haystack, &mut buf), &mut matcher)
}

/// Longest text, in characters, that the fuzzy matcher is given: four
/// bytes per character stay within `u32::MAX`.
pub const MAX_HAYSTACK: usize = 0x3FFF_FFFF;

/// The score of `haystack` for the search `pattern`: the fuzzy score, and
/// no match for a text longer than the matcher takes.
pub open spec fn match_score(pattern: Seq<char>, haystack: Seq<char>) -> Option<u32> {
    if haystack.len() <= MAX_HAYSTACK {
        fuzzy_score(pattern, haystack)
    } else {
        None
    }
}

/// The score of `haystack` for the search `pattern`, a text too long for
/// the matcher counting as no match.
pub fn match_score_of(pattern: &str, haystack: &str) -> (res: Option<u32>)
    ensures
        res == match_score(pattern@, haystack@),
{
    if haystack.unicode_len() <= MAX_HAYSTACK {
        fuzzy_score_of(pattern, haystack)
    } else {
        None
    }
}

/// The score of an application's description, 0 where it has none or it
/// does not match.
pub open spec fn description_score(a: AppView, pattern: Seq<char>) -> u32 {
    match a.description {
        Some(d) => match match_score(pattern, d) {
            Some(s) => s,
            None => 0,
        },
        None => 0,
    }
}

/// The applications whose name matches the search, in order, each with its
/// position and score: the better of the name's and the description's.
pub open spec fn app_matches(apps: Seq<AppView>, pattern: Seq<char>) -> Seq<(usize, u32)>
    decreases apps.len(),
{
    if apps.len() == 0 {
        Seq::empty()
    } else {
        let rest = app_matches(apps.drop_last(), pattern);
        let a = apps.last();
        match match_score(pattern, a.name) {
            Some(s) => {
                let d = description_score(a, pattern);
                rest.push(((apps.len() - 1) as usize, if s >= d { s } else { d }))
            },
            None => rest,
        }
    }
}

/// The list shown for a search: every application for an empty search;
/// else the matching ones, best score first, equal scores in their order.
pub open spec fn shown_for(apps: Seq<AppView>, pattern: Seq<char>, shown: Seq<usize>) -> bool {
    if pattern.len() == 0 {
        shown.len() == apps.len() && forall|k: int| 0 <= k < shown.len() ==> #[trigger] shown[k] == k
    } else {
        let ms = app_matches(apps, pattern);
        exists|p: Seq<usize>|
            {
                &&& arrangement(p, ms.len() as int)
                &&& shown.len() == ms.len()
                &&& forall|k: int| 0 <= k < shown.len() ==> #[trigger] shown[k] == ms[p[k] as int].0
                &&& forall|k: int, l: int|
                    0 <= k < l < p.len() ==> score_before(
                        ms.map_values(|m: (usize, u32)| m.1),
                        #[trigger] p[k] as int,
                        #[trigger] p[l] as int,
                    )
            }
    }
}

/// The scroll offset that keeps the selected row in view, moving as little
/// as needed.
pub open spec fn scroll_for(selected: int, scroll: int) -> int {
    if selected < scroll {
        selected
    } else if selected >= scroll + MAX_VISIBLE_ITEMS {
        selected - MAX_VISIBLE_ITEMS + 1
    } else {
        scroll
    }
}

/// Rectangle sizes and positions small enough for the dialog's arithmetic.
pub open spec fn bounds_ok(b: Rect) -> bool {
    &&& b.width < 0x4000_0000
    &&& b.height < 0x4000_0000
    &&& -0x4000_0000 < b.x < 0x4000_0000
    &&& -0x4000_0000 < b.y < 0x4000_0000
}

/// The dialog's rectangle: at most 500 wide and tall enough for the input
/// and ten rows, 40 pixels smaller than the window where that is less,
/// centred across and in the upper third.
pub open spec fn dialog_rect_spec(b: Rect) -> Rect {
    let w: int = if b.width >= 40 { b.width - 40 } else { 0 };
    let h: int = if b.height >= 40 { b.height - 40 } else { 0 };
    let full: int = DIALOG_PADDING * 2 + INPUT_HEIGHT + 8 + MAX_VISIBLE_ITEMS * ITEM_HEIGHT + 24;
    let dw: int = if 500 <= w { 500 } else { w };
    let dh: int = if full <= h { full } else { h };
    Rect { x: (b.x + (b.width - dw) / 2) as i32, y: (b.y + (b.height - dh) / 3) as i32, width: dw as u32, height: dh as u32 }
}

/// The first y of the list of rows.
pub open spec fn list_top(d: Rect) -> int {
    d.y + DIALOG_PADDING + INPUT_HEIGHT + 8
}

/// A modal dialog for picking an application.
pub struct AppPickerDialog {
    /// Window bounds (for centering).
    bounds: Rect,
    /// All discovered applications.
    all_apps: Vec<AppEntry>,
    /// Filtered applications (matching search).
    filtered_apps: Vec<usize>,
    /// Search input text.
    input: String,
    /// Cursor position in input.
    cursor: usize,
    /// Selected item index in filtered list.
    selected: usize,
    /// Scroll offset for list.
    scroll_offset: usize,
    /// Whether the dialog is visible.
    visible: bool,
    /// Hovered item index.
    hovered_index: Option<usize>,
}

impl AppPickerDialog {
    /// The applications known.
    pub closed spec fn apps(&self) -> Seq<AppView> {
        self.all_apps@.map_values(|a: AppEntry| a@)
    }

    /// The positions of the applications shown, in the order shown.
    pub closed spec fn shown(&self) -> Seq<usize> {
        self.filtered_apps@
    }

    /// The search text.
    pub closed spec fn search(&self) -> Seq<char> {
        self.input@
    }

    /// The cursor's position in the search text.
    pub closed spec fn cursor_at(&self) -> int {
        self.cursor as int
    }

    /// The selected row of the list shown.
    pub closed spec fn selection(&self) -> int {
        self.selected as int
    }

    /// The first row in view.
    pub closed spec fn scroll(&self) -> int {
        self.scroll_offset as int
    }

    /// Whether the dialog is shown.
    pub closed spec fn shown_now(&self) -> bool {
        self.visible
    }

    /// The row under the pointer.
    pub closed spec fn hovered(&self) -> Option<usize> {
        self.hovered_index
    }

    /// The window's rectangle.
    pub closed spec fn window(&self) -> Rect {
        self.bounds
    }

    /// The state is consistent: the search text is ASCII (the cursor counts
    /// bytes, which are characters only for ASCII text), the cursor lies in
    /// it, the list shown is the one for the search, and the selection is a
    /// row of it (or 0 for an empty list).
    pub closed spec fn wf(&self) -> bool {
        &&& all_ascii(self.input@)
        &&& self.cursor <= self.input@.len()
        &&& shown_for(self.apps(), self.input@, self.filtered_apps@)
        &&& forall|k: int| 0 <= k < self.filtered_apps@.len() ==> #[trigger] self.filtered_apps@[k] < self.all_apps@.len()
        &&& (self.filtered_apps@.len() == 0 ==> self.selected == 0)
        &&& (self.filtered_apps@.len() > 0 ==> self.selected < self.filtered_apps@.len())
        &&& self.scroll_offset <= self.selected < self.scroll_offset + MAX_VISIBLE_ITEMS
        &&& bounds_ok(self.bounds)
    }

    /// The list for the current search, the selection and scrolling reset.
    fn filter_apps(&mut self)
        requires
            all_ascii(old(self).input@),
            old(self).cursor <= old(self).input@.len(),
            bounds_ok(old(self).bounds),
        ensures
            final(self).wf(),
            final(self).selected == 0,
            final(self).scroll_offset == 0,
            final(self).all_apps == old(self).all_apps,
            final(self).input == old(self).input,
            final(self).cursor == old(self).cursor,
            final(self).visible == old(self).visible,
            final(self).hovered_index == old(self).hovered_index,
            final(self).bounds == old(self).bounds,
    {
        let ghost apps = self.all_apps@.map_values(|a: AppEntry| a@);
        let n = self.all_apps.len();
        if self.input.as_str().unicode_len() == 0 {
            let mut all: Vec<usize> = Vec::new();
            let mut i: usize = 0;
            while i < n
                invariant
                    i <= n,
                    all.len() == i,
                    forall|k: int| 0 <= k < i ==> #[trigger] all@[k] == k,
                decreases n - i,
            {
                all.push(i);
                i = i + 1;
            }
            self.filtered_apps = all;
        } else {
            let mut positions: Vec<usize> = Vec::new();
            let mut scores: Vec<u32> = Vec::new();
            let mut i: usize = 0;
            assert(apps.take(0) =~= Seq::<AppView>::empty());
            while i < n
                invariant
                    i <= n,
                    n == self.all_apps.len(),
                    apps == self.all_apps@.map_values(|a: AppEntry| a@),
                    positions.len() == scores.len(),
                    forall|k: int| 0 <= k < positions.len() ==> #[trigger] positions@[k] < i,
                    app_matches(apps.take(i as int), self.input@) == positions@.zip_with(scores@),
                decreases n - i,
            {
                let app = &self.all_apps[i];
                assert(apps.take(i + 1).drop_last() =~= apps.take(i as int));
                assert(apps.take(i + 1).last() == app@);
                match match_score_of(self.input.as_str(), app.name.as_str()) {
                    Some(score) => {
                        let desc = match &app.description {
                            Some(d) => match match_score_of(self.input.as_str(), d.as_str()) {
                                Some(x) => x,
                                None => 0,
                            },
                            None => 0,
                        };
                        let best = if score >= desc {
                            score
                        } else {
                            desc
                        };
                        let ghost before = positions@.zip_with(scores@);
                        positions.push(i);
                        scores.push(best);
                        assert(positions@.zip_with(scores@) =~= before.push((i, best)));
                    },
                    None => {},
                }
                i = i + 1;
            }
            assert(apps.take(n as int) =~= apps);
            let ghost ms = positions@.zip_with(scores@);
            assert(ms.map_values(|m: (usize, u32)| m.1) =~= scores@);
            let order = stable_score_order(&scores);
            let mut shown: Vec<usize> = Vec::new();
            let mut k: usize = 0;
            while k < order.len()
                invariant
                    k <= order.len(),
                    order.len() == positions.len(),
                    positions.len() == scores.len(),
                    ms == positions@.zip_with(scores@),
                    forall|j: int| 0 <= j < order.len() ==> #[trigger] order@[j] < positions.len(),
                    forall|j: int| 0 <= j < positions.len() ==> #[trigger] positions@[j] < n,
                    shown.len() == k,
                    forall|j: int| 0 <= j < k ==> #[trigger] shown@[j] == ms[order@[j] as int].0,
                    forall|j: int| 0 <= j < k ==> #[trigger] shown@[j] < n,
                decreases order.len() - k,
            {
                shown.push(positions[order[k]]);
                k = k + 1;
            }
            assert(shown_for(apps, self.input@, shown@));
            self.filtered_apps = shown;
        }
        self.selected = 0;
        self.scroll_offset = 0;
    }
}

/// The search text and cursor after an editing key; `None` for keys that
/// do not edit.
pub open spec fn search_edit(text: Seq<char>, cursor: int, key: Key) -> Option<(Seq<char>, int)> {
    match key {
        Key::Char(c) => Some((text.insert(cursor, c), cursor + 1)),
        Key::Backspace => if cursor > 0 {
            Some((text.remove(cursor - 1), cursor - 1))
        } else {
            Some((text, cursor))
        },
        Key::Delete => if cursor < text.len() {
            Some((text.remove(cursor), cursor))
        } else {
            Some((text, cursor))
        },
        Key::Left => Some((text, if cursor > 0 { cursor - 1 } else { cursor })),
        Key::Right => Some((text, if cursor < text.len() { cursor + 1 } else { cursor })),
        Key::Home => Some((text, 0)),
        Key::End => Some((text, text.len() as int)),
        _ => None,
    }
}

/// The key changes the search text, so the list is searched again.
pub open spec fn changes_search(text: Seq<char>, cursor: int, key: Key) -> bool {
    ||| key is Char
    ||| (key == Key::Backspace && cursor > 0)
    ||| (key == Key::Delete && cursor < text.len())
}

/// The selection and scroll offset after a key that moves the selection in
/// a list of `len` rows; `None` for other keys. A page is ten rows.
pub open spec fn selection_move(sel: int, scroll: int, len: int, key: Key) -> Option<(int, int)> {
    match key {
        Key::Up => Some(
            if sel > 0 {
                (sel - 1, scroll_for(sel - 1, scroll))
            } else {
                (sel, scroll)
            },
        ),
        Key::Down => Some(
            if sel + 1 < len {
                (sel + 1, scroll_for(sel + 1, scroll))
            } else {
                (sel, scroll)
            },
        ),
        Key::PageUp => {
            let s = if sel >= MAX_VISIBLE_ITEMS { sel - MAX_VISIBLE_ITEMS } else { 0 };
            Some((s, scroll_for(s, scroll)))
        },
        Key::PageDown => {
            let last = if len >= 1 { len - 1 } else { 0 };
            let s = if sel + MAX_VISIBLE_ITEMS <= last { sel + MAX_VISIBLE_ITEMS } else { last };
            Some((s, scroll_for(s, scroll)))
        },
        _ => None,
    }
}

impl AppPickerDialog {
    /// The list, search, cursor, selection and scrolling are unchanged.
    pub open spec fn same_list(&self, other: &Self) -> bool {
        &&& self.search() == other.search()
        &&& self.cursor_at() == other.cursor_at()
        &&& self.shown() == other.shown()
        &&& self.selection() == other.selection()
        &&& self.scroll() == other.scroll()
    }

    /// Create a new app picker dialog, hidden and without applications.
    pub fn new(bounds: Rect) -> (res: Self)
        requires
            bounds_ok(bounds),
        ensures
            res.wf(),
            res.apps().len() == 0,
            res.search().len() == 0,
            !res.shown_now(),
            res.window() == bounds,
            res.hovered() is None,
    {
        let res = AppPickerDialog {
            bounds,
            all_apps: Vec::new(),
            filtered_apps: Vec::new(),
            input: String::new(),
            cursor: 0,
            selected: 0,
            scroll_offset: 0,
            visible: false,
            hovered_index: None,
        };
        assert(res.apps() =~= Seq::empty());
        res
    }

    /// Set bounds.
    pub fn set_bounds(&mut self, bounds: Rect)
        requires
            old(self).wf(),
            bounds_ok(bounds),
        ensures
            final(self).wf(),
            final(self).window() == bounds,
            final(self).apps() == old(self).apps(),
            final(self).same_list(&*old(self)),
            final(self).shown_now() == old(self).shown_now(),
            final(self).hovered() == old(self).hovered(),
    {
        self.bounds = bounds;
    }

    /// Check if visible.
    pub fn is_visible(&self) -> (res: bool)
        ensures
            res == self.shown_now(),
    {
        self.visible
    }

    /// Whether applications have been supplied.
    pub fn has_apps(&self) -> (res: bool)
        ensures
            res == (self.apps().len() > 0),
    {
        self.all_apps.len() > 0
    }

    /// Replace the applications (after scanning them again) and search them.
    pub fn reload(&mut self, apps: Vec<AppEntry>)
        requires
            old(self).wf(),
        ensures
            final(self).wf(),
            final(self).apps() == apps@.map_values(|a: AppEntry| a@),
            final(self).search() == old(self).search(),
            final(self).cursor_at() == old(self).cursor_at(),
            final(self).selection() == 0,
            final(self).scroll() == 0,
            final(self).shown_now() == old(self).shown_now(),
            final(self).window() == old(self).window(),
    {
        self.all_apps = apps;
        self.filter_apps();
    }

    /// Show the dialog with an empty search: every application listed, the
    /// first selected.
    pub fn show(&mut self)
        requires
            old(self).wf(),
        ensures
            final(self).wf(),
            final(self).shown_now(),
            final(self).apps() == old(self).apps(),
            final(self).search().len() == 0,
            final(self).cursor_at() == 0,
            final(self).selection() == 0,
            final(self).scroll() == 0,
            final(self).hovered() is None,
            final(self).window() == old(self).window(),
    {
        self.input = String::new();
        self.cursor = 0;
        self.hovered_index = None;
        proof {
            assert(self.input@ =~= Seq::<char>::empty());
        }
        self.filter_apps();
        self.visible = true;
    }

    /// Close the dialog.
    pub fn close(&mut self)
        requires
            old(self).wf(),
        ensures
            final(self).wf(),
            !final(self).shown_now(),
            final(self).apps() == old(self).apps(),
            final(self).same_list(&*old(self)),
            final(self).hovered() == old(self).hovered(),
            final(self).window() == old(self).window(),
    {
        self.visible = false;
    }

    fn ensure_visible(&mut self)
        requires
            old(self).scroll_offset <= old(self).selected + MAX_VISIBLE_ITEMS,
        ensures
            final(self).scroll_offset == scroll_for(old(self).selected as int, old(self).scroll_offset as int),
            final(self).selected == old(self).selected,
            final(self).all_apps == old(self).all_apps,
            final(self).filtered_apps == old(self).filtered_apps,
            final(self).input == old(self).input,
            final(self).cursor == old(self).cursor,
            final(self).visible == old(self).visible,
            final(self).hovered_index == old(self).hovered_index,
            final(self).bounds == old(self).bounds,
    {
        if self.selected < self.scroll_offset {
            self.scroll_offset = self.selected;
        } else if self.selected - self.scroll_offset >= MAX_VISIBLE_ITEMS {
            self.scroll_offset = self.selected - MAX_VISIBLE_ITEMS + 1;
        }
    }

    fn edit_input(&mut self, key: Key)
        requires
            old(self).wf(),
            key matches Key::Char(c) ==> is_ascii_char(c),
        ensures
            final(self).wf(),
            match search_edit(old(self).input@, old(self).cursor as int, key) {
                Some((t, c)) => final(self).input@ == t && final(self).cursor == c,
                None => final(self).input == old(self).input && final(self).cursor == old(self).cursor,
            },
            changes_search(old(self).input@, old(self).cursor as int, key) ==> final(self).selected == 0 && final(self).scroll_offset == 0,
            !changes_search(old(self).input@, old(self).cursor as int, key) ==> final(self).filtered_apps == old(self).filtered_apps && final(self).selected == old(self).selected && final(self).scroll_offset == old(self).scroll_offset,
            final(self).all_apps == old(self).all_apps,
            final(self).visible == old(self).visible,
            final(self).hovered_index == old(self).hovered_index,
            final(self).bounds == old(self).bounds,
    {
        let len = self.input.as_str().unicode_len();
        match key {
            Key::Char(c) => {
                let mut v = chars_of(self.input.as_str());
                v.insert(self.cursor, c);
                let n = v.len();
                assert(self.cursor < n);
                self.input = string_of(&v);
                self.cursor = self.cursor + 1;
                proof {
                    assert forall|k: int| 0 <= k < v@.len() implies is_ascii_char(#[trigger] v@[k]) by {
                        if k < old(self).cursor {
                            assert(v@[k] == old(self).input@[k]);
                        } else if k > old(self).cursor {
                            assert(v@[k] == old(self).input@[k - 1]);
                        }
                    }
                }
                self.filter_apps();
            },
            Key::Backspace => {
                if self.cursor > 0 {
                    self.cursor = self.cursor - 1;
                    let mut v = chars_of(self.input.as_str());
                    v.remove(self.cursor);
                    self.input = string_of(&v);
                    proof {
                        assert forall|k: int| 0 <= k < v@.len() implies is_ascii_char(#[trigger] v@[k]) by {
                            if k < self.cursor {
                                assert(v@[k] == old(self).input@[k]);
                            } else {
                                assert(v@[k] == old(self).input@[k + 1]);
                            }
                        }
                    }
                    self.filter_apps();
                }
            },
            Key::Delete => {
                if self.cursor < len {
                    let mut v = chars_of(self.input.as_str());
                    v.remove(self.cursor);
                    self.input = string_of(&v);
                    proof {
                        assert forall|k: int| 0 <= k < v@.len() implies is_ascii_char(#[trigger] v@[k]) by {
                            if k < self.cursor {
                                assert(v@[k] == old(self).input@[k]);
                            } else {
                                assert(v@[k] == old(self).input@[k + 1]);
                            }
                        }
                    }
                    self.filter_apps();
                }
            },
            Key::Left => {
                if self.cursor > 0 {
                    self.cursor = self.cursor - 1;
                }
            },
            Key::Right => {
                if self.cursor < len {
                    self.cursor = self.cursor + 1;
                }
            },
            Key::Home => {
                self.cursor = 0;
            },
            Key::End => {
                self.cursor = len;
            },
            _ => {},
        }
    }

    /// Handle key press. Returns Some(result) if dialog should close:
    /// Escape cancels, Return picks the selected application's command; the
    /// arrows and page keys move the selection; the other keys edit the
    /// search, which searches the applications again.
    pub fn handle_key(&mut self, key: Key) -> (res: Option<AppPickerResult>)
        requires
            old(self).wf(),
            key matches Key::Char(c) ==> is_ascii_char(c),
        ensures
            final(self).wf(),
            shown_for(final(self).apps(), final(self).search(), final(self).shown()),
            final(self).apps() == old(self).apps(),
            final(self).window() == old(self).window(),
            final(self).hovered() == old(self).hovered(),
            !old(self).shown_now() ==> res is None && !final(self).shown_now() && final(self).same_list(&*old(self)),
            old(self).shown_now() ==> (match key {
                Key::Escape => res == Some(AppPickerResult::Cancelled) && !final(self).shown_now()
                    && final(self).same_list(&*old(self)),
                Key::Return => if old(self).selection() < old(self).shown().len() {
                    (res matches Some(AppPickerResult::Selected(c)) && c@ == old(self).apps()[old(self).shown()[old(self).selection()] as int].command)
                        && !final(self).shown_now() && final(self).same_list(&*old(self))
                } else {
                    res is None && final(self).shown_now() && final(self).same_list(&*old(self))
                },
                _ => res is None && final(self).shown_now() && match selection_move(
                    old(self).selection(),
                    old(self).scroll(),
                    old(self).shown().len() as int,
                    key,
                ) {
                    Some((s, sc)) => final(self).selection() == s && final(self).scroll() == sc
                        && final(self).search() == old(self).search() && final(self).cursor_at() == old(self).cursor_at()
                        && final(self).shown() == old(self).shown(),
                    None => match search_edit(old(self).search(), old(self).cursor_at(), key) {
                        Some((t, c)) => final(self).search() == t && final(self).cursor_at() == c
                            && (changes_search(old(self).search(), old(self).cursor_at(), key) ==> final(self).selection() == 0 && final(self).scroll() == 0)
                            && (!changes_search(old(self).search(), old(self).cursor_at(), key) ==> final(self).shown() == old(self).shown()
                                && final(self).selection() == old(self).selection() && final(self).scroll() == old(self).scroll()),
                        None => final(self).same_list(&*old(self)),
                    },
                },
            }),
    {
        if !self.visible {
            return None;
        }
        match key {
            Key::Escape => {
                self.visible = false;
                Some(AppPickerResult::Cancelled)
            },
            Key::Return => {
                if self.selected < self.filtered_apps.len() {
                    let idx = self.filtered_apps[self.selected];
                    let command = self.all_apps[idx].command.clone();
                    self.visible = false;
                    Some(AppPickerResult::Selected(command))
                } else {
                    None
                }
            },
            Key::Up => {
                if self.selected > 0 {
                    self.selected = self.selected - 1;
                    self.ensure_visible();
                }
                None
            },
            Key::Down => {
                assert(self.selected < self.filtered_apps.len() || self.selected == 0);
                if self.selected + 1 < self.filtered_apps.len() {
                    self.selected = self.selected + 1;
                    self.ensure_visible();
                }
                None
            },
            Key::PageUp => {
                self.selected = if self.selected >= MAX_VISIBLE_ITEMS {
                    self.selected - MAX_VISIBLE_ITEMS
                } else {
                    0
                };
                self.ensure_visible();
                None
            },
            Key::PageDown => {
                let len = self.filtered_apps.len();
                let last = if len >= 1 {
                    len - 1
                } else {
                    0
                };
                assert(self.selected <= last);
                self.selected = if last - self.selected >= MAX_VISIBLE_ITEMS {
                    self.selected + MAX_VISIBLE_ITEMS
                } else {
                    last
                };
                self.ensure_visible();
                None
            },
            _ => {
                self.edit_input(key);
                None
            },
        }
    }
}

/// The row of the list under a point of the dialog `d`, counting the rows
/// scrolled away; `None` where the point is not over the rows in view.
pub open spec fn row_at(d: Rect, pos: Point, scroll: int) -> Option<int> {
    let top = list_top(d);
    if top <= pos.y < top + MAX_VISIBLE_ITEMS * ITEM_HEIGHT {
        Some((pos.y - top) / (ITEM_HEIGHT as int) + scroll)
    } else {
        None
    }
}

impl AppPickerDialog {
    /// Get the dialog rectangle (centered across, in the upper third).
    pub fn dialog_rect(&self) -> (res: Rect)
        requires
            bounds_ok(self.window()),
        ensures
            res == dialog_rect_spec(self.window()),
    {
        let b = self.bounds;
        let w: u32 = if b.width >= 40 {
            b.width - 40
        } else {
            0
        };
        let h: u32 = if b.height >= 40 {
            b.height - 40
        } else {
            0
        };
        let full: u32 = DIALOG_PADDING * 2 + INPUT_HEIGHT + 8 + 10 * ITEM_HEIGHT + 24;
        let dw: u32 = if 500 <= w {
            500
        } else {
            w
        };
        let dh: u32 = if full <= h {
            full
        } else {
            h
        };
        let x: i32 = b.x + (b.width as i32 - dw as i32) / 2;
        let y: i32 = b.y + (b.height as i32 - dh as i32) / 3;
        Rect { x, y, width: dw, height: dh }
    }

    /// Get the input field rectangle.
    pub fn input_rect(&self) -> (res: Rect)
        requires
            bounds_ok(self.window()),
            dialog_rect_spec(self.window()).width >= DIALOG_PADDING * 2,
        ensures
            ({
                let d = dialog_rect_spec(self.window());
                res == (Rect { x: (d.x + DIALOG_PADDING) as i32, y: (d.y + DIALOG_PADDING) as i32, width: (d.width - DIALOG_PADDING * 2) as u32, height: INPUT_HEIGHT })
            }),
    {
        let d = self.dialog_rect();
        Rect { x: d.x + 16, y: d.y + 16, width: d.width - 32, height: INPUT_HEIGHT }
    }

    /// The row in view under the point, counted from the first row in view.
    fn row_under(&self, pos: Point) -> (res: Option<usize>)
        requires
            self.wf(),
        ensures
            match row_at(dialog_rect_spec(self.window()), pos, self.scroll()) {
                Some(r) => res matches Some(k) && r == k + self.scroll() && k < MAX_VISIBLE_ITEMS,
                None => res is None,
            },
    {
        let d = self.dialog_rect();
        let top: i64 = d.y as i64 + 16 + 40 + 8;
        let end: i64 = top + 10 * 36;
        let y = pos.y as i64;
        if y >= top && y < end {
            let q: i64 = (y - top) / 36;
            assert(0 <= q < 10);
            Some(q as usize)
        } else {
            None
        }
    }

    /// The listed row under the point, if any.
    fn listed_row(&self, pos: Point) -> (res: Option<usize>)
        requires
            self.wf(),
        ensures
            res matches Some(k) ==> row_at(dialog_rect_spec(self.window()), pos, self.scroll()) == Some(k as int) && k < self.shown().len(),
            res is None ==> match row_at(dialog_rect_spec(self.window()), pos, self.scroll()) {
                Some(r) => r >= self.shown().len(),
                None => true,
            },
    {
        match self.row_under(pos) {
            Some(k) => {
                let len = self.filtered_apps.len();
                if self.scroll_offset < len && k < len - self.scroll_offset {
                    Some(k + self.scroll_offset)
                } else {
                    None
                }
            },
            None => None,
        }
    }

    /// Handle mouse click. Returns Some(result) if dialog should close: a
    /// click outside the dialog cancels, a click on a listed application picks
    /// its command.
    pub fn on_click(&mut self, pos: Point) -> (res: Option<AppPickerResult>)
        requires
            old(self).wf(),
        ensures
            final(self).wf(),
            final(self).apps() == old(self).apps(),
            final(self).window() == old(self).window(),
            final(self).hovered() == old(self).hovered(),
            final(self).same_list(&*old(self)),
            !old(self).shown_now() ==> res is None && !final(self).shown_now(),
            old(self).shown_now() ==> ({
                let d = dialog_rect_spec(old(self).window());
                if !inside(d, pos) {
                    res == Some(AppPickerResult::Cancelled) && !final(self).shown_now()
                } else {
                    match row_at(d, pos, old(self).scroll()) {
                        Some(r) => if r < old(self).shown().len() {
                            (res matches Some(AppPickerResult::Selected(c)) && c@ == old(self).apps()[old(self).shown()[r] as int].command)
                                && !final(self).shown_now()
                        } else {
                            res is None && final(self).shown_now()
                        },
                        None => res is None && final(self).shown_now(),
                    }
                }
            }),
    {
        if !self.visible {
            return None;
        }
        let d = self.dialog_rect();
        if !d.contains_point(pos) {
            self.visible = false;
            return Some(AppPickerResult::Cancelled);
        }
        match self.listed_row(pos) {
            Some(r) => {
                {
                    let idx = self.filtered_apps[r];
                    assert(idx < self.all_apps.len());
                    assert(self.apps()[idx as int] == self.all_apps@[idx as int]@);
                    let command = self.all_apps[idx].command.clone();
                    self.visible = false;
                    return Some(AppPickerResult::Selected(command));
                }
            },
            None => {},
        }
        None
    }

    /// Handle mouse move: the listed row under the pointer is hovered.
    pub fn on_mouse_move(&mut self, pos: Point)
        requires
            old(self).wf(),
        ensures
            final(self).wf(),
            final(self).apps() == old(self).apps(),
            final(self).window() == old(self).window(),
            final(self).same_list(&*old(self)),
            final(self).shown_now() == old(self).shown_now(),
            !old(self).shown_now() ==> final(self).hovered() == old(self).hovered(),
            old(self).shown_now() ==> ({
                let d = dialog_rect_spec(old(self).window());
                let across = d.x + DIALOG_PADDING <= pos.x < d.x + d.width - DIALOG_PADDING;
                final(self).hovered() == match row_at(d, pos, old(self).scroll()) {
                    Some(r) => if across && r < old(self).shown().len() {
                        Some(r as usize)
                    } else {
                        None
                    },
                    None => None,
                }
            }),
    {
        if !self.visible {
            return;
        }
        let d = self.dialog_rect();
        let x = pos.x as i64;
        let left: i64 = d.x as i64 + 16;
        let right: i64 = d.x as i64 + d.width as i64 - 16;
        let across = x >= left && x < right;
        match self.listed_row(pos) {
            Some(r) => {
                if across {
                    self.hovered_index = Some(r);
                } else {
                    self.hovered_index = None;
                }
            },
            None => {
                self.hovered_index = None;
            },
        }
    }
}

/// Typing a character into the search and then pressing Backspace gives
/// back the search text and cursor as they were.
pub proof fn law_type_then_backspace(text: Seq<char>, cursor: int, c: char)
    requires
        0 <= cursor <= text.len(),
    ensures
        ({
            let (t1, c1) = search_edit(text, cursor, Key::Char(c))->0;
            search_edit(t1, c1, Key::Backspace) == Some((text, cursor))
        }),
{
    let t1 = text.insert(cursor, c);
    assert(t1.remove(cursor) =~= text);
}

/// Moving the selection keeps it a row of the list (or 0 for an empty list)
/// and keeps it in view: at most ten rows below the first row in view.
pub proof fn law_selection_stays_in_view(sel: int, scroll: int, len: int, key: Key)
    requires
        0 <= scroll <= sel < scroll + MAX_VISIBLE_ITEMS,
        len == 0 ==> sel == 0,
        len > 0 ==> sel < len,
        selection_move(sel, scroll, len, key) is Some,
    ensures
        ({
            let (s, sc) = selection_move(sel, scroll, len, key)->0;
            &&& 0 <= sc <= s < sc + MAX_VISIBLE_ITEMS
            &&& len == 0 ==> s == 0
            &&& len > 0 ==> s < len
        }),
{
}

proof fn lemma_matches_match(apps: Seq<AppView>, pattern: Seq<char>, k: int)
    requires
        apps.len() <= usize::MAX,
        0 <= k < app_matches(apps, pattern).len(),
    ensures
        ({
            let m = app_matches(apps, pattern)[k];
            &&& m.0 < apps.len()
            &&& match_score(pattern, apps[m.0 as int].name) is Some
        }),
    decreases apps.len(),
{
    let rest = app_matches(apps.drop_last(), pattern);
    let ms = app_matches(apps, pattern);
    if k < rest.len() {
        lemma_matches_match(apps.drop_last(), pattern, k);
        assert(ms[k] == rest[k]);
        assert(apps.drop_last()[rest[k].0 as int] == apps[rest[k].0 as int]);
    } else {
        match match_score(pattern, apps.last().name) {
            Some(sc) => {
                let d = description_score(apps.last(), pattern);
                assert(ms == rest.push(((apps.len() - 1) as usize, if sc >= d { sc } else { d })));
                assert(ms[k].0 == apps.len() - 1);
            },
            None => {
                assert(ms == rest);
            },
        }
    }
}

/// Every application shown for a non-empty search matches it by name.
pub proof fn law_shown_apps_match(apps: Seq<AppView>, pattern: Seq<char>, shown: Seq<usize>, k: int)
    requires
        apps.len() <= usize::MAX,
        pattern.len() > 0,
        shown_for(apps, pattern, shown),
        0 <= k < shown.len(),
    ensures
        shown[k] < apps.len(),
        match_score(pattern, apps[shown[k] as int].name) is Some,
{
    let ms = app_matches(apps, pattern);
    let p = choose|p: Seq<usize>|
        {
            &&& arrangement(p, ms.len() as int)
            &&& shown.len() == ms.len()
            &&& forall|k: int| 0 <= k < shown.len() ==> #[trigger] shown[k] == ms[p[k] as int].0
            &&& forall|k: int, l: int|
                0 <= k < l < p.len() ==> score_before(
                    ms.map_values(|m: (usize, u32)| m.1),
                    #[trigger] p[k] as int,
                    #[trigger] p[l] as int,
                )
        };
    assert(p[k] < ms.len());
    lemma_matches_match(apps, pattern, p[k] as int);
}

} // verus!
