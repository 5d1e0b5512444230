//! The address bar: a line of text to type a path into, with tab
//! completion from the directory being typed.
use vstd::prelude::*;
use crate::entry::path_is_dir;
use crate::geometry::Rect;
use crate::keys::Key;
use crate::order::{arrangement, stable_text_order, text_before};
use crate::path::{file_name, file_name_of, join, join_path, parent_of, std_parent, std_strip_prefix, strip_prefix_of};
use crate::places::home_dir;
use crate::text::{all_ascii, chars_of, copy_string, is_ascii_char, push_char, push_chars, string_of, text_views};

verus! {

/// What a key did to the address bar.
#[derive(Debug, Clone, Copy, PartialEq, Eq, Structural)]
pub enum BarKey {
    /// The bar is not active; the key is left to others.
    Ignored,
    /// The bar took the key.
    Handled,
    /// Tab: the bar took the key, and the caller completes the text (see
    /// `cycle_completion`, `completion_candidates` and `apply_completions`).
    Complete,
}

/// What the address bar holds.
pub struct BarState {
    /// The text being edited.
    pub text: Seq<char>,
    /// The cursor, between characters.
    pub cursor: int,
    /// Where the bar is drawn.
    pub bounds: Rect,
    /// The bar is shown and takes keys.
    pub active: bool,
    /// Counter of the cursor's blinking.
    pub blink: u32,
    /// The completions offered for the last Tab.
    pub completions: Seq<Seq<char>>,
    /// The completion shown.
    pub completion_index: int,
    /// The text as the last completion left it.
    pub completion_base: Seq<char>,
}

/// The cursor is in the text, and the completion shown is one of those
/// offered.
pub open spec fn bar_ok(s: BarState) -> bool {
    &&& 0 <= s.cursor <= s.text.len()
    &&& s.completions.len() > 0 ==> 0 <= s.completion_index < s.completions.len()
}

/// The bar closed without navigating: empty and inactive.
pub open spec fn cancelled(s: BarState) -> BarState {
    BarState { active: false, text: Seq::empty(), cursor: 0, ..s }
}

/// A key on the bar. While it is active every key restarts the cursor's
/// blinking; Escape closes it; Return is left to `confirm`; Backspace and
/// Delete remove the character before or after the cursor; the arrows, Home
/// and End move the cursor; a character is typed at the cursor; an edit of
/// the text drops the completions.
pub open spec fn bar_key(s: BarState, key: Key) -> (BarState, BarKey) {
    if !s.active {
        (s, BarKey::Ignored)
    } else {
        let b = BarState { blink: 0, ..s };
        match key {
            Key::Escape => (cancelled(b), BarKey::Handled),
            Key::Return => (b, BarKey::Handled),
            Key::Backspace => (if b.cursor > 0 {
                BarState { text: b.text.remove(b.cursor - 1), cursor: b.cursor - 1, completions: Seq::empty(), ..b }
            } else {
                b
            }, BarKey::Handled),
            Key::Delete => (if b.cursor < b.text.len() {
                BarState { text: b.text.remove(b.cursor), completions: Seq::empty(), ..b }
            } else {
                b
            }, BarKey::Handled),
            Key::Left => (BarState { cursor: if b.cursor > 0 { b.cursor - 1 } else { b.cursor }, ..b }, BarKey::Handled),
            Key::Right => (BarState {
                cursor: if b.cursor < b.text.len() { b.cursor + 1 } else { b.cursor },
                ..b
            }, BarKey::Handled),
            Key::Home => (BarState { cursor: 0, ..b }, BarKey::Handled),
            Key::End => (BarState { cursor: b.text.len() as int, ..b }, BarKey::Handled),
            Key::Tab => (b, BarKey::Complete),
            Key::Char(c) => (BarState {
                text: b.text.insert(b.cursor, c),
                cursor: b.cursor + 1,
                completions: Seq::empty(),
                ..b
            }, BarKey::Handled),
            _ => (b, BarKey::Ignored),
        }
    }
}

/// The path typed, with a leading `~` component standing for the home
/// directory where that is known.
pub open spec fn expanded_target(text: Seq<char>, home: Option<Seq<char>>) -> Seq<char> {
    match (std_strip_prefix(text, seq!['~']), home) {
        (Some(rest), Some(h)) => if rest.len() == 0 {
            h
        } else {
            join(h, rest)
        },
        _ => text,
    }
}

/// The text typed with a leading `~` character replaced by the home
/// directory where that is known (as completion reads it).
pub open spec fn expanded_for_completion(text: Seq<char>, home: Option<Seq<char>>) -> Seq<char> {
    match home {
        Some(h) => if text.len() > 0 && text[0] == '~' {
            h + text.skip(1)
        } else {
            text
        },
        None => text,
    }
}

/// Where completion looks and the start of the name it completes: in a
/// directory typed with a trailing `/`, all of its entries; else the
/// entries of the parent that start with the last component. `None` where
/// the path has no parent.
pub open spec fn completion_search(expanded: Seq<char>, is_dir: bool) -> Option<(Seq<char>, Seq<char>)> {
    if is_dir && expanded.len() > 0 && expanded.last() == '/' {
        Some((expanded, Seq::empty()))
    } else {
        match std_parent(expanded) {
            Some(p) => Some(
                (
                    p,
                    match file_name(expanded) {
                        Some(n) => n,
                        None => Seq::empty(),
                    },
                ),
            ),
            None => None,
        }
    }
}

/// How an entry is offered: its full path, with a trailing `/` for a
/// directory, and `~/` in place of the home directory where it lies there.
pub open spec fn completion_display(dir: Seq<char>, name: Seq<char>, is_dir: bool, home: Option<Seq<char>>) -> Seq<char> {
    let full = join(dir, name);
    let shown = if is_dir { full.push('/') } else { full };
    match home {
        Some(h) => match std_strip_prefix(shown, h) {
            Some(st) => seq!['~', '/'] + st,
            None => shown,
        },
        None => shown,
    }
}

/// The entry's name starts with the prefix.
pub open spec fn offered(name: Seq<char>, prefix: Seq<char>) -> bool {
    prefix.len() == 0 || prefix.is_prefix_of(name)
}

/// The completions for the entries (name, is a directory) of `dir`: those
/// whose name starts with `prefix`, as displayed, in their order.
pub open spec fn displays(
    dir: Seq<char>,
    prefix: Seq<char>,
    entries: Seq<(Seq<char>, bool)>,
    home: Option<Seq<char>>,
) -> Seq<Seq<char>>
    decreases entries.len(),
{
    if entries.len() == 0 {
        Seq::empty()
    } else {
        let rest = displays(dir, prefix, entries.drop_last(), home);
        let (name, is_dir) = entries.last();
        if offered(name, prefix) {
            rest.push(completion_display(dir, name, is_dir, home))
        } else {
            rest
        }
    }
}

/// `out` holds the texts of `src`, sorted by code points (a stable sort).
pub open spec fn sorted_from(out: Seq<Seq<char>>, src: Seq<Seq<char>>) -> bool {
    exists|p: Seq<usize>|
        #![trigger arrangement(p, src.len() as int)]
        {
            &&& arrangement(p, src.len() as int)
            &&& out.len() == src.len()
            &&& forall|k: int| 0 <= k < out.len() ==> out[k] == src[p[k] as int]
            &&& forall|k: int, l: int|
                #![trigger p[k], p[l]]
                0 <= k < l < out.len() ==> text_before(src, p[k] as int, p[l] as int)
        }
}

/// The views of the entries' names with their directory flags.
pub open spec fn entry_views(entries: Seq<(String, bool)>) -> Seq<(Seq<char>, bool)> {
    entries.map_values(|e: (String, bool)| (e.0@, e.1))
}

/// The text of an optional string.
pub open spec fn opt_text(o: Option<String>) -> Option<Seq<char>> {
    match o {
        Some(h) => Some(h@),
        None => None,
    }
}

/// Whether `p` is a prefix of `s`.
fn is_prefix(p: &Vec<char>, s: &Vec<char>) -> (res: bool)
    ensures
        res == p@.is_prefix_of(s@),
{
    if p.len() > s.len() {
        return false;
    }
    let mut i: usize = 0;
    while i < p.len()
        invariant
            i <= p.len() <= s.len(),
            forall|k: int| 0 <= k < i ==> p@[k] == s@[k],
        decreases p.len() - i,
    {
        if p[i] != s[i] {
            return false;
        }
        i = i + 1;
    }
    assert(p@ =~= s@.take(p@.len() as int));
    true
}

/// The path typed, with a leading `~` component standing for `home`.
pub fn expand_target(text: &str, home: Option<String>) -> (res: String)
    ensures
        res@ == expanded_target(
            text@,
            opt_text(home),
        ),
{
    proof {
        reveal_strlit("~");
        assert("~"@ =~= seq!['~']);
    }
    match (strip_prefix_of(text, "~"), home) {
        (Some(rest), Some(h)) => {
            if rest.as_str().unicode_len() == 0 {
                h
            } else {
                join_path(h.as_str(), rest.as_str())
            }
        },
        _ => copy_string(text),
    }
}

/// The text with a leading `~` character replaced by `home`.
pub fn expand_for_completion(text: &str, home: Option<String>) -> (res: String)
    ensures
        res@ == expanded_for_completion(
            text@,
            opt_text(home),
        ),
{
    let v = chars_of(text);
    match home {
        Some(h) => {
            if v.len() > 0 && v[0] == '~' {
                let mut s = h;
                let mut i: usize = 1;
                while i < v.len()
                    invariant
                        1 <= i <= v.len(),
                        v@ == text@,
                        s@ == h@ + v@.subrange(1, i as int),
                    decreases v.len() - i,
                {
                    push_char(&mut s, v[i]);
                    assert(v@.subrange(1, i + 1) == v@.subrange(1, i as int).push(v@[i as int]));
                    i = i + 1;
                }
                assert(v@.subrange(1, v@.len() as int) == text@.skip(1));
                s
            } else {
                string_of(&v)
            }
        },
        None => string_of(&v),
    }
}

/// Where completion looks and the start of the name it completes, given
/// whether the expanded path is a directory.
pub fn find_completion_search(expanded: &str, is_dir: bool) -> (res: Option<(String, String)>)
    ensures
        match (res, completion_search(expanded@, is_dir)) {
            (Some((d, p)), Some((sd, sp))) => d@ == sd && p@ == sp,
            (None, None) => true,
            _ => false,
        },
{
    let v = chars_of(expanded);
    if is_dir && v.len() > 0 && v[v.len() - 1] == '/' {
        return Some((string_of(&v), String::new()));
    }
    match parent_of(expanded) {
        Some(p) => {
            let prefix = match file_name_of(expanded) {
                Some(n) => n,
                None => String::new(),
            };
            Some((p, prefix))
        },
        None => None,
    }
}

/// How an entry is offered as a completion.
pub fn display_of(dir: &str, name: &str, is_dir: bool, home: &Option<String>) -> (res: String)
    ensures
        res@ == completion_display(
            dir@,
            name@,
            is_dir,
            opt_text(*home),
        ),
{
    let mut shown = join_path(dir, name);
    if is_dir {
        push_char(&mut shown, '/');
    }
    match home {
        Some(h) => match strip_prefix_of(shown.as_str(), h.as_str()) {
            Some(st) => {
                let mut s = String::new();
                push_char(&mut s, '~');
                push_char(&mut s, '/');
                let c = chars_of(st.as_str());
                push_chars(&mut s, &c);
                assert(s@ =~= seq!['~', '/'] + st@);
                s
            },
            None => shown,
        },
        None => shown,
    }
}

/// The completions for the entries (name, is a directory) of `dir` whose
/// names start with `prefix`, displayed and sorted.
pub fn completion_candidates(
    dir: &str,
    prefix: &str,
    entries: &Vec<(String, bool)>,
    home: &Option<String>,
) -> (res: Vec<String>)
    ensures
        sorted_from(
            text_views(res@),
            displays(
                dir@,
                prefix@,
                entry_views(entries@),
                opt_text(*home),
            ),
        ),
{
    let ghost hv = opt_text(*home);
    let ghost ev = entry_views(entries@);
    let pv = chars_of(prefix);
    let mut shown: Vec<String> = Vec::new();
    let mut keys: Vec<Vec<char>> = Vec::new();
    let mut i: usize = 0;
    while i < entries.len()
        invariant
            i <= entries.len(),
            pv@ == prefix@,
            ev == entry_views(entries@),
            text_views(shown@) == displays(dir@, prefix@, ev.take(i as int), hv),
            keys@.map_values(|v: Vec<char>| v@) == text_views(shown@),
            hv == opt_text(*home),
        decreases entries.len() - i,
    {
        assert(ev.take(i + 1).drop_last() == ev.take(i as int));
        assert(ev.take(i + 1).last() == ev[i as int]);
        let name = chars_of(entries[i].0.as_str());
        if pv.len() == 0 || is_prefix(&pv, &name) {
            let d = display_of(dir, entries[i].0.as_str(), entries[i].1, home);
            let ghost before = shown@;
            let ghost kbefore = keys@;
            keys.push(chars_of(d.as_str()));
            shown.push(d);
            assert(text_views(shown@) =~= text_views(before).push(d@));
            assert(keys@.map_values(|v: Vec<char>| v@) =~= kbefore.map_values(|v: Vec<char>| v@).push(d@));
        }
        i = i + 1;
    }
    assert(ev.take(entries@.len() as int) == ev);
    let order = stable_text_order(&keys);
    let ghost src = text_views(shown@);
    assert(keys@.map_values(|v: Vec<char>| v@) == src);
    let mut out: Vec<String> = Vec::new();
    let mut k: usize = 0;
    while k < order.len()
        invariant
            k <= order.len() == shown.len(),
            src == text_views(shown@),
            arrangement(order@, shown.len() as int),
            out@.len() == k,
            forall|m: int| 0 <= m < k ==> #[trigger] out@[m]@ == src[order@[m] as int],
        decreases order.len() - k,
    {
        let j = order[k];
        out.push(shown[j].clone());
        k = k + 1;
    }
    proof {
        let ov = text_views(out@);
        assert forall|m: int| 0 <= m < ov.len() implies ov[m] == src[order@[m] as int] by {
            assert(out@[m]@ == src[order@[m] as int]);
        }
        assert(arrangement(order@, src.len() as int));
    }
    out
}

/// The address bar.
pub struct AddressBar {
    text: Vec<char>,
    cursor: usize,
    bounds: Rect,
    active: bool,
    padding: u32,
    blink_counter: u32,
    completions: Vec<String>,
    completion_index: usize,
    completion_base: Vec<char>,
}

impl View for AddressBar {
    type V = BarState;

    closed spec fn view(&self) -> BarState {
        BarState {
            text: self.text@,
            cursor: self.cursor as int,
            bounds: self.bounds,
            active: self.active,
            blink: self.blink_counter,
            completions: text_views(self.completions@),
            completion_index: self.completion_index as int,
            completion_base: self.completion_base@,
        }
    }
}

impl AddressBar {
    /// Create a new address bar, inactive and empty.
    pub fn new(bounds: Rect) -> (res: Self)
        ensures
            bar_ok(res@),
            res@ == (BarState {
                text: Seq::empty(),
                cursor: 0,
                bounds,
                active: false,
                blink: 0,
                completions: Seq::empty(),
                completion_index: 0,
                completion_base: Seq::empty(),
            }),
    {
        let res = AddressBar {
            text: Vec::new(),
            cursor: 0,
            bounds,
            active: false,
            padding: 8,
            blink_counter: 0,
            completions: Vec::new(),
            completion_index: 0,
            completion_base: Vec::new(),
        };
        assert(res@.completions =~= Seq::<Seq<char>>::empty());
        res
    }

    /// Update bounds.
    pub fn set_bounds(&mut self, bounds: Rect)
        ensures
            final(self)@ == (BarState { bounds, ..old(self)@ }),
    {
        self.bounds = bounds;
    }

    /// Check if address bar is active.
    pub fn is_active(&self) -> (res: bool)
        ensures
            res == self@.active,
    {
        self.active
    }

    /// The text being edited.
    pub fn text(&self) -> (res: String)
        ensures
            res@ == self@.text,
    {
        string_of(&self.text)
    }

    /// The cursor, between characters.
    pub fn cursor(&self) -> (res: usize)
        ensures
            res == self@.cursor,
    {
        self.cursor
    }

    /// Activate the address bar with the given path, the cursor at its end.
    pub fn activate(&mut self, path: &str)
        requires
            bar_ok(old(self)@),
        ensures
            bar_ok(final(self)@),
            final(self)@ == (BarState {
                text: path@,
                cursor: path@.len() as int,
                active: true,
                blink: 0,
                ..old(self)@
            }),
    {
        self.text = chars_of(path);
        self.cursor = self.text.len();
        self.active = true;
        self.blink_counter = 0;
    }

    /// Deactivate the address bar without navigating.
    pub fn cancel(&mut self)
        requires
            bar_ok(old(self)@),
        ensures
            bar_ok(final(self)@),
            final(self)@ == cancelled(old(self)@),
    {
        self.active = false;
        self.text = Vec::new();
        self.cursor = 0;
    }

    /// Handle a key press: what the bar did with it. The bar edits text of
    /// ASCII characters only.
    pub fn handle_key(&mut self, key: Key) -> (res: BarKey)
        requires
            bar_ok(old(self)@),
            old(self)@.active ==> all_ascii(old(self)@.text),
            key matches Key::Char(c) ==> is_ascii_char(c),
        ensures
            bar_ok(final(self)@),
            (final(self)@, res) == bar_key(old(self)@, key),
    {
        if !self.active {
            return BarKey::Ignored;
        }
        self.blink_counter = 0;
        match key {
            Key::Escape => {
                self.active = false;
                self.text = Vec::new();
                self.cursor = 0;
                BarKey::Handled
            },
            Key::Return => BarKey::Handled,
            Key::Backspace => {
                if self.cursor > 0 {
                    self.cursor = self.cursor - 1;
                    self.text.remove(self.cursor);
                    self.completions = Vec::new();
                    assert(text_views(self.completions@) =~= Seq::<Seq<char>>::empty());
                }
                BarKey::Handled
            },
            Key::Delete => {
                if self.cursor < self.text.len() {
                    self.text.remove(self.cursor);
                    self.completions = Vec::new();
                    assert(text_views(self.completions@) =~= Seq::<Seq<char>>::empty());
                }
                BarKey::Handled
            },
            Key::Left => {
                if self.cursor > 0 {
                    self.cursor = self.cursor - 1;
                }
                BarKey::Handled
            },
            Key::Right => {
                if self.cursor < self.text.len() {
                    self.cursor = self.cursor + 1;
                }
                BarKey::Handled
            },
            Key::Home => {
                self.cursor = 0;
                BarKey::Handled
            },
            Key::End => {
                self.cursor = self.text.len();
                BarKey::Handled
            },
            Key::Tab => BarKey::Complete,
            Key::Char(c) => {
                self.text.insert(self.cursor, c);
                let n = self.text.len();
                assert(self.cursor < n);
                self.cursor = self.cursor + 1;
                self.completions = Vec::new();
                assert(text_views(self.completions@) =~= Seq::<Seq<char>>::empty());
                BarKey::Handled
            },
            _ => BarKey::Ignored,
        }
    }

    /// Tab again on the text a completion left: the next completion (in a
    /// cycle) replaces the text. Returns whether that happened; where it
    /// did not, the caller looks for new completions.
    pub fn cycle_completion(&mut self) -> (res: bool)
        requires
            bar_ok(old(self)@),
        ensures
            bar_ok(final(self)@),
            res == (old(self)@.completions.len() > 0 && old(self)@.text == old(self)@.completion_base),
            !res ==> final(self)@ == old(self)@,
            res ==> ({
                let s = old(self)@;
                let k = (s.completion_index + 1) % (s.completions.len() as int);
                final(self)@ == (BarState {
                    completion_index: k,
                    text: s.completions[k],
                    cursor: s.completions[k].len() as int,
                    completion_base: s.completions[k],
                    ..s
                })
            }),
    {
        if self.completions.len() == 0 {
            return false;
        }
        let same = crate::text::chars_eq(&self.text, &self.completion_base);
        if !same {
            return false;
        }
        let k = (self.completion_index + 1) % self.completions.len();
        let t = chars_of(self.completions[k].as_str());
        self.completion_index = k;
        self.completion_base = chars_of(self.completions[k].as_str());
        self.cursor = t.len();
        self.text = t;
        true
    }

    /// Offer these completions (as `completion_candidates` gives them): the
    /// first replaces the text, with the cursor at its end. Nothing happens
    /// where there are none.
    pub fn apply_completions(&mut self, matches: Vec<String>)
        requires
            bar_ok(old(self)@),
        ensures
            bar_ok(final(self)@),
            matches@.len() == 0 ==> final(self)@ == old(self)@,
            matches@.len() > 0 ==> final(self)@ == (BarState {
                completions: text_views(matches@),
                completion_index: 0,
                text: matches@[0]@,
                cursor: matches@[0]@.len() as int,
                completion_base: matches@[0]@,
                ..old(self)@
            }),
    {
        if matches.len() == 0 {
            return;
        }
        let t = chars_of(matches[0].as_str());
        self.completion_base = chars_of(matches[0].as_str());
        self.cursor = t.len();
        self.text = t;
        self.completion_index = 0;
        self.completions = matches;
    }

    /// Close the bar and hand over the text typed, where it was active.
    pub fn take_text(&mut self) -> (res: Option<String>)
        requires
            bar_ok(old(self)@),
        ensures
            bar_ok(final(self)@),
            !old(self)@.active ==> res is None && final(self)@ == old(self)@,
            old(self)@.active ==> (res matches Some(t) && t@ == old(self)@.text),
            old(self)@.active ==> final(self)@ == cancelled(old(self)@),
    {
        if !self.active {
            return None;
        }
        let t = string_of(&self.text);
        self.cancel();
        Some(t)
    }

    /// Confirm the current text and return the path to navigate to: the
    /// path typed (a leading `~` standing for the home directory) where it
    /// is a directory, else its parent where that is one. The bar closes.
    /// What is a directory, and the home directory, are read from the
    /// system, so the contract says which paths can come back.
    pub fn confirm(&mut self) -> (res: Option<String>)
        requires
            bar_ok(old(self)@),
        ensures
            bar_ok(final(self)@),
            !old(self)@.active ==> res is None && final(self)@ == old(self)@,
            old(self)@.active ==> final(self)@ == cancelled(old(self)@),
            res matches Some(p) ==> old(self)@.active && exists|home: Option<Seq<char>>|
                {
                    let x = #[trigger] expanded_target(old(self)@.text, home);
                    p@ == x || std_parent(x) == Some(p@)
                },
    {
        let text = match self.take_text() {
            Some(t) => t,
            None => {
                return None;
            },
        };
        let home = home_dir();
        let ghost hv = opt_text(home);
        let expanded = expand_target(text.as_str(), home);
        if path_is_dir(expanded.as_str()) {
            assert(expanded_target(text@, hv) == expanded@);
            return Some(expanded);
        }
        match parent_of(expanded.as_str()) {
            Some(p) => {
                if path_is_dir(p.as_str()) {
                    assert(expanded_target(text@, hv) == expanded@);
                    Some(p)
                } else {
                    None
                }
            },
            None => None,
        }
    }
}

/// Typing a character and then Backspace leaves the text and the cursor as
/// they were.
pub proof fn law_type_then_backspace(s: BarState, c: char)
    requires
        bar_ok(s),
        s.active,
    ensures
        ({
            let t = bar_key(bar_key(s, Key::Char(c)).0, Key::Backspace).0;
            t.text == s.text && t.cursor == s.cursor && t.active
        }),
{
    let t1 = bar_key(s, Key::Char(c)).0;
    assert(t1.text.remove(s.cursor) =~= s.text);
}

/// Escape always leaves the bar inactive and empty.
pub proof fn law_escape_cancels(s: BarState)
    ensures
        !bar_key(s, Key::Escape).0.active,
        s.active ==> bar_key(s, Key::Escape).0.text.len() == 0,
{
}

/// `c` shows an entry of `entries` whose name starts with `prefix`.
pub open spec fn from_matching_entry(
    c: Seq<char>,
    dir: Seq<char>,
    prefix: Seq<char>,
    entries: Seq<(Seq<char>, bool)>,
    home: Option<Seq<char>>,
) -> bool {
    exists|j: int|
        0 <= j < entries.len() && prefix.is_prefix_of(#[trigger] entries[j].0) && c == completion_display(
            dir,
            entries[j].0,
            entries[j].1,
            home,
        )
}

/// Every completion in a list built from `entries` comes from an entry whose
/// name starts with the prefix typed, shown as `completion_display` shows
/// it; an entry whose name does not start with the prefix is never offered.
proof fn lemma_displays_start_with_prefix(
    dir: Seq<char>,
    prefix: Seq<char>,
    entries: Seq<(Seq<char>, bool)>,
    home: Option<Seq<char>>,
)
    ensures
        forall|k: int|
            0 <= k < displays(dir, prefix, entries, home).len() ==> from_matching_entry(
                #[trigger] displays(dir, prefix, entries, home)[k],
                dir,
                prefix,
                entries,
                home,
            ),
    decreases entries.len(),
{
    if entries.len() > 0 {
        let init = entries.drop_last();
        lemma_displays_start_with_prefix(dir, prefix, init, home);
        let d = displays(dir, prefix, entries, home);
        let rest = displays(dir, prefix, init, home);
        let last = entries.len() - 1;
        assert forall|k: int| 0 <= k < d.len() implies from_matching_entry(
            #[trigger] d[k],
            dir,
            prefix,
            entries,
            home,
        ) by {
            if k < rest.len() {
                assert(rest[k] == d[k]);
                assert(from_matching_entry(rest[k], dir, prefix, init, home));
                let j = choose|j: int|
                    0 <= j < init.len() && prefix.is_prefix_of(#[trigger] init[j].0) && rest[k]
                        == completion_display(dir, init[j].0, init[j].1, home);
                assert(init[j] == entries[j]);
                assert(0 <= j < entries.len() && prefix.is_prefix_of(entries[j].0) && d[k]
                    == completion_display(dir, entries[j].0, entries[j].1, home));
            } else {
                assert(offered(entries.last().0, prefix));
                if prefix.len() == 0 {
                    assert(entries[last].0.subrange(0, 0) =~= prefix);
                }
                assert(prefix.is_prefix_of(entries[last].0));
                assert(d[k] == completion_display(dir, entries[last].0, entries[last].1, home));
            }
        }
    }
}

/// Every completion offered for a typed prefix comes from an entry of the
/// folder whose name starts with that prefix: `do` offers `docs/` but never
/// `undo.txt`.
pub proof fn law_completions_start_with_prefix(
    out: Seq<Seq<char>>,
    dir: Seq<char>,
    prefix: Seq<char>,
    entries: Seq<(Seq<char>, bool)>,
    home: Option<Seq<char>>,
)
    requires
        sorted_from(out, displays(dir, prefix, entries, home)),
    ensures
        forall|k: int| 0 <= k < out.len() ==> from_matching_entry(#[trigger] out[k], dir, prefix, entries, home),
{
    lemma_displays_start_with_prefix(dir, prefix, entries, home);
    let src = displays(dir, prefix, entries, home);
    let p = choose|p: Seq<usize>|
        #![trigger arrangement(p, src.len() as int)]
        {
            &&& arrangement(p, src.len() as int)
            &&& out.len() == src.len()
            &&& forall|k: int| 0 <= k < out.len() ==> out[k] == src[p[k] as int]
            &&& forall|k: int, l: int|
                #![trigger p[k], p[l]]
                0 <= k < l < out.len() ==> text_before(src, p[k] as int, p[l] as int)
        };
    assert forall|k: int| 0 <= k < out.len() implies from_matching_entry(#[trigger] out[k], dir, prefix, entries, home) by {
        let i = p[k] as int;
        assert(out[k] == src[i]);
        assert(0 <= i < src.len());
        assert(from_matching_entry(src[i], dir, prefix, entries, home));
    }
}

/// The completions offered are the entries whose names start with the
/// prefix, each shown as `completion_display` shows it, all of them and in
/// the order of the folder listing (before sorting): none is left out and
/// none that does not start with the prefix is added.
pub proof fn law_completions_are_matching_entries(
    dir: Seq<char>,
    prefix: Seq<char>,
    entries: Seq<(Seq<char>, bool)>,
    home: Option<Seq<char>>,
)
    ensures
        displays(dir, prefix, entries, home) == entries.filter(
            |e: (Seq<char>, bool)| prefix.is_prefix_of(e.0),
        ).map_values(|e: (Seq<char>, bool)| completion_display(dir, e.0, e.1, home)),
    decreases entries.len(),
{
    let pred = |e: (Seq<char>, bool)| prefix.is_prefix_of(e.0);
    let show = |e: (Seq<char>, bool)| completion_display(dir, e.0, e.1, home);
    reveal(Seq::filter);
    if entries.len() > 0 {
        let init = entries.drop_last();
        law_completions_are_matching_entries(dir, prefix, init, home);
        let x = entries.last();
        if prefix.len() == 0 {
            assert(x.0.subrange(0, 0) =~= prefix);
        }
        assert(offered(x.0, prefix) == pred(x));
        let f = init.filter(pred);
        if pred(x) {
            assert(entries.filter(pred) == f.push(x));
            assert(f.push(x).map_values(show) =~= f.map_values(show).push(show(x)));
        } else {
            assert(entries.filter(pred) == f);
        }
    } else {
        assert(entries.filter(pred) =~= Seq::<(Seq<char>, bool)>::empty());
        assert(displays(dir, prefix, entries, home) =~= Seq::<Seq<char>>::empty());
    }
}

} // verus!
