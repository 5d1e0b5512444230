//! The modal dialogs: confirmation, progress, name conflict and text input.
//! Each is centered in the window and answers keys and clicks; drawing is
//! left to the caller, which reads the rectangles from here.
use vstd::prelude::*;
use crate::drag::instant_now;
use crate::geometry::{inside, Point, Rect};
use crate::keys::Key;
use crate::text::{all_ascii, copy_string, decimal, is_ascii_char, is_space, is_space_exec, push_char, push_decimal, push_str, string_of, chars_of};
use crate::views::{ConflictAction, DialogResult, InputResult, ProgressInfo};
use std::time::Instant;

verus! {

// -- geometry ------------------------------------------------------------------

/// Window bounds the dialogs can be laid out in without leaving `i32`.
pub open spec fn sane(r: Rect) -> bool {
    -0x2000_0000 <= r.x <= 0x2000_0000 && -0x2000_0000 <= r.y <= 0x2000_0000 && r.width <= 0x2000_0000
        && r.height <= 0x2000_0000
}

/// Half the room left when `inner` is put in `outer`, rounded toward zero
/// (as `i32` division does; negative where `inner` is wider).
pub open spec fn half_room(outer: int, inner: int) -> int {
    let d = outer - inner;
    if d >= 0 { d / 2 } else { -((-d) / 2) }
}

/// `a - b`, or 0 where `b` is larger.
pub open spec fn sat_sub(a: int, b: int) -> int {
    if a >= b { a - b } else { 0 }
}

/// The smaller of two integers.
pub open spec fn min_of(a: int, b: int) -> int {
    if a <= b { a } else { b }
}

/// A dialog of at most `w` by `h`, leaving `margin` of the window free
/// where it is small, centered in the window.
pub open spec fn dialog_area(b: Rect, w: int, h: int, margin: int) -> Rect {
    let dw = min_of(w, sat_sub(b.width as int, margin));
    let dh = min_of(h, sat_sub(b.height as int, margin));
    Rect {
        x: (b.x + half_room(b.width as int, dw)) as i32,
        y: (b.y + half_room(b.height as int, dh)) as i32,
        width: dw as u32,
        height: dh as u32,
    }
}

/// Button `i` of a row of `n` buttons of `bw` by `bh`, `gap` apart,
/// centered at the bottom of the dialog `d`, `bottom` above its edge.
pub open spec fn button_in_row(d: Rect, n: int, i: int, bw: int, bh: int, gap: int, bottom: int) -> Rect {
    let start = d.x + half_room(d.width as int, n * bw + (n - 1) * gap);
    Rect {
        x: (start + i * (bw + gap)) as i32,
        y: (d.y + d.height - bh - bottom) as i32,
        width: bw as u32,
        height: bh as u32,
    }
}

fn half_room_exec(outer: i64, inner: i64) -> (res: i64)
    requires
        -0x1_0000_0000 <= outer <= 0x1_0000_0000,
        -0x1_0000_0000 <= inner <= 0x1_0000_0000,
    ensures
        res == half_room(outer as int, inner as int),
{
    let d = outer - inner;
    if d >= 0 {
        d / 2
    } else {
        -((-d) / 2)
    }
}

/// The centered dialog rectangle.
pub fn dialog_area_exec(b: Rect, w: u32, h: u32, margin: u32) -> (res: Rect)
    requires
        sane(b),
        w <= 0x1000,
        h <= 0x1000,
    ensures
        res == dialog_area(b, w as int, h as int, margin as int),
{
    let aw: u32 = if b.width >= margin { b.width - margin } else { 0 };
    let ah: u32 = if b.height >= margin { b.height - margin } else { 0 };
    let dw: u32 = if w <= aw { w } else { aw };
    let dh: u32 = if h <= ah { h } else { ah };
    let x = b.x as i64 + half_room_exec(b.width as i64, dw as i64);
    let y = b.y as i64 + half_room_exec(b.height as i64, dh as i64);
    Rect { x: x as i32, y: y as i32, width: dw, height: dh }
}

/// Button `i` of a centered row at the bottom of a dialog.
fn button_in_row_exec(d: Rect, n: u32, i: u32, bw: u32, bh: u32, gap: u32, bottom: u32) -> (res: Rect)
    requires
        -0x3000_0000 <= d.x <= 0x3000_0000,
        -0x3000_0000 <= d.y <= 0x3000_0000,
        d.width <= 0x1000,
        d.height <= 0x1000,
        1 <= n <= 4,
        i < n,
        bw <= 100,
        bh <= 100,
        gap <= 100,
        bottom <= 100,
    ensures
        res == button_in_row(d, n as int, i as int, bw as int, bh as int, gap as int, bottom as int),
{
    proof {
        assert(0 <= (n as int) * (bw as int) <= 400) by (nonlinear_arith)
            requires
                n <= 4,
                bw <= 100,
        ;
        assert(0 <= ((n - 1) as int) * (gap as int) <= 300) by (nonlinear_arith)
            requires
                1 <= n <= 4,
                gap <= 100,
        ;
        assert(0 <= (i as int) * ((bw + gap) as int) <= 600) by (nonlinear_arith)
            requires
                i < 4,
                bw <= 100,
                gap <= 100,
        ;
    }
    let total: i64 = n as i64 * bw as i64 + (n as i64 - 1) * gap as i64;
    let start = d.x as i64 + half_room_exec(d.width as i64, total);
    let x = start + i as i64 * (bw as i64 + gap as i64);
    let y = d.y as i64 + d.height as i64 - bh as i64 - bottom as i64;
    Rect { x: x as i32, y: y as i32, width: bw, height: bh }
}

// -- text wrapping ---------------------------------------------------------------

/// The pieces of `t` between line feeds (one more than there are line
/// feeds).
pub open spec fn split_lf(t: Seq<char>) -> Seq<Seq<char>>
    decreases t.len(),
{
    if t.len() == 0 {
        seq![Seq::empty()]
    } else {
        let s = split_lf(t.drop_last());
        if t.last() == '\n' {
            s.push(Seq::empty())
        } else {
            s.update(s.len() - 1, s.last().push(t.last()))
        }
    }
}

/// A line without the carriage return before its line feed.
pub open spec fn strip_cr(l: Seq<char>) -> Seq<char> {
    if l.len() > 0 && l.last() == '\r' { l.drop_last() } else { l }
}

/// The lines of `t` as `str::lines` gives them: split at line feeds, a
/// carriage return before a line feed dropped, no empty line after a final
/// line feed.
pub open spec fn lines_of(t: Seq<char>) -> Seq<Seq<char>> {
    let s = split_lf(t);
    let n = s.len() as int;
    let body = s.take(n - 1).map_values(|l: Seq<char>| strip_cr(l));
    if s[n - 1].len() == 0 { body } else { body.push(s[n - 1]) }
}

/// The words of `s`: the runs of characters that are not white space.
pub open spec fn words_of(s: Seq<char>) -> Seq<Seq<char>>
    decreases s.len(),
{
    if s.len() == 0 {
        Seq::empty()
    } else {
        let w = words_of(s.drop_last());
        if is_space(s.last()) {
            w
        } else if s.len() >= 2 && !is_space(s[s.len() - 2]) {
            w.update(w.len() - 1, w.last().push(s.last()))
        } else {
            w.push(seq![s.last()])
        }
    }
}

/// "...".
pub open spec fn dots() -> Seq<char> {
    seq!['.', '.', '.']
}

/// Lines done and the line being filled after laying out these words in
/// lines of at most `max` characters: a word goes on the current line with
/// a space where it fits, else starts a new line; a word longer than a line
/// is cut and ends in "...".
pub open spec fn fill_words(ws: Seq<Seq<char>>, max: int) -> (Seq<Seq<char>>, Seq<char>)
    decreases ws.len(),
{
    if ws.len() == 0 {
        (Seq::empty(), Seq::empty())
    } else {
        let (done, cur) = fill_words(ws.drop_last(), max);
        let w = ws.last();
        if cur.len() == 0 {
            if w.len() > max {
                (done.push(w.take(sat_sub(max, 3)) + dots()), cur)
            } else {
                (done, w)
            }
        } else if cur.len() + 1 + w.len() <= max {
            (done, cur.push(' ') + w)
        } else {
            (done.push(cur), w)
        }
    }
}

/// One line wrapped to lines of at most `max` characters.
pub open spec fn wrap_line(line: Seq<char>, max: int) -> Seq<Seq<char>> {
    if line.len() <= max {
        seq![line]
    } else {
        let (done, cur) = fill_words(words_of(line), max);
        if cur.len() > 0 { done.push(cur) } else { done }
    }
}

/// All lines of `t`, each wrapped.
pub open spec fn wrap_lines(ls: Seq<Seq<char>>, max: int) -> Seq<Seq<char>>
    decreases ls.len(),
{
    if ls.len() == 0 {
        Seq::empty()
    } else {
        wrap_lines(ls.drop_last(), max) + wrap_line(ls.last(), max)
    }
}

/// The views of a sequence of strings.
pub open spec fn views_of(v: Seq<String>) -> Seq<Seq<char>> {
    v.map_values(|s: String| s@)
}

/// Split `t` into its lines (as `str::lines`).
pub(crate) fn lines_exec(t: &Vec<char>) -> (res: Vec<Vec<char>>)
    ensures
        res@.map_values(|v: Vec<char>| v@) == lines_of(t@),
{
    let mut done: Vec<Vec<char>> = Vec::new();
    let mut cur: Vec<char> = Vec::new();
    let mut i: usize = 0;
    while i < t.len()
        invariant
            i <= t@.len(),
            ({
                let s = split_lf(t@.take(i as int));
                &&& s.len() == done@.len() + 1
                &&& forall|k: int| 0 <= k < done@.len() ==> #[trigger] done@[k]@ == strip_cr(s[k])
                &&& cur@ == s[s.len() - 1]
            }),
        decreases t@.len() - i,
    {
        let c = t[i];
        let ghost s = split_lf(t@.take(i as int));
        assert(t@.take(i + 1).drop_last() == t@.take(i as int));
        if c == '\n' {
            let mut line = cur;
            if line.len() > 0 && line[line.len() - 1] == '\r' {
                line.pop();
            }
            assert(line@ == strip_cr(s[s.len() - 1]));
            done.push(line);
            cur = Vec::new();
        } else {
            cur.push(c);
        }
        i = i + 1;
    }
    assert(t@.take(t@.len() as int) == t@);
    let ghost s = split_lf(t@);
    let ghost body = s.take(s.len() - 1).map_values(|l: Seq<char>| strip_cr(l));
    assert(done@.map_values(|v: Vec<char>| v@) =~= body);
    if cur.len() > 0 {
        done.push(cur);
        assert(done@.map_values(|v: Vec<char>| v@) =~= body.push(s[s.len() - 1]));
    }
    done
}

/// Split `s` into its words (as `str::split_whitespace`).
fn words_exec(s: &Vec<char>) -> (res: Vec<Vec<char>>)
    ensures
        res@.map_values(|v: Vec<char>| v@) == words_of(s@),
{
    let mut ws: Vec<Vec<char>> = Vec::new();
    let mut i: usize = 0;
    while i < s.len()
        invariant
            i <= s@.len(),
            ws@.map_values(|v: Vec<char>| v@) == words_of(s@.take(i as int)),
            i > 0 && !is_space(s@[i - 1]) ==> ws@.len() > 0,
        decreases s@.len() - i,
    {
        let c = s[i];
        let ghost before = ws@.map_values(|v: Vec<char>| v@);
        assert(s@.take(i + 1).drop_last() == s@.take(i as int));
        assert(s@.take(i + 1).last() == c);
        if !is_space_exec(c) {
            if i > 0 && !is_space_exec(s[i - 1]) {
                assert(s@.take(i + 1)[i - 1] == s@[i - 1]);
                let last = ws.len() - 1;
                let mut w = ws.remove(last);
                w.push(c);
                ws.push(w);
                assert(ws@.map_values(|v: Vec<char>| v@) =~= before.update(
                    before.len() - 1,
                    before.last().push(c),
                ));
            } else {
                let mut w = Vec::new();
                w.push(c);
                ws.push(w);
                assert(w@ =~= seq![c]);
                assert(ws@.map_values(|v: Vec<char>| v@) =~= before.push(seq![c]));
            }
        }
        i = i + 1;
    }
    assert(s@.take(s@.len() as int) == s@);
    ws
}

/// Wrap one line to lines of at most `max` characters.
fn wrap_line_exec(line: &Vec<char>, max: usize) -> (res: Vec<String>)
    ensures
        views_of(res@) == wrap_line(line@, max as int),
{
    if line.len() <= max {
        let mut v = Vec::new();
        v.push(string_of(line));
        assert(views_of(v@) =~= seq![line@]);
        return v;
    }
    let ws = words_exec(line);
    let ghost wv = ws@.map_values(|v: Vec<char>| v@);
    let mut done: Vec<String> = Vec::new();
    let mut cur: Vec<char> = Vec::new();
    let mut k: usize = 0;
    while k < ws.len()
        invariant
            k <= ws@.len(),
            wv == ws@.map_values(|v: Vec<char>| v@),
            views_of(done@) == fill_words(wv.take(k as int), max as int).0,
            cur@ == fill_words(wv.take(k as int), max as int).1,
        decreases ws@.len() - k,
    {
        assert(wv.take(k + 1).drop_last() == wv.take(k as int));
        assert(wv.take(k + 1).last() == ws@[k as int]@);
        let w = &ws[k];
        let ghost before = views_of(done@);
        if cur.len() == 0 {
            if w.len() > max {
                let keep: usize = if max >= 3 { max - 3 } else { 0 };
                let mut s = String::new();
                let mut j: usize = 0;
                while j < keep
                    invariant
                        j <= keep < w@.len(),
                        s@ == w@.take(j as int),
                    decreases keep - j,
                {
                    push_char(&mut s, w[j]);
                    assert(w@.take(j + 1) == w@.take(j as int).push(w@[j as int]));
                    j = j + 1;
                }
                push_char(&mut s, '.');
                push_char(&mut s, '.');
                push_char(&mut s, '.');
                assert(s@ =~= w@.take(keep as int) + dots());
                done.push(s);
                assert(views_of(done@) =~= before.push(w@.take(keep as int) + dots()));
            } else {
                cur = w.clone();
                assert(cur@ == w@);
            }
        } else if cur.len() as u128 + 1 + w.len() as u128 <= max as u128 {
            cur.push(' ');
            let mut j: usize = 0;
            let ghost base = cur@;
            while j < w.len()
                invariant
                    j <= w@.len(),
                    cur@ == base + w@.take(j as int),
                decreases w@.len() - j,
            {
                cur.push(w[j]);
                assert(w@.take(j + 1) == w@.take(j as int).push(w@[j as int]));
                j = j + 1;
            }
            assert(w@.take(w@.len() as int) == w@);
        } else {
            done.push(string_of(&cur));
            assert(views_of(done@) =~= before.push(cur@));
            cur = w.clone();
            assert(cur@ == w@);
        }
        k = k + 1;
    }
    assert(wv.take(ws@.len() as int) == wv);
    if cur.len() > 0 {
        let ghost before = views_of(done@);
        done.push(string_of(&cur));
        assert(views_of(done@) =~= before.push(cur@));
    }
    done
}

/// Wrap text to lines of at most `max_chars` characters: each line of the
/// text stays as it is where it fits, else its words are laid out in lines
/// that fit (a word too long for a line is cut and ends in "...").
pub fn wrap_text(text: &str, max_chars: usize) -> (res: Vec<String>)
    requires
        all_ascii(text@),
    ensures
        views_of(res@) == wrap_lines(lines_of(text@), max_chars as int),
{
    let t = chars_of(text);
    let ls = lines_exec(&t);
    let ghost lv = ls@.map_values(|v: Vec<char>| v@);
    let mut out: Vec<String> = Vec::new();
    let mut k: usize = 0;
    while k < ls.len()
        invariant
            k <= ls@.len(),
            lv == ls@.map_values(|v: Vec<char>| v@),
            views_of(out@) == wrap_lines(lv.take(k as int), max_chars as int),
        decreases ls@.len() - k,
    {
        assert(lv.take(k + 1).drop_last() == lv.take(k as int));
        assert(lv.take(k + 1).last() == ls@[k as int]@);
        let part = wrap_line_exec(&ls[k], max_chars);
        let ghost before = views_of(out@);
        let mut j: usize = 0;
        while j < part.len()
            invariant
                j <= part@.len(),
                views_of(out@) == before + views_of(part@).take(j as int),
            decreases part@.len() - j,
        {
            let ghost prev = views_of(out@);
            out.push(copy_string(part[j].as_str()));
            assert(views_of(out@) =~= prev.push(part@[j as int]@));
            assert(views_of(part@).take(j + 1) == views_of(part@).take(j as int).push(part@[j as int]@));
            assert(views_of(out@) =~= before + views_of(part@).take(j + 1));
            j = j + 1;
        }
        assert(views_of(part@).take(part@.len() as int) == views_of(part@));
        k = k + 1;
    }
    assert(lv.take(ls@.len() as int) == lv);
    out
}


// -- confirmation ------------------------------------------------------------------

/// What a confirmation dialog holds.
pub struct ConfirmState {
    pub bounds: Rect,
    pub title: Seq<char>,
    pub message: Seq<char>,
    pub confirm_label: Seq<char>,
    pub cancel_label: Seq<char>,
    pub visible: bool,
    /// The focused button: 0 confirm, 1 cancel.
    pub focused: int,
    pub hovered: Option<usize>,
}

/// Where a confirmation dialog is.
pub open spec fn confirm_area(b: Rect) -> Rect {
    dialog_area(b, 480, 240, 20)
}

/// Button `i` (0 confirm, 1 cancel) of a confirmation dialog.
pub open spec fn confirm_button(b: Rect, i: int) -> Rect {
    button_in_row(confirm_area(b), 2, i, 100, 36, 16, 24)
}

/// The confirmation dialog closed.
pub open spec fn confirm_closed(s: ConfirmState) -> ConfirmState {
    ConfirmState { visible: false, ..s }
}

/// A key on the confirmation dialog: Escape cancels, Return answers with
/// the focused button, Tab and the arrows switch buttons.
pub open spec fn confirm_key(s: ConfirmState, key: Key) -> (ConfirmState, Option<DialogResult>) {
    if !s.visible {
        (s, None)
    } else {
        match key {
            Key::Escape => (confirm_closed(s), Some(DialogResult::Cancelled)),
            Key::Return => (
                confirm_closed(s),
                Some(if s.focused == 0 { DialogResult::Confirmed } else { DialogResult::Cancelled }),
            ),
            Key::Tab | Key::Left | Key::Right => (ConfirmState { focused: 1 - s.focused, ..s }, None),
            _ => (s, None),
        }
    }
}

/// A click on the confirmation dialog: outside it cancels, on a button
/// answers with it.
pub open spec fn confirm_click(s: ConfirmState, p: Point) -> (ConfirmState, Option<DialogResult>) {
    if !s.visible {
        (s, None)
    } else if !inside(confirm_area(s.bounds), p) {
        (confirm_closed(s), Some(DialogResult::Cancelled))
    } else if inside(confirm_button(s.bounds, 0), p) {
        (confirm_closed(s), Some(DialogResult::Confirmed))
    } else if inside(confirm_button(s.bounds, 1), p) {
        (confirm_closed(s), Some(DialogResult::Cancelled))
    } else {
        (s, None)
    }
}

/// The message asking to delete `count` items for good.
pub open spec fn delete_message(count: usize) -> Seq<char> {
    if count == 1 {
        "Are you sure you want to permanently delete this item?\nThis action cannot be undone."@
    } else {
        "Are you sure you want to permanently delete "@ + decimal(count as nat)
            + " items?\nThis action cannot be undone."@
    }
}

/// A modal confirmation dialog.
pub struct ConfirmDialog {
    bounds: Rect,
    title: String,
    message: String,
    confirm_label: String,
    cancel_label: String,
    visible: bool,
    focused_button: usize,
    hovered_button: Option<usize>,
}

impl View for ConfirmDialog {
    type V = ConfirmState;

    closed spec fn view(&self) -> ConfirmState {
        ConfirmState {
            bounds: self.bounds,
            title: self.title@,
            message: self.message@,
            confirm_label: self.confirm_label@,
            cancel_label: self.cancel_label@,
            visible: self.visible,
            focused: self.focused_button as int,
            hovered: self.hovered_button,
        }
    }
}

/// The dialog's state can be laid out and its focus is on a button.
pub open spec fn confirm_ok(s: ConfirmState) -> bool {
    sane(s.bounds) && 0 <= s.focused <= 1
}

impl ConfirmDialog {
    /// Create a new confirmation dialog, hidden, with Cancel focused.
    pub fn new(bounds: Rect) -> (res: Self)
        requires
            sane(bounds),
        ensures
            confirm_ok(res@),
            res@ == (ConfirmState {
                bounds,
                title: Seq::empty(),
                message: Seq::empty(),
                confirm_label: "OK"@,
                cancel_label: "Cancel"@,
                visible: false,
                focused: 1,
                hovered: None,
            }),
    {
        ConfirmDialog {
            bounds,
            title: String::new(),
            message: String::new(),
            confirm_label: copy_string("OK"),
            cancel_label: copy_string("Cancel"),
            visible: false,
            focused_button: 1,
            hovered_button: None,
        }
    }

    /// Set bounds.
    pub fn set_bounds(&mut self, bounds: Rect)
        requires
            confirm_ok(old(self)@),
            sane(bounds),
        ensures
            confirm_ok(final(self)@),
            final(self)@ == (ConfirmState { bounds, ..old(self)@ }),
    {
        self.bounds = bounds;
    }

    /// Show the dialog with these texts, Cancel focused.
    pub fn show(&mut self, title: &str, message: &str, confirm_label: &str, cancel_label: &str)
        requires
            confirm_ok(old(self)@),
        ensures
            confirm_ok(final(self)@),
            final(self)@ == (ConfirmState {
                bounds: old(self)@.bounds,
                title: title@,
                message: message@,
                confirm_label: confirm_label@,
                cancel_label: cancel_label@,
                visible: true,
                focused: 1,
                hovered: None,
            }),
    {
        self.title = copy_string(title);
        self.message = copy_string(message);
        self.confirm_label = copy_string(confirm_label);
        self.cancel_label = copy_string(cancel_label);
        self.visible = true;
        self.focused_button = 1;
        self.hovered_button = None;
    }

    /// Show a delete confirmation dialog for `count` items.
    pub fn show_delete_confirm(&mut self, count: usize)
        requires
            confirm_ok(old(self)@),
        ensures
            confirm_ok(final(self)@),
            final(self)@ == (ConfirmState {
                bounds: old(self)@.bounds,
                title: "Confirm Delete"@,
                message: delete_message(count),
                confirm_label: "Delete"@,
                cancel_label: "Cancel"@,
                visible: true,
                focused: 1,
                hovered: None,
            }),
    {
        let message = if count == 1 {
            copy_string("Are you sure you want to permanently delete this item?\nThis action cannot be undone.")
        } else {
            let mut m = copy_string("Are you sure you want to permanently delete ");
            push_decimal(&mut m, count as u64);
            push_str(&mut m, " items?\nThis action cannot be undone.");
            m
        };
        self.show("Confirm Delete", message.as_str(), "Delete", "Cancel");
    }

    /// Check if visible.
    pub fn is_visible(&self) -> (res: bool)
        ensures
            res == self@.visible,
    {
        self.visible
    }

    /// Hide the dialog.
    pub fn close(&mut self)
        requires
            confirm_ok(old(self)@),
        ensures
            confirm_ok(final(self)@),
            final(self)@ == confirm_closed(old(self)@),
    {
        self.visible = false;
    }

    /// The title.
    pub fn title(&self) -> (res: &str)
        ensures
            res@ == self@.title,
    {
        self.title.as_str()
    }

    /// The message.
    pub fn message(&self) -> (res: &str)
        ensures
            res@ == self@.message,
    {
        self.message.as_str()
    }

    /// The labels of the confirm and cancel buttons.
    pub fn labels(&self) -> (res: (&str, &str))
        ensures
            res.0@ == self@.confirm_label,
            res.1@ == self@.cancel_label,
    {
        (self.confirm_label.as_str(), self.cancel_label.as_str())
    }

    /// The focused button (0 confirm, 1 cancel).
    pub fn focused_button(&self) -> (res: usize)
        ensures
            res == self@.focused,
    {
        self.focused_button
    }

    /// The hovered button.
    pub fn hovered_button(&self) -> (res: Option<usize>)
        ensures
            res == self@.hovered,
    {
        self.hovered_button
    }

    /// Handle key press. Returns the answer where the dialog closes.
    pub fn handle_key(&mut self, key: Key) -> (res: Option<DialogResult>)
        requires
            confirm_ok(old(self)@),
        ensures
            confirm_ok(final(self)@),
            (final(self)@, res) == confirm_key(old(self)@, key),
    {
        if !self.visible {
            return None;
        }
        match key {
            Key::Escape => {
                self.visible = false;
                Some(DialogResult::Cancelled)
            },
            Key::Return => {
                self.visible = false;
                if self.focused_button == 0 {
                    Some(DialogResult::Confirmed)
                } else {
                    Some(DialogResult::Cancelled)
                }
            },
            Key::Tab | Key::Left | Key::Right => {
                self.focused_button = 1 - self.focused_button;
                None
            },
            _ => None,
        }
    }

    /// The dialog rectangle (centered in bounds).
    pub fn dialog_rect(&self) -> (res: Rect)
        requires
            confirm_ok(self@),
        ensures
            res == confirm_area(self@.bounds),
    {
        dialog_area_exec(self.bounds, 480, 240, 20)
    }

    /// The confirm and cancel buttons.
    pub fn button_rects(&self) -> (res: (Rect, Rect))
        requires
            confirm_ok(self@),
        ensures
            res.0 == confirm_button(self@.bounds, 0),
            res.1 == confirm_button(self@.bounds, 1),
    {
        let d = self.dialog_rect();
        (button_in_row_exec(d, 2, 0, 100, 36, 16, 24), button_in_row_exec(d, 2, 1, 100, 36, 16, 24))
    }

    /// Handle mouse move: the button under the pointer is hovered.
    pub fn on_mouse_move(&mut self, pos: Point)
        requires
            confirm_ok(old(self)@),
        ensures
            confirm_ok(final(self)@),
            final(self)@ == if !old(self)@.visible {
                old(self)@
            } else {
                ConfirmState {
                    hovered: if inside(confirm_button(old(self)@.bounds, 0), pos) {
                        Some(0usize)
                    } else if inside(confirm_button(old(self)@.bounds, 1), pos) {
                        Some(1usize)
                    } else {
                        None
                    },
                    ..old(self)@
                }
            },
    {
        if !self.visible {
            return;
        }
        let (confirm_rect, cancel_rect) = self.button_rects();
        if confirm_rect.contains_point(pos) {
            self.hovered_button = Some(0);
        } else if cancel_rect.contains_point(pos) {
            self.hovered_button = Some(1);
        } else {
            self.hovered_button = None;
        }
    }

    /// Handle click. Returns the answer where the dialog closes.
    pub fn on_click(&mut self, pos: Point) -> (res: Option<DialogResult>)
        requires
            confirm_ok(old(self)@),
        ensures
            confirm_ok(final(self)@),
            (final(self)@, res) == confirm_click(old(self)@, pos),
    {
        if !self.visible {
            return None;
        }
        let dialog_rect = self.dialog_rect();
        if !dialog_rect.contains_point(pos) {
            self.visible = false;
            return Some(DialogResult::Cancelled);
        }
        let (confirm_rect, cancel_rect) = self.button_rects();
        if confirm_rect.contains_point(pos) {
            self.visible = false;
            return Some(DialogResult::Confirmed);
        }
        if cancel_rect.contains_point(pos) {
            self.visible = false;
            return Some(DialogResult::Cancelled);
        }
        None
    }
}

// -- progress ------------------------------------------------------------------------

/// What a progress dialog holds.
pub struct ProgressState {
    pub bounds: Rect,
    pub title: Seq<char>,
    pub visible: bool,
    pub current_item: Seq<char>,
    pub current: usize,
    pub total: usize,
    pub bytes_done: u64,
    pub bytes_total: u64,
    pub cancellable: bool,
    pub cancel_requested: bool,
    pub cancel_hovered: bool,
    /// The moment it was shown is known.
    pub timed: bool,
}

/// Where a progress dialog is.
pub open spec fn progress_area(b: Rect) -> Rect {
    dialog_area(b, 450, 160, 40)
}

/// The cancel button of a progress dialog.
pub open spec fn progress_cancel(b: Rect) -> Rect {
    button_in_row(progress_area(b), 1, 0, 80, 28, 0, 16)
}

/// The progress bar of a progress dialog.
pub open spec fn progress_bar(b: Rect) -> Rect {
    let d = progress_area(b);
    Rect { x: (d.x + 20) as i32, y: (d.y + 80) as i32, width: sat_sub(d.width as int, 40) as u32, height: 8 }
}

/// The line naming the item being worked on: "Preparing..." before the
/// first, else the item, cut to its last 50 characters behind "...".
pub open spec fn item_line(item: Seq<char>) -> Seq<char> {
    if item.len() == 0 {
        "Preparing..."@
    } else if item.len() > 50 {
        dots() + item.skip(item.len() - 50)
    } else {
        item
    }
}

/// A modal progress dialog for long operations.
pub struct ProgressDialog {
    bounds: Rect,
    title: String,
    visible: bool,
    progress: ProgressInfo,
    cancellable: bool,
    cancel_requested: bool,
    cancel_hovered: bool,
    start_time: Option<Instant>,
}

impl View for ProgressDialog {
    type V = ProgressState;

    closed spec fn view(&self) -> ProgressState {
        ProgressState {
            bounds: self.bounds,
            title: self.title@,
            visible: self.visible,
            current_item: self.progress.current_item@,
            current: self.progress.current,
            total: self.progress.total,
            bytes_done: self.progress.bytes_done,
            bytes_total: self.progress.bytes_total,
            cancellable: self.cancellable,
            cancel_requested: self.cancel_requested,
            cancel_hovered: self.cancel_hovered,
            timed: self.start_time is Some,
        }
    }
}

impl ProgressDialog {
    /// Create a new progress dialog, hidden.
    pub fn new(bounds: Rect) -> (res: Self)
        requires
            sane(bounds),
        ensures
            res@ == (ProgressState {
                bounds,
                title: Seq::empty(),
                visible: false,
                current_item: Seq::empty(),
                current: 0,
                total: 0,
                bytes_done: 0,
                bytes_total: 0,
                cancellable: true,
                cancel_requested: false,
                cancel_hovered: false,
                timed: false,
            }),
    {
        ProgressDialog {
            bounds,
            title: String::new(),
            visible: false,
            progress: ProgressInfo::new(0),
            cancellable: true,
            cancel_requested: false,
            cancel_hovered: false,
            start_time: None,
        }
    }

    /// Set bounds.
    pub fn set_bounds(&mut self, bounds: Rect)
        requires
            sane(bounds),
        ensures
            final(self)@ == (ProgressState { bounds, ..old(self)@ }),
    {
        self.bounds = bounds;
    }

    /// Show the progress dialog for `total` items.
    pub fn show(&mut self, title: &str, total: usize, cancellable: bool)
        ensures
            final(self)@ == (ProgressState {
                bounds: old(self)@.bounds,
                title: title@,
                visible: true,
                current_item: Seq::empty(),
                current: 0,
                total,
                bytes_done: 0,
                bytes_total: 0,
                cancellable,
                cancel_requested: false,
                cancel_hovered: false,
                timed: true,
            }),
    {
        self.title = copy_string(title);
        self.progress = ProgressInfo::new(total);
        self.cancellable = cancellable;
        self.cancel_requested = false;
        self.cancel_hovered = false;
        self.visible = true;
        self.start_time = Some(instant_now());
    }

    /// Update progress.
    pub fn update(&mut self, current: usize, current_item: &str)
        ensures
            final(self)@ == (ProgressState { current, current_item: current_item@, ..old(self)@ }),
    {
        self.progress.current = current;
        self.progress.current_item = copy_string(current_item);
    }

    /// Update byte progress.
    pub fn update_bytes(&mut self, bytes_done: u64, bytes_total: u64)
        ensures
            final(self)@ == (ProgressState { bytes_done, bytes_total, ..old(self)@ }),
    {
        self.progress.bytes_done = bytes_done;
        self.progress.bytes_total = bytes_total;
    }

    /// Check if visible.
    pub fn is_visible(&self) -> (res: bool)
        ensures
            res == self@.visible,
    {
        self.visible
    }

    /// Check if cancel was requested.
    pub fn is_cancel_requested(&self) -> (res: bool)
        ensures
            res == self@.cancel_requested,
    {
        self.cancel_requested
    }

    /// The title.
    pub fn title(&self) -> (res: &str)
        ensures
            res@ == self@.title,
    {
        self.title.as_str()
    }

    /// The progress so far.
    pub fn progress(&self) -> (res: &ProgressInfo)
        ensures
            res.current_item@ == self@.current_item,
            res.current == self@.current,
            res.total == self@.total,
            res.bytes_done == self@.bytes_done,
            res.bytes_total == self@.bytes_total,
    {
        &self.progress
    }

    /// When the dialog was shown.
    pub fn start_time(&self) -> (res: Option<Instant>)
        ensures
            res is Some == self@.timed,
    {
        self.start_time
    }

    /// Whether the cancel button is shown, and hovered.
    pub fn cancel_state(&self) -> (res: (bool, bool))
        ensures
            res == (self@.cancellable, self@.cancel_hovered),
    {
        (self.cancellable, self.cancel_hovered)
    }

    /// Hide the dialog.
    pub fn close(&mut self)
        ensures
            final(self)@ == (ProgressState { visible: false, timed: false, ..old(self)@ }),
    {
        self.visible = false;
        self.start_time = None;
    }

    /// Handle key press: while shown the dialog takes every key, and Escape
    /// asks to cancel where that is allowed. Returns whether it took the key.
    pub fn handle_key(&mut self, key: Key) -> (res: bool)
        ensures
            res == old(self)@.visible,
            final(self)@ == if old(self)@.visible && key == Key::Escape && old(self)@.cancellable {
                ProgressState { cancel_requested: true, ..old(self)@ }
            } else {
                old(self)@
            },
    {
        if !self.visible {
            return false;
        }
        if key == Key::Escape && self.cancellable {
            self.cancel_requested = true;
        }
        true
    }

    /// The dialog rectangle (centered in bounds).
    pub fn dialog_rect(&self) -> (res: Rect)
        requires
            sane(self@.bounds),
        ensures
            res == progress_area(self@.bounds),
    {
        dialog_area_exec(self.bounds, 450, 160, 40)
    }

    /// The progress bar.
    pub fn progress_bar_rect(&self) -> (res: Rect)
        requires
            sane(self@.bounds),
        ensures
            res == progress_bar(self@.bounds),
    {
        let d = self.dialog_rect();
        let w: u32 = if d.width >= 40 { d.width - 40 } else { 0 };
        Rect { x: d.x + 20, y: d.y + 80, width: w, height: 8 }
    }

    /// The cancel button.
    pub fn cancel_button_rect(&self) -> (res: Rect)
        requires
            sane(self@.bounds),
        ensures
            res == progress_cancel(self@.bounds),
    {
        let d = self.dialog_rect();
        button_in_row_exec(d, 1, 0, 80, 28, 0, 16)
    }

    /// Handle mouse move: the cancel button is hovered while under the
    /// pointer (where it is shown).
    pub fn on_mouse_move(&mut self, pos: Point)
        requires
            sane(old(self)@.bounds),
        ensures
            final(self)@ == if old(self)@.visible && old(self)@.cancellable {
                ProgressState { cancel_hovered: inside(progress_cancel(old(self)@.bounds), pos), ..old(self)@ }
            } else {
                old(self)@
            },
    {
        if !self.visible || !self.cancellable {
            return;
        }
        let cancel_rect = self.cancel_button_rect();
        self.cancel_hovered = cancel_rect.contains_point(pos);
    }

    /// Handle click: while shown the dialog takes every click, and one on
    /// the cancel button asks to cancel. Returns whether it took the click.
    pub fn on_click(&mut self, pos: Point) -> (res: bool)
        requires
            sane(old(self)@.bounds),
        ensures
            res == old(self)@.visible,
            final(self)@ == if old(self)@.visible && old(self)@.cancellable && inside(
                progress_cancel(old(self)@.bounds),
                pos,
            ) {
                ProgressState { cancel_requested: true, ..old(self)@ }
            } else {
                old(self)@
            },
    {
        if !self.visible {
            return false;
        }
        if self.cancellable {
            let cancel_rect = self.cancel_button_rect();
            if cancel_rect.contains_point(pos) {
                self.cancel_requested = true;
                return true;
            }
        }
        true
    }

    /// The line naming the item being worked on.
    pub fn item_text(&self) -> (res: String)
        ensures
            res@ == item_line(self@.current_item),
    {
        let v = chars_of(self.progress.current_item.as_str());
        if v.len() == 0 {
            return copy_string("Preparing...");
        }
        if v.len() > 50 {
            let mut s = String::new();
            push_char(&mut s, '.');
            push_char(&mut s, '.');
            push_char(&mut s, '.');
            let mut i: usize = v.len() - 50;
            while i < v.len()
                invariant
                    v.len() > 50,
                    v.len() - 50 <= i <= v.len(),
                    s@ == dots() + v@.subrange(v.len() - 50, i as int),
                decreases v.len() - i,
            {
                push_char(&mut s, v[i]);
                assert(v@.subrange(v.len() - 50, i + 1) == v@.subrange(v.len() - 50, i as int).push(v@[i as int]));
                i = i + 1;
            }
            assert(v@.subrange(v.len() - 50, v.len() as int) == v@.skip(v.len() - 50));
            return s;
        }
        string_of(&v)
    }

    /// "<current> of <total>".
    pub fn progress_text(&self) -> (res: String)
        ensures
            res@ == decimal(self@.current as nat) + " of "@ + decimal(self@.total as nat),
    {
        let mut s = String::new();
        push_decimal(&mut s, self.progress.current as u64);
        push_str(&mut s, " of ");
        push_decimal(&mut s, self.progress.total as u64);
        s
    }
}

// -- name conflicts ----------------------------------------------------------------

/// What a conflict dialog holds.
pub struct ConflictState {
    pub bounds: Rect,
    pub filename: Seq<char>,
    pub visible: bool,
    /// The focused button: 0 replace, 1 skip, 2 keep both, 3 cancel.
    pub focused: int,
    pub hovered: Option<usize>,
    pub apply_to_all: bool,
}

/// The action of button `i` of the conflict dialog.
pub open spec fn conflict_action(i: int) -> ConflictAction {
    if i == 0 {
        ConflictAction::Replace
    } else if i == 1 {
        ConflictAction::Skip
    } else if i == 2 {
        ConflictAction::KeepBoth
    } else {
        ConflictAction::Cancel
    }
}

/// Where a conflict dialog is.
pub open spec fn conflict_area(b: Rect) -> Rect {
    dialog_area(b, 420, 180, 40)
}

/// Button `i` of the conflict dialog (Replace, Skip, Keep Both, Cancel).
pub open spec fn conflict_button(b: Rect, i: int) -> Rect {
    button_in_row(conflict_area(b), 4, i, 85, 28, 8, 16)
}

/// The "apply to all" check box of the conflict dialog.
pub open spec fn conflict_checkbox(b: Rect) -> Rect {
    let d = conflict_area(b);
    Rect { x: (d.x + 20) as i32, y: (d.y + 95) as i32, width: 16, height: 16 }
}

/// The first of the conflict dialog's buttons under the point.
pub open spec fn conflict_button_at(b: Rect, p: Point) -> Option<usize> {
    if inside(conflict_button(b, 0), p) {
        Some(0)
    } else if inside(conflict_button(b, 1), p) {
        Some(1)
    } else if inside(conflict_button(b, 2), p) {
        Some(2)
    } else if inside(conflict_button(b, 3), p) {
        Some(3)
    } else {
        None
    }
}

/// A key on the conflict dialog: Escape cancels, Return picks the focused
/// button, Tab and Right move the focus right and Left to the left (round
/// the four buttons), `a` toggles "apply to all".
pub open spec fn conflict_key(s: ConflictState, key: Key) -> (ConflictState, Option<ConflictAction>) {
    if !s.visible {
        (s, None)
    } else {
        match key {
            Key::Escape => (ConflictState { visible: false, ..s }, Some(ConflictAction::Cancel)),
            Key::Return => (ConflictState { visible: false, ..s }, Some(conflict_action(s.focused))),
            Key::Tab | Key::Right => (ConflictState { focused: (s.focused + 1) % 4, ..s }, None),
            Key::Left => (ConflictState { focused: if s.focused == 0 { 3 } else { s.focused - 1 }, ..s }, None),
            Key::Char(c) => (if c == 'a' || c == 'A' {
                ConflictState { apply_to_all: !s.apply_to_all, ..s }
            } else {
                s
            }, None),
            _ => (s, None),
        }
    }
}

/// A click on the conflict dialog: outside it cancels, on the check box
/// toggles it, on a button picks it.
pub open spec fn conflict_click(s: ConflictState, p: Point) -> (ConflictState, Option<ConflictAction>) {
    if !s.visible {
        (s, None)
    } else if !inside(conflict_area(s.bounds), p) {
        (ConflictState { visible: false, ..s }, Some(ConflictAction::Cancel))
    } else if inside(conflict_checkbox(s.bounds), p) {
        (ConflictState { apply_to_all: !s.apply_to_all, ..s }, None)
    } else {
        match conflict_button_at(s.bounds, p) {
            Some(i) => (ConflictState { visible: false, ..s }, Some(conflict_action(i as int))),
            None => (s, None),
        }
    }
}

/// The dialog's state can be laid out and its focus is on a button.
pub open spec fn conflict_ok(s: ConflictState) -> bool {
    sane(s.bounds) && 0 <= s.focused <= 3
}

/// A modal dialog for file conflict resolution.
pub struct ConflictDialog {
    bounds: Rect,
    filename: String,
    visible: bool,
    focused_button: usize,
    hovered_button: Option<usize>,
    apply_to_all: bool,
}

impl View for ConflictDialog {
    type V = ConflictState;

    closed spec fn view(&self) -> ConflictState {
        ConflictState {
            bounds: self.bounds,
            filename: self.filename@,
            visible: self.visible,
            focused: self.focused_button as int,
            hovered: self.hovered_button,
            apply_to_all: self.apply_to_all,
        }
    }
}

impl ConflictDialog {
    /// Create a new conflict dialog, hidden, with Keep Both focused.
    pub fn new(bounds: Rect) -> (res: Self)
        requires
            sane(bounds),
        ensures
            conflict_ok(res@),
            res@ == (ConflictState {
                bounds,
                filename: Seq::empty(),
                visible: false,
                focused: 2,
                hovered: None,
                apply_to_all: false,
            }),
    {
        ConflictDialog {
            bounds,
            filename: String::new(),
            visible: false,
            focused_button: 2,
            hovered_button: None,
            apply_to_all: false,
        }
    }

    /// Set bounds.
    pub fn set_bounds(&mut self, bounds: Rect)
        requires
            conflict_ok(old(self)@),
            sane(bounds),
        ensures
            conflict_ok(final(self)@),
            final(self)@ == (ConflictState { bounds, ..old(self)@ }),
    {
        self.bounds = bounds;
    }

    /// Show the dialog for a conflicting file, Keep Both focused.
    pub fn show(&mut self, filename: &str)
        requires
            conflict_ok(old(self)@),
        ensures
            conflict_ok(final(self)@),
            final(self)@ == (ConflictState {
                bounds: old(self)@.bounds,
                filename: filename@,
                visible: true,
                focused: 2,
                hovered: None,
                apply_to_all: false,
            }),
    {
        self.filename = copy_string(filename);
        self.visible = true;
        self.focused_button = 2;
        self.hovered_button = None;
        self.apply_to_all = false;
    }

    /// Check if visible.
    pub fn is_visible(&self) -> (res: bool)
        ensures
            res == self@.visible,
    {
        self.visible
    }

    /// Check if apply to all is set.
    pub fn apply_to_all(&self) -> (res: bool)
        ensures
            res == self@.apply_to_all,
    {
        self.apply_to_all
    }

    /// The conflicting file's name.
    pub fn filename(&self) -> (res: &str)
        ensures
            res@ == self@.filename,
    {
        self.filename.as_str()
    }

    /// The focused and the hovered button.
    pub fn buttons_state(&self) -> (res: (usize, Option<usize>))
        ensures
            res.0 == self@.focused,
            res.1 == self@.hovered,
    {
        (self.focused_button, self.hovered_button)
    }

    /// Hide the dialog.
    pub fn close(&mut self)
        requires
            conflict_ok(old(self)@),
        ensures
            conflict_ok(final(self)@),
            final(self)@ == (ConflictState { visible: false, ..old(self)@ }),
    {
        self.visible = false;
    }

    /// Handle key press. Returns the action where the dialog closes.
    pub fn handle_key(&mut self, key: Key) -> (res: Option<ConflictAction>)
        requires
            conflict_ok(old(self)@),
        ensures
            conflict_ok(final(self)@),
            (final(self)@, res) == conflict_key(old(self)@, key),
    {
        if !self.visible {
            return None;
        }
        match key {
            Key::Escape => {
                self.visible = false;
                Some(ConflictAction::Cancel)
            },
            Key::Return => {
                self.visible = false;
                Some(
                    if self.focused_button == 0 {
                        ConflictAction::Replace
                    } else if self.focused_button == 1 {
                        ConflictAction::Skip
                    } else if self.focused_button == 2 {
                        ConflictAction::KeepBoth
                    } else {
                        ConflictAction::Cancel
                    },
                )
            },
            Key::Tab | Key::Right => {
                self.focused_button = (self.focused_button + 1) % 4;
                None
            },
            Key::Left => {
                self.focused_button = if self.focused_button == 0 {
                    3
                } else {
                    self.focused_button - 1
                };
                None
            },
            Key::Char(c) => {
                if c == 'a' || c == 'A' {
                    self.apply_to_all = !self.apply_to_all;
                }
                None
            },
            _ => None,
        }
    }

    /// The dialog rectangle.
    pub fn dialog_rect(&self) -> (res: Rect)
        requires
            conflict_ok(self@),
        ensures
            res == conflict_area(self@.bounds),
    {
        dialog_area_exec(self.bounds, 420, 180, 40)
    }

    /// The button rectangles: Replace, Skip, Keep Both, Cancel.
    pub fn button_rects(&self) -> (res: [Rect; 4])
        requires
            conflict_ok(self@),
        ensures
            forall|i: int| 0 <= i < 4 ==> #[trigger] res@[i] == conflict_button(self@.bounds, i),
    {
        let d = self.dialog_rect();
        let res = [
            button_in_row_exec(d, 4, 0, 85, 28, 8, 16),
            button_in_row_exec(d, 4, 1, 85, 28, 8, 16),
            button_in_row_exec(d, 4, 2, 85, 28, 8, 16),
            button_in_row_exec(d, 4, 3, 85, 28, 8, 16),
        ];
        assert forall|i: int| 0 <= i < 4 implies #[trigger] res@[i] == conflict_button(self@.bounds, i) by {
            if i == 0 {
            } else if i == 1 {
            } else if i == 2 {
            } else {
            }
        }
        res
    }

    /// The "apply to all" check box.
    pub fn checkbox_rect(&self) -> (res: Rect)
        requires
            conflict_ok(self@),
        ensures
            res == conflict_checkbox(self@.bounds),
    {
        let d = self.dialog_rect();
        Rect { x: d.x + 20, y: d.y + 95, width: 16, height: 16 }
    }

    fn button_at(&self, pos: Point) -> (res: Option<usize>)
        requires
            conflict_ok(self@),
        ensures
            res == conflict_button_at(self@.bounds, pos),
    {
        let b = self.button_rects();
        if b[0].contains_point(pos) {
            Some(0)
        } else if b[1].contains_point(pos) {
            Some(1)
        } else if b[2].contains_point(pos) {
            Some(2)
        } else if b[3].contains_point(pos) {
            Some(3)
        } else {
            None
        }
    }

    /// Handle mouse move: the button under the pointer is hovered.
    pub fn on_mouse_move(&mut self, pos: Point)
        requires
            conflict_ok(old(self)@),
        ensures
            conflict_ok(final(self)@),
            final(self)@ == if old(self)@.visible {
                ConflictState { hovered: conflict_button_at(old(self)@.bounds, pos), ..old(self)@ }
            } else {
                old(self)@
            },
    {
        if !self.visible {
            return;
        }
        self.hovered_button = self.button_at(pos);
    }

    /// Handle click. Returns the action where the dialog closes.
    pub fn on_click(&mut self, pos: Point) -> (res: Option<ConflictAction>)
        requires
            conflict_ok(old(self)@),
        ensures
            conflict_ok(final(self)@),
            (final(self)@, res) == conflict_click(old(self)@, pos),
    {
        if !self.visible {
            return None;
        }
        let dialog_rect = self.dialog_rect();
        if !dialog_rect.contains_point(pos) {
            self.visible = false;
            return Some(ConflictAction::Cancel);
        }
        let checkbox = self.checkbox_rect();
        if checkbox.contains_point(pos) {
            self.apply_to_all = !self.apply_to_all;
            return None;
        }
        match self.button_at(pos) {
            Some(i) => {
                self.visible = false;
                Some(
                    if i == 0 {
                        ConflictAction::Replace
                    } else if i == 1 {
                        ConflictAction::Skip
                    } else if i == 2 {
                        ConflictAction::KeepBoth
                    } else {
                        ConflictAction::Cancel
                    },
                )
            },
            None => None,
        }
    }
}

// -- text input ------------------------------------------------------------------------

/// What a text input dialog holds.
pub struct InputState {
    pub bounds: Rect,
    pub title: Seq<char>,
    pub prompt: Seq<char>,
    pub input: Seq<char>,
    pub cursor: int,
    pub visible: bool,
    /// The focused element: 0 the input, 1 OK, 2 Cancel.
    pub focused: int,
    pub hovered: Option<usize>,
}

/// The answer of an input dialog as text: `Some(text)` submitted, `None`
/// cancelled.
pub open spec fn answer(r: InputResult) -> Option<Seq<char>> {
    match r {
        InputResult::Submitted(t) => Some(t@),
        InputResult::Cancelled => None,
    }
}

/// Where an input dialog is.
pub open spec fn input_area(b: Rect) -> Rect {
    dialog_area(b, 400, 160, 40)
}

/// The input field of an input dialog.
pub open spec fn input_field(b: Rect) -> Rect {
    let d = input_area(b);
    Rect { x: (d.x + 20) as i32, y: (d.y + 70) as i32, width: sat_sub(d.width as int, 40) as u32, height: 32 }
}

/// Button `i` (0 OK, 1 Cancel) of an input dialog.
pub open spec fn input_button(b: Rect, i: int) -> Rect {
    button_in_row(input_area(b), 2, i, 80, 28, 16, 16)
}

/// A key on the input dialog: Escape cancels; Return submits the text,
/// unless Cancel has the focus; Tab moves the focus round the field and
/// the two buttons; while the field has the focus the other keys edit the
/// text there.
pub open spec fn input_key(s: InputState, key: Key) -> (InputState, Option<Option<Seq<char>>>) {
    if !s.visible {
        (s, None)
    } else {
        let closed = InputState { visible: false, ..s };
        match key {
            Key::Escape => (closed, Some(None)),
            Key::Return => (closed, Some(if s.focused == 0 || s.focused == 1 { Some(s.input) } else { None })),
            Key::Tab => (InputState { focused: (s.focused + 1) % 3, ..s }, None),
            _ => if s.focused != 0 {
                (s, None)
            } else {
                (match key {
                    Key::Char(c) => InputState { input: s.input.insert(s.cursor, c), cursor: s.cursor + 1, ..s },
                    Key::Backspace => if s.cursor > 0 {
                        InputState { input: s.input.remove(s.cursor - 1), cursor: s.cursor - 1, ..s }
                    } else {
                        s
                    },
                    Key::Delete => if s.cursor < s.input.len() {
                        InputState { input: s.input.remove(s.cursor), ..s }
                    } else {
                        s
                    },
                    Key::Left => InputState { cursor: if s.cursor > 0 { s.cursor - 1 } else { s.cursor }, ..s },
                    Key::Right => InputState {
                        cursor: if s.cursor < s.input.len() { s.cursor + 1 } else { s.cursor },
                        ..s
                    },
                    Key::Home => InputState { cursor: 0, ..s },
                    Key::End => InputState { cursor: s.input.len() as int, ..s },
                    _ => s,
                }, None)
            },
        }
    }
}

/// A click on the input dialog: on the field it focuses it; on OK it
/// submits the text; on Cancel it cancels.
pub open spec fn input_click(s: InputState, p: Point) -> (InputState, Option<Option<Seq<char>>>) {
    if !s.visible {
        (s, None)
    } else if inside(input_field(s.bounds), p) {
        (InputState { focused: 0, ..s }, None)
    } else if inside(input_button(s.bounds, 0), p) {
        (InputState { visible: false, ..s }, Some(Some(s.input)))
    } else if inside(input_button(s.bounds, 1), p) {
        (InputState { visible: false, ..s }, Some(None))
    } else {
        (s, None)
    }
}

/// The dialog can be laid out, the cursor is in the text and the focus is
/// on one of its three elements.
pub open spec fn input_ok(s: InputState) -> bool {
    sane(s.bounds) && 0 <= s.cursor <= s.input.len() && 0 <= s.focused <= 2
}

/// A modal dialog asking for a line of text.
pub struct InputDialog {
    bounds: Rect,
    title: String,
    prompt: String,
    input: Vec<char>,
    cursor: usize,
    visible: bool,
    focused: usize,
    hovered_button: Option<usize>,
}

impl View for InputDialog {
    type V = InputState;

    closed spec fn view(&self) -> InputState {
        InputState {
            bounds: self.bounds,
            title: self.title@,
            prompt: self.prompt@,
            input: self.input@,
            cursor: self.cursor as int,
            visible: self.visible,
            focused: self.focused as int,
            hovered: self.hovered_button,
        }
    }
}

impl InputDialog {
    /// Create a new input dialog, hidden and empty.
    pub fn new(bounds: Rect) -> (res: Self)
        requires
            sane(bounds),
        ensures
            input_ok(res@),
            res@ == (InputState {
                bounds,
                title: Seq::empty(),
                prompt: Seq::empty(),
                input: Seq::empty(),
                cursor: 0,
                visible: false,
                focused: 0,
                hovered: None,
            }),
    {
        InputDialog {
            bounds,
            title: String::new(),
            prompt: String::new(),
            input: Vec::new(),
            cursor: 0,
            visible: false,
            focused: 0,
            hovered_button: None,
        }
    }

    /// Set bounds.
    pub fn set_bounds(&mut self, bounds: Rect)
        requires
            input_ok(old(self)@),
            sane(bounds),
        ensures
            input_ok(final(self)@),
            final(self)@ == (InputState { bounds, ..old(self)@ }),
    {
        self.bounds = bounds;
    }

    /// Show the dialog with this text to edit, the cursor at its end.
    pub fn show(&mut self, title: &str, prompt: &str, initial_value: &str)
        requires
            input_ok(old(self)@),
        ensures
            input_ok(final(self)@),
            final(self)@ == (InputState {
                bounds: old(self)@.bounds,
                title: title@,
                prompt: prompt@,
                input: initial_value@,
                cursor: initial_value@.len() as int,
                visible: true,
                focused: 0,
                hovered: None,
            }),
    {
        self.title = copy_string(title);
        self.prompt = copy_string(prompt);
        self.input = chars_of(initial_value);
        self.cursor = self.input.len();
        self.visible = true;
        self.focused = 0;
        self.hovered_button = None;
    }

    /// Check if visible.
    pub fn is_visible(&self) -> (res: bool)
        ensures
            res == self@.visible,
    {
        self.visible
    }

    /// Hide the dialog.
    pub fn close(&mut self)
        requires
            input_ok(old(self)@),
        ensures
            input_ok(final(self)@),
            final(self)@ == (InputState { visible: false, ..old(self)@ }),
    {
        self.visible = false;
    }

    /// The title, the prompt and the text.
    pub fn texts(&self) -> (res: (&str, &str, String))
        ensures
            res.0@ == self@.title,
            res.1@ == self@.prompt,
            res.2@ == self@.input,
    {
        (self.title.as_str(), self.prompt.as_str(), string_of(&self.input))
    }

    /// The cursor, the focused element and the hovered button.
    pub fn focus_state(&self) -> (res: (usize, usize, Option<usize>))
        ensures
            res == (self@.cursor as usize, self@.focused as usize, self@.hovered),
    {
        (self.cursor, self.focused, self.hovered_button)
    }

    /// Handle key press. Returns the answer where the dialog closes. The
    /// field edits text of ASCII characters only.
    pub fn handle_key(&mut self, key: Key) -> (res: Option<InputResult>)
        requires
            input_ok(old(self)@),
            old(self)@.visible && old(self)@.focused == 0 ==> all_ascii(old(self)@.input),
            key matches Key::Char(c) ==> is_ascii_char(c),
        ensures
            input_ok(final(self)@),
            final(self)@ == input_key(old(self)@, key).0,
            match res {
                Some(r) => input_key(old(self)@, key).1 == Some(answer(r)),
                None => input_key(old(self)@, key).1 is None,
            },
    {
        if !self.visible {
            return None;
        }
        match key {
            Key::Escape => {
                self.visible = false;
                return Some(InputResult::Cancelled);
            },
            Key::Return => {
                self.visible = false;
                if self.focused == 0 || self.focused == 1 {
                    return Some(InputResult::Submitted(string_of(&self.input)));
                } else {
                    return Some(InputResult::Cancelled);
                }
            },
            Key::Tab => {
                self.focused = (self.focused + 1) % 3;
                return None;
            },
            _ => {},
        }
        if self.focused != 0 {
            return None;
        }
        match key {
            Key::Char(c) => {
                self.input.insert(self.cursor, c);
                let n = self.input.len();
                assert(self.cursor < n);
                self.cursor = self.cursor + 1;
            },
            Key::Backspace => {
                if self.cursor > 0 {
                    self.cursor = self.cursor - 1;
                    self.input.remove(self.cursor);
                }
            },
            Key::Delete => {
                if self.cursor < self.input.len() {
                    self.input.remove(self.cursor);
                }
            },
            Key::Left => {
                if self.cursor > 0 {
                    self.cursor = self.cursor - 1;
                }
            },
            Key::Right => {
                if self.cursor < self.input.len() {
                    self.cursor = self.cursor + 1;
                }
            },
            Key::Home => {
                self.cursor = 0;
            },
            Key::End => {
                self.cursor = self.input.len();
            },
            _ => {},
        }
        None
    }

    /// The dialog rectangle.
    pub fn dialog_rect(&self) -> (res: Rect)
        requires
            input_ok(self@),
        ensures
            res == input_area(self@.bounds),
    {
        dialog_area_exec(self.bounds, 400, 160, 40)
    }

    /// The input field.
    pub fn input_rect(&self) -> (res: Rect)
        requires
            input_ok(self@),
        ensures
            res == input_field(self@.bounds),
    {
        let d = self.dialog_rect();
        let w: u32 = if d.width >= 40 { d.width - 40 } else { 0 };
        Rect { x: d.x + 20, y: d.y + 70, width: w, height: 32 }
    }

    /// The OK and Cancel buttons.
    pub fn button_rects(&self) -> (res: (Rect, Rect))
        requires
            input_ok(self@),
        ensures
            res.0 == input_button(self@.bounds, 0),
            res.1 == input_button(self@.bounds, 1),
    {
        let d = self.dialog_rect();
        (button_in_row_exec(d, 2, 0, 80, 28, 16, 16), button_in_row_exec(d, 2, 1, 80, 28, 16, 16))
    }

    /// Handle mouse click. Returns the answer where the dialog closes.
    pub fn on_click(&mut self, pos: Point) -> (res: Option<InputResult>)
        requires
            input_ok(old(self)@),
        ensures
            input_ok(final(self)@),
            final(self)@ == input_click(old(self)@, pos).0,
            match res {
                Some(r) => input_click(old(self)@, pos).1 == Some(answer(r)),
                None => input_click(old(self)@, pos).1 is None,
            },
    {
        if !self.visible {
            return None;
        }
        let (ok_rect, cancel_rect) = self.button_rects();
        let input_rect = self.input_rect();
        if input_rect.contains_point(pos) {
            self.focused = 0;
            return None;
        }
        if ok_rect.contains_point(pos) {
            self.visible = false;
            return Some(InputResult::Submitted(string_of(&self.input)));
        }
        if cancel_rect.contains_point(pos) {
            self.visible = false;
            return Some(InputResult::Cancelled);
        }
        None
    }

    /// Handle mouse move: OK hovers as 1, Cancel as 2.
    pub fn on_mouse_move(&mut self, pos: Point)
        requires
            input_ok(old(self)@),
        ensures
            input_ok(final(self)@),
            final(self)@ == if !old(self)@.visible {
                old(self)@
            } else {
                InputState {
                    hovered: if inside(input_button(old(self)@.bounds, 0), pos) {
                        Some(1usize)
                    } else if inside(input_button(old(self)@.bounds, 1), pos) {
                        Some(2usize)
                    } else {
                        None
                    },
                    ..old(self)@
                }
            },
    {
        if !self.visible {
            return;
        }
        let (ok_rect, cancel_rect) = self.button_rects();
        if ok_rect.contains_point(pos) {
            self.hovered_button = Some(1);
        } else if cancel_rect.contains_point(pos) {
            self.hovered_button = Some(2);
        } else {
            self.hovered_button = None;
        }
    }
}

// -- laws ------------------------------------------------------------------------------

/// Switching the confirmation dialog's focus twice leaves it where it was.
pub proof fn law_confirm_focus_twice(s: ConfirmState, key: Key)
    requires
        s.visible,
        key == Key::Tab || key == Key::Left || key == Key::Right,
    ensures
        confirm_key(confirm_key(s, key).0, key).0 == s,
{
}

/// Every answer of the dialogs closes them.
pub proof fn law_answer_closes(c: ConfirmState, f: ConflictState, i: InputState, key: Key, p: Point)
    ensures
        confirm_key(c, key).1 is Some ==> !confirm_key(c, key).0.visible,
        confirm_click(c, p).1 is Some ==> !confirm_click(c, p).0.visible,
        conflict_key(f, key).1 is Some ==> !conflict_key(f, key).0.visible,
        conflict_click(f, p).1 is Some ==> !conflict_click(f, p).0.visible,
        input_key(i, key).1 is Some ==> !input_key(i, key).0.visible,
        input_click(i, p).1 is Some ==> !input_click(i, p).0.visible,
{
}

/// Moving the conflict dialog's focus right four times, or right then left,
/// comes back to the same button.
pub proof fn law_conflict_focus_cycles(s: ConflictState)
    requires
        s.visible,
        0 <= s.focused <= 3,
    ensures
        ({
            let r = |t: ConflictState| conflict_key(t, Key::Right).0;
            r(r(r(r(s)))) == s
        }),
        conflict_key(conflict_key(s, Key::Right).0, Key::Left).0 == s,
{
}

/// Typing a character into the input dialog's field and deleting it with
/// Backspace leaves the text as it was.
pub proof fn law_input_type_then_backspace(s: InputState, c: char)
    requires
        input_ok(s),
        s.visible,
        s.focused == 0,
    ensures
        input_key(input_key(s, Key::Char(c)).0, Key::Backspace).0 == s,
{
    let t = input_key(s, Key::Char(c)).0;
    assert(t.input.remove(s.cursor) =~= s.input);
}

} // verus!
