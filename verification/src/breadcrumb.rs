//! The breadcrumb bar: the current path as clickable segments, one per
//! directory from the root down, shortened from the left where it does not
//! fit.
use vstd::prelude::*;
use crate::geometry::{inside, Point, Rect};
use crate::path::{
    back_pieces, back_pieces_exec, char_views, dot, has_root, join, join_path, last_piece, last_sep,
    lemma_last_sep_is, lemma_last_sep_range, same_path,
};
use crate::text::{copy_string, string_of};

verus! {

/// Width of each of the back and forward buttons.
pub const BUTTON_WIDTH: u32 = 24;

/// Room taken by the separator after a root segment.
pub const ROOT_SEPARATOR_WIDTH: u32 = 8;

/// One segment: its text, the path up to and including it, and where it was
/// last drawn.
pub struct Segment {
    pub text: String,
    pub path: String,
    pub bounds: Rect,
}

/// The path's named components, from the root down.
pub open spec fn pieces(p: Seq<char>) -> Seq<Seq<char>> {
    back_pieces(p).reverse()
}

/// `base` with the pieces pushed onto it in turn.
pub open spec fn pushed(base: Seq<char>, ps: Seq<Seq<char>>) -> Seq<char>
    decreases ps.len(),
{
    if ps.len() == 0 {
        base
    } else {
        join(pushed(base, ps.drop_last()), ps.last())
    }
}

/// The path the segments start from: the root for an absolute path, else
/// nothing.
pub open spec fn crumb_base(p: Seq<char>) -> Seq<char> {
    if has_root(p) { seq!['/'] } else { Seq::empty() }
}

/// The segments of a path as (text, path): the root `/` for an absolute
/// path, then one per named component (`..` included, `.` left out), each
/// leading to the path up to and including it.
pub open spec fn crumbs(p: Seq<char>) -> Seq<(Seq<char>, Seq<char>)> {
    let root: Seq<(Seq<char>, Seq<char>)> = if has_root(p) { seq![(seq!['/'], seq!['/'])] } else { Seq::empty() };
    root + Seq::new(
        pieces(p).len(),
        |k: int| (pieces(p)[k], pushed(crumb_base(p), pieces(p).take(k + 1))),
    )
}

/// The (text, path) views of the segments.
pub open spec fn segment_views(s: Seq<Segment>) -> Seq<(Seq<char>, Seq<char>)> {
    s.map_values(|g: Segment| (g.text@, g.path@))
}

/// The first segment drawn over the point.
pub open spec fn segment_hit(s: Seq<Segment>, p: Point, k: int) -> Option<usize>
    decreases s.len() - k,
{
    if k < 0 || k >= s.len() {
        None
    } else if inside(s[k].bounds, p) {
        Some(k as usize)
    } else {
        segment_hit(s, p, k + 1)
    }
}

/// Room taken before segment `i`: none before the first, a narrow gap after
/// a root, else a separator.
pub open spec fn gap_before(i: int, sep_w: int, first_is_root: bool) -> int {
    if i == 0 {
        0
    } else if i == 1 && first_is_root {
        ROOT_SEPARATOR_WIDTH as int
    } else {
        sep_w
    }
}

/// Width of all the segments with their separators.
pub open spec fn total_width(widths: Seq<u32>, sep_w: int, first_is_root: bool) -> int
    decreases widths.len(),
{
    if widths.len() == 0 {
        0
    } else {
        total_width(widths.drop_last(), sep_w, first_is_root) + gap_before(widths.len() - 1, sep_w, first_is_root)
            + widths.last()
    }
}

/// Going from segment `i` down towards the second, the first segment of the
/// run that still fits after `running` is taken (`i + 1` where segment `i`
/// does not fit).
pub open spec fn fit_from(widths: Seq<u32>, sep_w: int, available: int, running: int, i: int) -> int
    decreases i,
{
    if i < 1 {
        i + 1
    } else if running + widths[i] + sep_w <= available {
        fit_from(widths, sep_w, available, running + widths[i] + sep_w, i - 1)
    } else {
        i + 1
    }
}

/// How many segments after the first are left out, and whether "..." shows
/// in their place: where the segments do not fit and there are more than
/// two, the longest run of last segments that fits after "... / " stays.
pub open spec fn truncation(
    widths: Seq<u32>,
    sep_w: int,
    ellipsis_w: int,
    available: int,
    first_is_root: bool,
) -> (usize, bool) {
    let n = widths.len() as int;
    if total_width(widths, sep_w, first_is_root) > available && n > 2 {
        let from = fit_from(widths, sep_w, available, ellipsis_w + sep_w, n - 1);
        if from > 1 { ((from - 1) as usize, true) } else { (0, false) }
    } else {
        (0, false)
    }
}

proof fn lemma_total_width_bound(widths: Seq<u32>, sep_w: int, first_is_root: bool, cap: int)
    requires
        sep_w >= 0,
        forall|k: int| 0 <= k < widths.len() ==> widths[k] + sep_w + ROOT_SEPARATOR_WIDTH <= cap,
    ensures
        0 <= total_width(widths, sep_w, first_is_root) <= cap * widths.len(),
    decreases widths.len(),
{
    if widths.len() > 0 {
        lemma_total_width_bound(widths.drop_last(), sep_w, first_is_root, cap);
        assert(widths.last() == widths[widths.len() - 1]);
        assert(cap * (widths.len() - 1) + cap == cap * widths.len()) by (nonlinear_arith);
    }
}

proof fn lemma_fit_from_range(widths: Seq<u32>, sep_w: int, available: int, running: int, i: int)
    requires
        i >= 0,
    ensures
        1 <= fit_from(widths, sep_w, available, running, i) <= i + 1,
    decreases i,
{
    if i >= 1 && running + widths[i] + sep_w <= available {
        lemma_fit_from_range(widths, sep_w, available, running + widths[i] + sep_w, i - 1);
    }
}

/// How many segments after the first are left out, and whether "..." shows
/// in their place, given the measured width of each segment, of a
/// separator and of the ellipsis, and the width available.
pub fn plan_truncation(widths: &Vec<u32>, sep_w: u32, ellipsis_w: u32, available: u32, first_is_root: bool) -> (res: (
    usize,
    bool,
))
    requires
        widths@.len() <= 0x1_0000,
        sep_w <= 0x1_0000,
        ellipsis_w <= 0x1_0000,
        forall|k: int| 0 <= k < widths@.len() ==> widths@[k] <= 0x1_0000,
    ensures
        res == truncation(widths@, sep_w as int, ellipsis_w as int, available as int, first_is_root),
{
    let n = widths.len();
    let mut total: u64 = 0;
    let mut i: usize = 0;
    while i < n
        invariant
            n == widths@.len() <= 0x1_0000,
            i <= n,
            sep_w <= 0x1_0000,
            forall|k: int| 0 <= k < widths@.len() ==> widths@[k] <= 0x1_0000,
            total == total_width(widths@.take(i as int), sep_w as int, first_is_root),
        decreases n - i,
    {
        proof {
            lemma_total_width_bound(widths@.take(i as int), sep_w as int, first_is_root, 0x2_0008);
            assert(widths@.take(i + 1).drop_last() == widths@.take(i as int));
        }
        let gap: u64 = if i == 0 {
            0
        } else if i == 1 && first_is_root {
            ROOT_SEPARATOR_WIDTH as u64
        } else {
            sep_w as u64
        };
        total = total + gap + widths[i] as u64;
        i = i + 1;
    }
    assert(widths@.take(n as int) == widths@);
    if !(total > available as u64 && n > 2) {
        return (0, false);
    }
    let mut running: u64 = ellipsis_w as u64 + sep_w as u64;
    let mut from: usize = n;
    let mut j: usize = n - 1;
    let mut stop = false;
    let ghost start = running as int;
    while j >= 1 && !stop
        invariant
            n == widths@.len() <= 0x1_0000,
            n > 2,
            j < n,
            from == j + 1,
            running <= available as u64 + 0x1_0000 * 3,
            sep_w <= 0x1_0000,
            forall|k: int| 0 <= k < widths@.len() ==> widths@[k] <= 0x1_0000,
            fit_from(widths@, sep_w as int, available as int, start, (n - 1) as int) == fit_from(
                widths@,
                sep_w as int,
                available as int,
                running as int,
                j as int,
            ),
            stop ==> fit_from(widths@, sep_w as int, available as int, running as int, j as int) == j + 1,
        decreases j + if stop { 0usize } else { 1usize },
    {
        let w = widths[j] as u64 + sep_w as u64;
        if running + w <= available as u64 {
            running = running + w;
            from = j;
            j = j - 1;
        } else {
            stop = true;
        }
    }
    proof {
        lemma_fit_from_range(widths@, sep_w as int, available as int, running as int, j as int);
    }
    if from > 1 {
        (from - 1, true)
    } else {
        (0, false)
    }
}

/// Breadcrumb path bar.
pub struct Breadcrumb {
    segments: Vec<Segment>,
    bounds: Rect,
    hovered: Option<usize>,
}

impl Breadcrumb {
    /// The segments.
    pub closed spec fn segs(&self) -> Seq<Segment> {
        self.segments@
    }

    /// Where the bar is.
    pub closed spec fn area(&self) -> Rect {
        self.bounds
    }

    /// The segment under the pointer.
    pub closed spec fn hover(&self) -> Option<usize> {
        self.hovered
    }

    /// Create a new breadcrumb bar, without segments.
    pub fn new(bounds: Rect) -> (res: Self)
        ensures
            res.segs().len() == 0,
            res.area() == bounds,
            res.hover() is None,
    {
        Breadcrumb { segments: Vec::new(), bounds, hovered: None }
    }

    /// The separator drawn between segments.
    pub fn separator(&self) -> (res: &'static str)
        ensures
            res@ == " / "@,
    {
        " / "
    }

    /// Update the path displayed: one segment per component, none of them
    /// drawn yet, nothing hovered.
    pub fn set_path(&mut self, path: &str)
        ensures
            segment_views(final(self).segs()) == crumbs(path@),
            forall|k: int| 0 <= k < final(self).segs().len() ==> #[trigger] final(self).segs()[k].bounds == (Rect {
                x: 0,
                y: 0,
                width: 0,
                height: 0,
            }),
            final(self).hover() is None,
            final(self).area() == old(self).area(),
    {
        let v = crate::text::chars_of(path);
        let back = back_pieces_exec(&v);
        let ghost ps = pieces(path@);
        assert(char_views(back@) == back_pieces(path@));
        let zero = Rect { x: 0, y: 0, width: 0, height: 0 };
        let mut segs: Vec<Segment> = Vec::new();
        let rooted = v.len() > 0 && v[0] == '/';
        let mut acc: String = String::new();
        if rooted {
            proof {
                reveal_strlit("/");
            }
            acc = copy_string("/");
            segs.push(Segment { text: copy_string("/"), path: copy_string("/"), bounds: zero });
            assert("/"@ =~= seq!['/']);
            assert(segs@[0].text@ == seq!['/']);
            assert(segs@[0].path@ == seq!['/']);
            assert(segment_views(segs@) =~= seq![(seq!['/'], seq!['/'])]);
        }
        let ghost root = segment_views(segs@);
        assert(acc@ == crumb_base(path@)) by {
            if !rooted {
                assert(acc@ =~= Seq::<char>::empty());
            }
        }
        let n = back.len();
        let mut k: usize = 0;
        while k < n
            invariant
                n == back@.len(),
                ps == char_views(back@).reverse(),
                root == (if has_root(path@) { seq![(seq!['/'], seq!['/'])] } else { Seq::<(Seq<char>, Seq<char>)>::empty() }),
                k <= n,
                acc@ == pushed(crumb_base(path@), ps.take(k as int)),
                segment_views(segs@) == root + Seq::new(
                    k as nat,
                    |m: int| (ps[m], pushed(crumb_base(path@), ps.take(m + 1))),
                ),
                forall|m: int| 0 <= m < segs@.len() ==> #[trigger] segs@[m].bounds == zero,
            decreases n - k,
        {
            let name = &back[n - 1 - k];
            let ghost before = segment_views(segs@);
            assert(ps[k as int] == name@);
            assert(ps.take(k + 1).drop_last() == ps.take(k as int));
            let joined = join_path(acc.as_str(), string_of(name).as_str());
            acc = joined;
            assert(ps.take(k + 1).last() == ps[k as int]);
            assert(acc@ == pushed(crumb_base(path@), ps.take(k + 1)));
            segs.push(Segment { text: string_of(name), path: copy_string(acc.as_str()), bounds: zero });
            assert(segment_views(segs@) =~= before.push((ps[k as int], acc@)));
            assert(segment_views(segs@) =~= root + Seq::new(
                (k + 1) as nat,
                |m: int| (ps[m], pushed(crumb_base(path@), ps.take(m + 1))),
            ));
            k = k + 1;
        }
        assert(ps.len() == n);
        assert(segment_views(segs@) =~= crumbs(path@));
        self.segments = segs;
        self.hovered = None;
    }

    /// Update bounds.
    pub fn set_bounds(&mut self, bounds: Rect)
        ensures
            final(self).area() == bounds,
            final(self).segs() == old(self).segs(),
            final(self).hover() == old(self).hover(),
    {
        self.bounds = bounds;
    }

    /// Record where segment `index` was drawn (for hit testing).
    pub fn set_segment_bounds(&mut self, index: usize, bounds: Rect)
        requires
            index < old(self).segs().len(),
        ensures
            final(self).segs().len() == old(self).segs().len(),
            forall|k: int| 0 <= k < final(self).segs().len() && k != index ==> #[trigger] final(self).segs()[k] == old(
                self,
            ).segs()[k],
            final(self).segs()[index as int].text == old(self).segs()[index as int].text,
            final(self).segs()[index as int].path == old(self).segs()[index as int].path,
            final(self).segs()[index as int].bounds == bounds,
            final(self).area() == old(self).area(),
            final(self).hover() == old(self).hover(),
    {
        let mut segs: Vec<Segment> = Vec::new();
        std::mem::swap(&mut segs, &mut self.segments);
        let old_seg = segs.remove(index);
        segs.insert(index, Segment { text: old_seg.text, path: old_seg.path, bounds });
        self.segments = segs;
    }

    /// The number of segments.
    pub fn segment_count(&self) -> (res: usize)
        ensures
            res == self.segs().len(),
    {
        self.segments.len()
    }

    /// The text of segment `index`.
    pub fn segment_text(&self, index: usize) -> (res: &str)
        requires
            index < self.segs().len(),
        ensures
            res@ == self.segs()[index as int].text@,
    {
        self.segments[index].text.as_str()
    }

    /// The hovered segment.
    pub fn hovered(&self) -> (res: Option<usize>)
        ensures
            res == self.hover(),
    {
        self.hovered
    }

    fn hit(&self, pos: Point) -> (res: Option<usize>)
        ensures
            res == segment_hit(self.segs(), pos, 0),
            res matches Some(k) ==> k < self.segs().len(),
    {
        let mut k: usize = 0;
        while k < self.segments.len()
            invariant
                k <= self.segments@.len(),
                segment_hit(self.segs(), pos, 0) == segment_hit(self.segs(), pos, k as int),
            decreases self.segments@.len() - k,
        {
            if self.segments[k].bounds.contains_point(pos) {
                return Some(k);
            }
            k = k + 1;
        }
        None
    }

    /// Handle mouse move for hover effects: the segment under the pointer
    /// is hovered. Returns true if hover state changed.
    pub fn on_mouse_move(&mut self, pos: Point) -> (res: bool)
        ensures
            final(self).hover() == if inside(old(self).area(), pos) {
                segment_hit(old(self).segs(), pos, 0)
            } else {
                None
            },
            res == (final(self).hover() != old(self).hover()),
            final(self).segs() == old(self).segs(),
            final(self).area() == old(self).area(),
    {
        let old_hovered = self.hovered;
        if !self.bounds.contains_point(pos) {
            self.hovered = None;
            return self.hovered != old_hovered;
        }
        self.hovered = self.hit(pos);
        self.hovered != old_hovered
    }

    /// Handle mouse click. Returns the path of the segment clicked.
    pub fn on_click(&self, pos: Point) -> (res: Option<String>)
        ensures
            match (res, if inside(self.area(), pos) { segment_hit(self.segs(), pos, 0) } else { None }) {
                (Some(p), Some(k)) => p@ == self.segs()[k as int].path@,
                (None, None) => true,
                _ => false,
            },
    {
        if !self.bounds.contains_point(pos) {
            return None;
        }
        match self.hit(pos) {
            Some(k) => Some(copy_string(self.segments[k].path.as_str())),
            None => None,
        }
    }

    /// The path and bounds of the segment at a point (for drag target
    /// detection).
    pub fn segment_at_point(&self, pos: Point) -> (res: Option<(String, Rect)>)
        ensures
            match (res, if inside(self.area(), pos) { segment_hit(self.segs(), pos, 0) } else { None }) {
                (Some((p, r)), Some(k)) => p@ == self.segs()[k as int].path@ && r == self.segs()[k as int].bounds,
                (None, None) => true,
                _ => false,
            },
    {
        if !self.bounds.contains_point(pos) {
            return None;
        }
        match self.hit(pos) {
            Some(k) => Some((copy_string(self.segments[k].path.as_str()), self.segments[k].bounds)),
            None => None,
        }
    }

    /// Clear hover state.
    pub fn clear_hover(&mut self)
        ensures
            final(self).hover() is None,
            final(self).segs() == old(self).segs(),
            final(self).area() == old(self).area(),
    {
        self.hovered = None;
    }

    /// Get back button bounds for hit testing.
    pub fn back_button_bounds(&self) -> (res: Rect)
        ensures
            res == (Rect { x: self.area().x, y: self.area().y, width: BUTTON_WIDTH, height: self.area().height }),
    {
        Rect { x: self.bounds.x, y: self.bounds.y, width: BUTTON_WIDTH, height: self.bounds.height }
    }

    /// Get forward button bounds for hit testing.
    pub fn forward_button_bounds(&self) -> (res: Rect)
        requires
            self.area().x + BUTTON_WIDTH <= i32::MAX,
        ensures
            res == (Rect {
                x: (self.area().x + BUTTON_WIDTH) as i32,
                y: self.area().y,
                width: BUTTON_WIDTH,
                height: self.area().height,
            }),
    {
        Rect { x: self.bounds.x + BUTTON_WIDTH as i32, y: self.bounds.y, width: BUTTON_WIDTH, height: self.bounds.height }
    }
}

/// Nothing is left out when the segments fit, and the first segment is
/// never left out.
pub proof fn law_truncation_keeps_root(
    widths: Seq<u32>,
    sep_w: int,
    ellipsis_w: int,
    available: int,
    first_is_root: bool,
)
    ensures
        total_width(widths, sep_w, first_is_root) <= available ==> truncation(
            widths,
            sep_w,
            ellipsis_w,
            available,
            first_is_root,
        ) == (0usize, false),
        truncation(widths, sep_w, ellipsis_w, available, first_is_root).0 < widths.len() || widths.len() == 0,
{
    let n = widths.len() as int;
    if total_width(widths, sep_w, first_is_root) > available && n > 2 {
        lemma_fit_from_range(widths, sep_w, available, ellipsis_w + sep_w, n - 1);
    }
}


/// A name of a path component: not empty, not `.`, without `/`.
pub open spec fn is_name(n: Seq<char>) -> bool {
    n.len() > 0 && n != dot() && forall|i: int| 0 <= i < n.len() ==> n[i] != '/'
}

proof fn lemma_after_last_sep(p: Seq<char>)
    ensures
        forall|j: int| last_sep(p) < j < p.len() ==> p[j] != '/',
    decreases p.len(),
{
    lemma_last_sep_range(p);
    if p.len() > 0 && p.last() != '/' {
        lemma_after_last_sep(p.drop_last());
        lemma_last_sep_range(p.drop_last());
        assert(last_sep(p) == last_sep(p.drop_last()));
        assert forall|j: int| last_sep(p) < j < p.len() implies p[j] != '/' by {
            if j < p.len() - 1 {
                assert(p.drop_last()[j] == p[j]);
            }
        }
    }
}

proof fn lemma_back_pieces_names(p: Seq<char>)
    ensures
        forall|k: int| 0 <= k < back_pieces(p).len() ==> is_name(#[trigger] back_pieces(p)[k]),
    decreases p.len(),
{
    lemma_last_sep_range(p);
    lemma_after_last_sep(p);
    let k = last_sep(p);
    let piece = last_piece(p);
    assert forall|i: int| 0 <= i < piece.len() implies piece[i] != '/' by {
        assert(piece[i] == p[k + 1 + i]);
    }
    let rest = if k < 0 { Seq::<Seq<char>>::empty() } else { back_pieces(p.take(k)) };
    if k >= 0 {
        lemma_back_pieces_names(p.take(k));
    }
    assert(back_pieces(p) == if piece.len() == 0 || piece == dot() { rest } else { seq![piece] + rest });
    if !(piece.len() == 0 || piece == dot()) {
        assert(is_name(piece));
        assert forall|m: int| 0 <= m < back_pieces(p).len() implies is_name(#[trigger] back_pieces(p)[m]) by {
            if m > 0 {
                assert(back_pieces(p)[m] == rest[m - 1]);
            }
        }
    }
}

proof fn lemma_back_pieces_empty()
    ensures
        back_pieces(Seq::<char>::empty()) == Seq::<Seq<char>>::empty(),
        back_pieces(seq!['/']) == Seq::<Seq<char>>::empty(),
{
    assert(last_piece(Seq::<char>::empty()) =~= Seq::<char>::empty());
    lemma_last_sep_is(seq!['/'], 0);
    assert(last_piece(seq!['/']) =~= Seq::<char>::empty());
    assert(seq!['/'].take(0) =~= Seq::<char>::empty());
}

proof fn lemma_back_pieces_join(base: Seq<char>, name: Seq<char>)
    requires
        base.len() > 0,
        is_name(name),
    ensures
        back_pieces(join(base, name)) == seq![name] + back_pieces(base),
        join(base, name).len() > 0,
        join(base, name)[0] == base[0],
{
    let n = base.len() as int;
    if base.last() == '/' {
        let q = base + name;
        assert(join(base, name) == q);
        lemma_last_sep_is(q, n - 1);
        assert(last_piece(q) =~= name);
        assert(q.take(n - 1) =~= base.take(n - 1));
        lemma_last_sep_is(base, n - 1);
        assert(last_piece(base) =~= Seq::<char>::empty());
    } else {
        let q = base.push('/') + name;
        assert(join(base, name) == q);
        lemma_last_sep_is(q, n);
        assert(last_piece(q) =~= name);
        assert(q.take(n) =~= base);
    }
}

proof fn lemma_pushed_root(ps: Seq<Seq<char>>)
    requires
        forall|k: int| 0 <= k < ps.len() ==> is_name(#[trigger] ps[k]),
    ensures
        pushed(seq!['/'], ps).len() > 0,
        pushed(seq!['/'], ps)[0] == '/',
        back_pieces(pushed(seq!['/'], ps)) == ps.reverse(),
    decreases ps.len(),
{
    if ps.len() == 0 {
        lemma_back_pieces_empty();
        assert(ps.reverse() =~= Seq::<Seq<char>>::empty());
    } else {
        let rest = ps.drop_last();
        assert forall|k: int| 0 <= k < rest.len() implies is_name(#[trigger] rest[k]) by {
            assert(rest[k] == ps[k]);
        }
        lemma_pushed_root(rest);
        let b = pushed(seq!['/'], rest);
        assert(is_name(ps[ps.len() - 1]));
        lemma_back_pieces_join(b, ps.last());
        assert(seq![ps.last()] + rest.reverse() =~= ps.reverse());
    }
}

/// The last segment of an absolute path leads to the path itself: clicking
/// it stays in the directory shown.
pub proof fn law_last_crumb_is_the_path(p: Seq<char>)
    requires
        has_root(p),
    ensures
        crumbs(p).len() > 0,
        same_path(crumbs(p).last().1, p),
{
    lemma_back_pieces_names(p);
    let bp = back_pieces(p);
    let ps = pieces(p);
    assert forall|k: int| 0 <= k < ps.len() implies is_name(#[trigger] ps[k]) by {
        assert(ps[k] == bp[bp.len() - 1 - k]);
    }
    lemma_pushed_root(ps);
    assert(ps.reverse() =~= bp);
    let root: Seq<(Seq<char>, Seq<char>)> = seq![(seq!['/'], seq!['/'])];
    let tail = Seq::new(ps.len(), |k: int| (ps[k], pushed(crumb_base(p), ps.take(k + 1))));
    assert(crumbs(p) == root + tail);
    if ps.len() == 0 {
        lemma_back_pieces_empty();
        assert(crumbs(p).last() == (seq!['/'], seq!['/']));
    } else {
        assert(ps.take(ps.len() as int) =~= ps);
        assert(crumbs(p).last() == tail[ps.len() - 1]);
    }
}

} // verus!
