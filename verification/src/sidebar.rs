//! The places sidebar: the standard directories, mounted volumes and the
//! user's bookmarks, with adding, removing and reordering bookmarks.
use vstd::prelude::*;
use crate::dialogs::{lines_exec, lines_of};
use crate::entry::display_name;
use crate::geometry::{inside, Point, Rect};
use crate::path::{file_name, file_name_of, path_eq, same_path};
use crate::text::{chars_of, copy_string, push_char, push_str, string_of, trim, trim_chars};

verus! {

/// Height of an entry of the sidebar.
pub const ITEM_HEIGHT: u32 = 28;

/// Padding at the top and sides.
pub const PADDING: u32 = 8;

/// Narrowest and widest the sidebar can be made.
pub const MIN_WIDTH: u32 = 120;
pub const MAX_WIDTH: u32 = 400;

/// A place or bookmark in the sidebar.
pub struct Place {
    /// Display name.
    pub name: String,
    /// Icon (text symbol).
    pub icon: String,
    /// Path to navigate to.
    pub path: String,
    /// Where it was last laid out, for hit testing.
    pub bounds: Rect,
    /// Whether this is a bookmark (can be removed).
    pub is_bookmark: bool,
}

/// What a place shows and leads to.
pub open spec fn place_view(p: Place) -> (Seq<char>, Seq<char>, Seq<char>, bool) {
    (p.name@, p.icon@, p.path@, p.is_bookmark)
}

/// The views of a list of places.
pub open spec fn places_view(s: Seq<Place>) -> Seq<(Seq<char>, Seq<char>, Seq<char>, bool)> {
    s.map_values(|p: Place| place_view(p))
}

/// The user's standard directories, where known, and the trash's files
/// directory where it exists.
pub struct StandardDirs {
    pub home: Option<String>,
    pub desktop: Option<String>,
    pub documents: Option<String>,
    pub downloads: Option<String>,
    pub music: Option<String>,
    pub pictures: Option<String>,
    pub videos: Option<String>,
    pub trash_files: Option<String>,
}

/// A place (name, icon, path) where the directory is known.
pub open spec fn maybe(d: Option<String>, name: Seq<char>, icon: Seq<char>) -> Seq<(Seq<char>, Seq<char>, Seq<char>, bool)> {
    match d {
        Some(p) => seq![(name, icon, p@, false)],
        None => Seq::empty(),
    }
}

/// The standard places in their order: Home, Desktop, Documents,
/// Downloads, Music, Pictures, Videos (each where known), the root
/// Filesystem, and the Trash where it exists.
pub open spec fn standard_places(d: StandardDirs) -> Seq<(Seq<char>, Seq<char>, Seq<char>, bool)> {
    maybe(d.home, "Home"@, "~"@) + maybe(d.desktop, "Desktop"@, "D"@) + maybe(d.documents, "Documents"@, "d"@)
        + maybe(d.downloads, "Downloads"@, "v"@) + maybe(d.music, "Music"@, "m"@) + maybe(
        d.pictures,
        "Pictures"@,
        "p"@,
    ) + maybe(d.videos, "Videos"@, "V"@) + seq![("Filesystem"@, "/"@, "/"@, false)] + maybe(
        d.trash_files,
        "Trash"@,
        "x"@,
    )
}

/// The name of a volume: the last component of its path, else "Volume".
pub open spec fn volume_name(p: Seq<char>) -> Seq<char> {
    match file_name(p) {
        Some(n) => n,
        None => "Volume"@,
    }
}

/// The places after adding these volumes in turn, each unless a place
/// already leads to the same path.
pub open spec fn with_volumes(
    places: Seq<(Seq<char>, Seq<char>, Seq<char>, bool)>,
    vols: Seq<Seq<char>>,
) -> Seq<(Seq<char>, Seq<char>, Seq<char>, bool)>
    decreases vols.len(),
{
    if vols.len() == 0 {
        places
    } else {
        let before = with_volumes(places, vols.drop_last());
        let v = vols.last();
        if exists|k: int| 0 <= k < before.len() && same_path(#[trigger] before[k].2, v) {
            before
        } else {
            before.push((volume_name(v), "#"@, v, false))
        }
    }
}

/// The texts of a list of strings.
pub open spec fn texts_of(v: Seq<String>) -> Seq<Seq<char>> {
    v.map_values(|s: String| s@)
}

fn place(name: &str, icon: &str, path: &str, is_bookmark: bool) -> (res: Place)
    ensures
        place_view(res) == (name@, icon@, path@, is_bookmark),
        res.bounds == (Rect { x: 0, y: 0, width: 0, height: 0 }),
{
    Place {
        name: copy_string(name),
        icon: copy_string(icon),
        path: copy_string(path),
        bounds: Rect { x: 0, y: 0, width: 0, height: 0 },
        is_bookmark,
    }
}

fn push_maybe(v: &mut Vec<Place>, d: &Option<String>, name: &str, icon: &str)
    ensures
        places_view(final(v)@) == places_view(old(v)@) + maybe(*d, name@, icon@),
{
    let ghost before = places_view(v@);
    match d {
        Some(p) => {
            v.push(place(name, icon, p.as_str(), false));
            assert(places_view(v@) =~= before + maybe(*d, name@, icon@));
        },
        None => {
            assert(places_view(v@) =~= before + maybe(*d, name@, icon@));
        },
    }
}

/// The standard places followed by the mounted volumes (directories found
/// under the mount points, in the order found).
pub fn default_places(dirs: &StandardDirs, volumes: &Vec<String>) -> (res: Vec<Place>)
    ensures
        places_view(res@) == with_volumes(standard_places(*dirs), texts_of(volumes@)),
{
    let mut v: Vec<Place> = Vec::new();
    assert(places_view(v@) =~= Seq::empty());
    push_maybe(&mut v, &dirs.home, "Home", "~");
    push_maybe(&mut v, &dirs.desktop, "Desktop", "D");
    push_maybe(&mut v, &dirs.documents, "Documents", "d");
    push_maybe(&mut v, &dirs.downloads, "Downloads", "v");
    push_maybe(&mut v, &dirs.music, "Music", "m");
    push_maybe(&mut v, &dirs.pictures, "Pictures", "p");
    push_maybe(&mut v, &dirs.videos, "Videos", "V");
    let ghost before = places_view(v@);
    v.push(place("Filesystem", "/", "/", false));
    assert(places_view(v@) =~= before + seq![("Filesystem"@, "/"@, "/"@, false)]);
    push_maybe(&mut v, &dirs.trash_files, "Trash", "x");
    let ghost std = places_view(v@);
    assert(std =~= standard_places(*dirs));
    let ghost vols = texts_of(volumes@);
    let mut i: usize = 0;
    while i < volumes.len()
        invariant
            i <= volumes@.len(),
            vols == texts_of(volumes@),
            std == standard_places(*dirs),
            places_view(v@) == with_volumes(std, vols.take(i as int)),
        decreases volumes@.len() - i,
    {
        let path = volumes[i].as_str();
        assert(vols.take(i + 1).drop_last() == vols.take(i as int));
        assert(vols.take(i + 1).last() == path@);
        let ghost before = places_view(v@);
        let mut dup = false;
        let mut k: usize = 0;
        while k < v.len()
            invariant
                k <= v@.len(),
                before == places_view(v@),
                !dup ==> forall|j: int| 0 <= j < k ==> !same_path(#[trigger] before[j].2, path@),
                dup ==> exists|j: int| 0 <= j < before.len() && same_path(#[trigger] before[j].2, path@),
            decreases v@.len() - k,
        {
            if path_eq(v[k].path.as_str(), path) {
                assert(before[k as int].2 == v@[k as int].path@);
                dup = true;
            }
            k = k + 1;
        }
        if !dup {
            let name = match file_name_of(path) {
                Some(n) => n,
                None => copy_string("Volume"),
            };
            v.push(place(name.as_str(), "#", path, false));
            assert(places_view(v@) =~= before.push((volume_name(path@), "#"@, path@, false)));
        }
        i = i + 1;
    }
    assert(vols.take(volumes@.len() as int) == vols);
    v
}

/// The paths listed in the bookmarks file: its lines, trimmed, without the
/// empty ones and the comments (starting with `#`).
pub open spec fn listed(lines: Seq<Seq<char>>) -> Seq<Seq<char>>
    decreases lines.len(),
{
    if lines.len() == 0 {
        Seq::empty()
    } else {
        let rest = listed(lines.drop_last());
        let l = trim(lines.last());
        if l.len() == 0 || l[0] == '#' { rest } else { rest.push(l) }
    }
}

/// The paths listed in a bookmarks file.
pub fn parse_bookmarks(text: &str) -> (res: Vec<String>)
    ensures
        texts_of(res@) == listed(lines_of(text@)),
{
    let t = chars_of(text);
    let ls = lines_exec(&t);
    let ghost lv = ls@.map_values(|v: Vec<char>| v@);
    let mut out: Vec<String> = Vec::new();
    let mut k: usize = 0;
    while k < ls.len()
        invariant
            k <= ls@.len(),
            lv == ls@.map_values(|v: Vec<char>| v@),
            lv == lines_of(text@) || lv == lines_of(t@),
            t@ == text@,
            texts_of(out@) == listed(lv.take(k as int)),
        decreases ls@.len() - k,
    {
        assert(lv.take(k + 1).drop_last() == lv.take(k as int));
        assert(lv.take(k + 1).last() == ls@[k as int]@);
        let l = trim_chars(&ls[k]);
        if !(l.len() == 0 || l[0] == '#') {
            let ghost before = texts_of(out@);
            out.push(string_of(&l));
            assert(texts_of(out@) =~= before.push(l@));
        }
        k = k + 1;
    }
    assert(lv.take(ls@.len() as int) == lv);
    out
}

/// The place of a bookmark: named after the path's last component (or the
/// whole path where there is none), icon `*`.
pub open spec fn bookmark_view(p: Seq<char>) -> (Seq<char>, Seq<char>, Seq<char>, bool) {
    (display_name(p), "*"@, p, true)
}

/// The place of a bookmark for this path.
pub fn bookmark_place(path: &str) -> (res: Place)
    ensures
        place_view(res) == bookmark_view(path@),
        res.bounds == (Rect { x: 0, y: 0, width: 0, height: 0 }),
{
    let name = match file_name_of(path) {
        Some(n) => n,
        None => copy_string(path),
    };
    place(name.as_str(), "*", path, true)
}

/// The text of the bookmarks file: one path per line.
pub open spec fn bookmarks_file(paths: Seq<Seq<char>>) -> Seq<char>
    decreases paths.len(),
{
    if paths.len() == 0 {
        Seq::empty()
    } else {
        bookmarks_file(paths.drop_last()) + paths.last().push('\n')
    }
}

/// Whether any of the keys names the same path as `key`.
pub open spec fn any_same(keys: Seq<Seq<char>>, key: Seq<char>) -> bool {
    exists|k: int| 0 <= k < keys.len() && same_path(#[trigger] keys[k], key)
}

fn any_same_exec(keys: &Vec<String>, key: &str) -> (res: bool)
    ensures
        res == any_same(texts_of(keys@), key@),
{
    let ghost kv = texts_of(keys@);
    let mut i: usize = 0;
    while i < keys.len()
        invariant
            i <= keys@.len(),
            kv == texts_of(keys@),
            forall|j: int| 0 <= j < i ==> !same_path(#[trigger] kv[j], key@),
        decreases keys@.len() - i,
    {
        if path_eq(keys[i].as_str(), key) {
            assert(kv[i as int] == keys@[i as int]@);
            return true;
        }
        i = i + 1;
    }
    false
}

/// The entries kept after removing those whose key names `key`.
pub open spec fn kept(entries: Seq<(Seq<char>, Seq<char>, Seq<char>, bool)>, keys: Seq<Seq<char>>, key: Seq<char>) -> Seq<
    (Seq<char>, Seq<char>, Seq<char>, bool),
>
    decreases entries.len(),
{
    if entries.len() == 0 || keys.len() != entries.len() {
        entries
    } else {
        let rest = kept(entries.drop_last(), keys.drop_last(), key);
        if same_path(keys.last(), key) { rest } else { rest.push(entries.last()) }
    }
}

/// Where a bookmark dragged from `from` lands when dropped before slot
/// `to`: nothing moves where it would land where it is.
pub open spec fn reordered<T>(s: Seq<T>, from: int, to: int) -> Seq<T> {
    if from != to && to != from + 1 && s.len() > 0 && 0 <= from < s.len() && 0 <= to <= s.len() {
        let item = s[from];
        let rest = s.remove(from);
        rest.insert(if to > from { to - 1 } else { to }, item)
    } else {
        s
    }
}

/// The sidebar.
pub struct Sidebar {
    places: Vec<Place>,
    bookmarks: Vec<Place>,
    bounds: Rect,
    hovered: Option<usize>,
    visible: bool,
    item_height: u32,
    padding: u32,
    bookmarks_path: String,
    bookmarks_section_y: i32,
    drop_highlight: bool,
    bookmark_drag_index: Option<usize>,
    bookmark_drop_index: Option<usize>,
    bookmark_drag_start: Option<Point>,
    bookmark_drag_active: bool,
}

/// What the sidebar holds.
pub struct SidebarState {
    pub places: Seq<Place>,
    pub bookmarks: Seq<Place>,
    pub bounds: Rect,
    pub hovered: Option<usize>,
    pub visible: bool,
    pub bookmarks_path: Seq<char>,
    pub section_y: i32,
    pub drop_highlight: bool,
    pub drag_index: Option<usize>,
    pub drop_index: Option<usize>,
    pub drag_start: Option<Point>,
    pub drag_active: bool,
}

/// The sidebar's rectangles stay well inside `i32`.
pub open spec fn sidebar_ok(s: SidebarState) -> bool {
    &&& -0x2000_0000 <= s.bounds.x <= 0x2000_0000
    &&& -0x2000_0000 <= s.bounds.y <= 0x2000_0000
    &&& s.bounds.width <= 0x2000_0000
    &&& s.bounds.height <= 0x2000_0000
    &&& -0x4000_0000 <= s.section_y <= 0x4000_0000
    &&& s.places.len() + s.bookmarks.len() <= 0x10_0000
}

/// The entry (among places, then bookmarks) at a combined index.
pub open spec fn item_at(s: SidebarState, i: int) -> Place {
    if i < s.places.len() { s.places[i] } else { s.bookmarks[i - s.places.len()] }
}

/// The first entry drawn over the point.
pub open spec fn item_hit(s: SidebarState, p: Point, k: int) -> Option<usize>
    decreases s.places.len() + s.bookmarks.len() - k,
{
    if k < 0 || k >= s.places.len() + s.bookmarks.len() {
        None
    } else if inside(item_at(s, k).bounds, p) {
        Some(k as usize)
    } else {
        item_hit(s, p, k + 1)
    }
}

/// The first bookmark drawn over the point.
pub open spec fn bookmark_hit(b: Seq<Place>, p: Point, k: int) -> Option<usize>
    decreases b.len() - k,
{
    if k < 0 || k >= b.len() {
        None
    } else if inside(b[k].bounds, p) {
        Some(k as usize)
    } else {
        bookmark_hit(b, p, k + 1)
    }
}

/// The slot a dragged bookmark would drop into for a pointer at height
/// `y`: after every bookmark whose middle is above it.
pub open spec fn drop_slot(b: Seq<Place>, y: int) -> int
    decreases b.len(),
{
    if b.len() == 0 {
        0
    } else if y > b.last().bounds.y + b.last().bounds.height / 2 {
        b.len() as int
    } else {
        drop_slot(b.drop_last(), y)
    }
}

impl View for Sidebar {
    type V = SidebarState;

    closed spec fn view(&self) -> SidebarState {
        SidebarState {
            places: self.places@,
            bookmarks: self.bookmarks@,
            bounds: self.bounds,
            hovered: self.hovered,
            visible: self.visible,
            bookmarks_path: self.bookmarks_path@,
            section_y: self.bookmarks_section_y,
            drop_highlight: self.drop_highlight,
            drag_index: self.bookmark_drag_index,
            drop_index: self.bookmark_drop_index,
            drag_start: self.bookmark_drag_start,
            drag_active: self.bookmark_drag_active,
        }
    }
}

impl Sidebar {
    /// Create a sidebar with these places and bookmarks, shown; the
    /// bookmarks are saved to `bookmarks_path`.
    pub fn new(bounds: Rect, places: Vec<Place>, bookmarks: Vec<Place>, bookmarks_path: String) -> (res: Self)
        requires
            -0x2000_0000 <= bounds.x <= 0x2000_0000,
            -0x2000_0000 <= bounds.y <= 0x2000_0000,
            bounds.width <= 0x2000_0000,
            bounds.height <= 0x2000_0000,
            places@.len() + bookmarks@.len() <= 0x10_0000,
        ensures
            sidebar_ok(res@),
            res@ == (SidebarState {
                places: places@,
                bookmarks: bookmarks@,
                bounds,
                hovered: None,
                visible: true,
                bookmarks_path: bookmarks_path@,
                section_y: 0,
                drop_highlight: false,
                drag_index: None,
                drop_index: None,
                drag_start: None,
                drag_active: false,
            }),
    {
        Sidebar {
            places,
            bookmarks,
            bounds,
            hovered: None,
            visible: true,
            item_height: ITEM_HEIGHT,
            padding: PADDING,
            bookmarks_path,
            bookmarks_section_y: 0,
            drop_highlight: false,
            bookmark_drag_index: None,
            bookmark_drop_index: None,
            bookmark_drag_start: None,
            bookmark_drag_active: false,
        }
    }

    /// The standard places and volumes.
    pub fn places(&self) -> (res: &Vec<Place>)
        ensures
            res@ == self@.places,
    {
        &self.places
    }

    /// The bookmarks, in their order.
    pub fn bookmarks(&self) -> (res: &Vec<Place>)
        ensures
            res@ == self@.bookmarks,
    {
        &self.bookmarks
    }

    /// Where the bookmarks are saved.
    pub fn bookmarks_path(&self) -> (res: &str)
        ensures
            res@ == self@.bookmarks_path,
    {
        self.bookmarks_path.as_str()
    }

    /// The text to save in the bookmarks file.
    pub fn bookmarks_text(&self) -> (res: String)
        ensures
            res@ == bookmarks_file(self@.bookmarks.map_values(|p: Place| p.path@)),
    {
        let ghost ps = self@.bookmarks.map_values(|p: Place| p.path@);
        let mut s = String::new();
        let mut i: usize = 0;
        while i < self.bookmarks.len()
            invariant
                i <= self.bookmarks@.len(),
                ps == self@.bookmarks.map_values(|p: Place| p.path@),
                s@ == bookmarks_file(ps.take(i as int)),
            decreases self.bookmarks@.len() - i,
        {
            assert(ps.take(i + 1).drop_last() == ps.take(i as int));
            assert(ps.take(i + 1).last() == self.bookmarks@[i as int].path@);
            push_str(&mut s, self.bookmarks[i].path.as_str());
            push_char(&mut s, '\n');
            i = i + 1;
        }
        assert(ps.take(self.bookmarks@.len() as int) == ps);
        s
    }

    /// Whether a path is bookmarked: `key` is its canonical form and
    /// `bookmark_keys` those of the bookmarks, in order.
    pub fn is_bookmarked(&self, key: &str, bookmark_keys: &Vec<String>) -> (res: bool)
        ensures
            res == any_same(texts_of(bookmark_keys@), key@),
    {
        any_same_exec(bookmark_keys, key)
    }

    /// Add a bookmark for the path whose canonical form is `key`, unless a
    /// bookmark or a place (with canonical forms `bookmark_keys` and
    /// `place_keys`) already leads there. Returns whether it was added (the
    /// caller then saves the bookmarks).
    pub fn add_bookmark(&mut self, key: &str, bookmark_keys: &Vec<String>, place_keys: &Vec<String>) -> (res: bool)
        requires
            sidebar_ok(old(self)@),
            old(self)@.places.len() + old(self)@.bookmarks.len() < 0x10_0000,
        ensures
            sidebar_ok(final(self)@),
            res == !(any_same(texts_of(bookmark_keys@), key@) || any_same(texts_of(place_keys@), key@)),
            !res ==> final(self)@ == old(self)@,
            res ==> final(self)@ == (SidebarState { bookmarks: final(self)@.bookmarks, ..old(self)@ }),
            res ==> final(self)@.bookmarks.len() == old(self)@.bookmarks.len() + 1,
            res ==> final(self)@.bookmarks.drop_last() == old(self)@.bookmarks,
            res ==> place_view(final(self)@.bookmarks.last()) == bookmark_view(key@),
    {
        if any_same_exec(bookmark_keys, key) || any_same_exec(place_keys, key) {
            return false;
        }
        self.bookmarks.push(bookmark_place(key));
        assert(self@.bookmarks.drop_last() =~= old(self)@.bookmarks);
        true
    }

    /// Remove the bookmarks leading to the path whose canonical form is
    /// `key` (`bookmark_keys` holds those of the bookmarks, in order).
    /// Returns whether any was removed (the caller then saves them).
    pub fn remove_bookmark(&mut self, key: &str, bookmark_keys: &Vec<String>) -> (res: bool)
        requires
            sidebar_ok(old(self)@),
            bookmark_keys@.len() == old(self)@.bookmarks.len(),
        ensures
            sidebar_ok(final(self)@),
            places_view(final(self)@.bookmarks) == kept(places_view(old(self)@.bookmarks), texts_of(bookmark_keys@), key@),
            res == (final(self)@.bookmarks.len() != old(self)@.bookmarks.len()),
            final(self)@ == (SidebarState { bookmarks: final(self)@.bookmarks, ..old(self)@ }),
    {
        let ghost eb = self@.bookmarks;
        let ghost ev = places_view(self@.bookmarks);
        let ghost kv = texts_of(bookmark_keys@);
        let mut all: Vec<Place> = Vec::new();
        std::mem::swap(&mut all, &mut self.bookmarks);
        let n = all.len();
        let mut out: Vec<Place> = Vec::new();
        let mut taken: Vec<Place> = Vec::new();
        let mut i: usize = 0;
        proof {
            assert(ev.take(0) =~= Seq::<(Seq<char>, Seq<char>, Seq<char>, bool)>::empty());
            assert(places_view(out@) =~= Seq::<(Seq<char>, Seq<char>, Seq<char>, bool)>::empty());
        }
        while all.len() > 0
            invariant
                n == ev.len(),
                kv.len() == n,
                kv == texts_of(bookmark_keys@),
                all@.len() + i == n,
                ev == places_view(eb),
                all@ == eb.skip(i as int),
                places_view(out@) == kept(ev.take(i as int), kv.take(i as int), key@),
                out@.len() <= i,
            decreases all@.len(),
        {
            let ghost before = places_view(out@);
            let p = all.remove(0);
            assert(p == eb[i as int]);
            assert(place_view(p) == ev[i as int]);
            assert(ev.take(i + 1).drop_last() == ev.take(i as int));
            assert(kv.take(i + 1).drop_last() == kv.take(i as int));
            assert(ev.take(i + 1).last() == ev[i as int]);
            assert(kv.take(i + 1).last() == kv[i as int]);
            assert(kv[i as int] == bookmark_keys@[i as int]@);
            if path_eq(bookmark_keys[i].as_str(), key) {
                taken.push(p);
            } else {
                out.push(p);
                assert(places_view(out@) =~= before.push(ev[i as int]));
            }
            assert(all@ =~= eb.skip(i + 1));
            i = i + 1;
        }
        assert(ev.take(n as int) == ev);
        assert(kv.take(n as int) == kv);
        let removed = out.len() != n;
        self.bookmarks = out;
        removed
    }

    /// Add the bookmark where the path is not bookmarked, else remove it.
    /// Returns whether it is bookmarked now (as the caller asked for).
    pub fn toggle_bookmark(&mut self, key: &str, bookmark_keys: &Vec<String>, place_keys: &Vec<String>) -> (res: bool)
        requires
            sidebar_ok(old(self)@),
            bookmark_keys@.len() == old(self)@.bookmarks.len(),
            old(self)@.places.len() + old(self)@.bookmarks.len() < 0x10_0000,
        ensures
            sidebar_ok(final(self)@),
            res == !any_same(texts_of(bookmark_keys@), key@),
            res ==> final(self)@ == (SidebarState {
                bookmarks: if any_same(texts_of(place_keys@), key@) {
                    old(self)@.bookmarks
                } else {
                    final(self)@.bookmarks
                },
                ..old(self)@
            }),
            !res ==> places_view(final(self)@.bookmarks) == kept(
                places_view(old(self)@.bookmarks),
                texts_of(bookmark_keys@),
                key@,
            ),
    {
        if self.is_bookmarked(key, bookmark_keys) {
            self.remove_bookmark(key, bookmark_keys);
            false
        } else {
            self.add_bookmark(key, bookmark_keys, place_keys);
            true
        }
    }

    /// Lay the entries out below each other from the top, each as wide as
    /// the sidebar: the places, a gap with a separator, then (after a
    /// header `header_height` high) the bookmarks.
    pub fn layout(&mut self, header_height: i32)
        requires
            sidebar_ok(old(self)@),
            0 <= header_height <= 0x1000,
        ensures
            sidebar_ok(final(self)@),
            final(self)@.places.len() == old(self)@.places.len(),
            final(self)@.bookmarks.len() == old(self)@.bookmarks.len(),
            final(self)@.section_y == old(self)@.bounds.y + PADDING + ITEM_HEIGHT * old(self)@.places.len() + 16,
            forall|i: int|
                0 <= i < old(self)@.places.len() ==> {
                    &&& place_view(#[trigger] final(self)@.places[i]) == place_view(old(self)@.places[i])
                    &&& final(self)@.places[i].bounds == (Rect {
                        x: old(self)@.bounds.x,
                        y: (old(self)@.bounds.y + PADDING + ITEM_HEIGHT * i) as i32,
                        width: old(self)@.bounds.width,
                        height: ITEM_HEIGHT,
                    })
                },
            forall|j: int|
                0 <= j < old(self)@.bookmarks.len() ==> {
                    &&& place_view(#[trigger] final(self)@.bookmarks[j]) == place_view(old(self)@.bookmarks[j])
                    &&& final(self)@.bookmarks[j].bounds == (Rect {
                        x: old(self)@.bounds.x,
                        y: (final(self)@.section_y + header_height + ITEM_HEIGHT * j) as i32,
                        width: old(self)@.bounds.width,
                        height: ITEM_HEIGHT,
                    })
                },
            final(self)@ == (SidebarState {
                places: final(self)@.places,
                bookmarks: final(self)@.bookmarks,
                section_y: final(self)@.section_y,
                ..old(self)@
            }),
    {
        let ghost op = self@.places;
        let ghost ob = self@.bookmarks;
        let x = self.bounds.x;
        let w = self.bounds.width;
        let mut y: i64 = self.bounds.y as i64 + PADDING as i64;
        let mut all: Vec<Place> = Vec::new();
        std::mem::swap(&mut all, &mut self.places);
        let np = all.len();
        let mut out: Vec<Place> = Vec::new();
        let mut i: usize = 0;
        while all.len() > 0
            invariant
                np == op.len(),
                np <= 0x10_0000,
                all@.len() + i == np,
                all@ == op.skip(i as int),
                out@.len() == i,
                y == self.bounds.y + PADDING + ITEM_HEIGHT * i,
                -0x2000_0000 <= self.bounds.y <= 0x2000_0000,
                x == self.bounds.x,
                w == self.bounds.width,
                forall|k: int|
                    0 <= k < i ==> {
                        &&& place_view(#[trigger] out@[k]) == place_view(op[k])
                        &&& out@[k].bounds == (Rect {
                            x,
                            y: (self.bounds.y + PADDING + ITEM_HEIGHT * k) as i32,
                            width: w,
                            height: ITEM_HEIGHT,
                        })
                    },
            decreases all@.len(),
        {
            let p = all.remove(0);
            assert(p == op[i as int]);
            out.push(Place { name: p.name, icon: p.icon, path: p.path, bounds: Rect { x, y: y as i32, width: w, height: ITEM_HEIGHT }, is_bookmark: p.is_bookmark });
            assert(all@ =~= op.skip(i + 1));
            y = y + ITEM_HEIGHT as i64;
            i = i + 1;
        }
        self.places = out;
        y = y + 16;
        self.bookmarks_section_y = y as i32;
        let section = y;
        y = y + header_height as i64;
        let mut all: Vec<Place> = Vec::new();
        std::mem::swap(&mut all, &mut self.bookmarks);
        let nb = all.len();
        let mut out: Vec<Place> = Vec::new();
        let mut j: usize = 0;
        while all.len() > 0
            invariant
                nb == ob.len(),
                np + nb <= 0x10_0000,
                all@.len() + j == nb,
                all@ == ob.skip(j as int),
                out@.len() == j,
                section == self.bookmarks_section_y,
                -0x4000_0000 <= section <= 0x4000_0000,
                y == section + header_height + ITEM_HEIGHT * j,
                0 <= header_height <= 0x1000,
                x == self.bounds.x,
                w == self.bounds.width,
                forall|k: int|
                    0 <= k < j ==> {
                        &&& place_view(#[trigger] out@[k]) == place_view(ob[k])
                        &&& out@[k].bounds == (Rect {
                            x,
                            y: (section + header_height + ITEM_HEIGHT * k) as i32,
                            width: w,
                            height: ITEM_HEIGHT,
                        })
                    },
            decreases all@.len(),
        {
            let p = all.remove(0);
            assert(p == ob[j as int]);
            out.push(Place { name: p.name, icon: p.icon, path: p.path, bounds: Rect { x, y: y as i32, width: w, height: ITEM_HEIGHT }, is_bookmark: p.is_bookmark });
            assert(all@ =~= ob.skip(j + 1));
            y = y + ITEM_HEIGHT as i64;
            j = j + 1;
        }
        self.bookmarks = out;
    }

    fn hit(&self, pos: Point) -> (res: Option<usize>)
        requires
            sidebar_ok(self@),
        ensures
            res == item_hit(self@, pos, 0),
            res matches Some(k) ==> k < self@.places.len() + self@.bookmarks.len(),
    {
        let np = self.places.len();
        let total = np + self.bookmarks.len();
        let mut k: usize = 0;
        while k < total
            invariant
                np == self@.places.len(),
                total == self@.places.len() + self@.bookmarks.len(),
                k <= total,
                item_hit(self@, pos, 0) == item_hit(self@, pos, k as int),
            decreases total - k,
        {
            let b = if k < np {
                self.places[k].bounds
            } else {
                self.bookmarks[k - np].bounds
            };
            assert(b == item_at(self@, k as int).bounds);
            if b.contains_point(pos) {
                return Some(k);
            }
            k = k + 1;
        }
        None
    }

    /// Handle mouse move for hover effects. Returns true if hover state changed.
    pub fn on_mouse_move(&mut self, pos: Point) -> (res: bool)
        requires
            sidebar_ok(old(self)@),
        ensures
            final(self)@ == (SidebarState {
                hovered: if old(self)@.visible && inside(old(self)@.bounds, pos) {
                    item_hit(old(self)@, pos, 0)
                } else {
                    None
                },
                ..old(self)@
            }),
            res == (final(self)@.hovered != old(self)@.hovered),
    {
        let old_hovered = self.hovered;
        if !self.visible || !self.bounds.contains_point(pos) {
            self.hovered = None;
            return self.hovered != old_hovered;
        }
        self.hovered = self.hit(pos);
        self.hovered != old_hovered
    }

    /// Handle mouse scroll. The sidebar does not scroll: nothing changes.
    pub fn on_scroll(&mut self, _delta_y: i32) -> (res: bool)
        ensures
            !res,
            final(self)@ == old(self)@,
    {
        false
    }

    /// Handle mouse click. Returns the path of the entry clicked.
    pub fn on_click(&self, pos: Point) -> (res: Option<String>)
        requires
            sidebar_ok(self@),
        ensures
            match (res, if self@.visible && inside(self@.bounds, pos) { item_hit(self@, pos, 0) } else { None }) {
                (Some(p), Some(k)) => p@ == item_at(self@, k as int).path@,
                (None, None) => true,
                _ => false,
            },
    {
        if !self.visible || !self.bounds.contains_point(pos) {
            return None;
        }
        match self.hit(pos) {
            Some(k) => {
                let p = if k < self.places.len() {
                    copy_string(self.places[k].path.as_str())
                } else {
                    copy_string(self.bookmarks[k - self.places.len()].path.as_str())
                };
                Some(p)
            },
            None => None,
        }
    }

    /// Clear hover state.
    pub fn clear_hover(&mut self)
        ensures
            final(self)@ == (SidebarState { hovered: None, ..old(self)@ }),
    {
        self.hovered = None;
    }

    /// The hovered entry (among places, then bookmarks).
    pub fn hovered(&self) -> (res: Option<usize>)
        ensures
            res == self@.hovered,
    {
        self.hovered
    }

    fn bookmark_index_at_point(&self, pos: Point) -> (res: Option<usize>)
        ensures
            res == bookmark_hit(self@.bookmarks, pos, 0),
    {
        let mut k: usize = 0;
        while k < self.bookmarks.len()
            invariant
                k <= self@.bookmarks.len(),
                bookmark_hit(self@.bookmarks, pos, 0) == bookmark_hit(self@.bookmarks, pos, k as int),
            decreases self@.bookmarks.len() - k,
        {
            if self.bookmarks[k].bounds.contains_point(pos) {
                return Some(k);
            }
            k = k + 1;
        }
        None
    }

    /// Start dragging a bookmark where the pointer is on one. Returns
    /// whether a drag started (it becomes active once the pointer moves).
    pub fn start_bookmark_drag(&mut self, pos: Point) -> (res: bool)
        ensures
            res == (old(self)@.visible && inside(old(self)@.bounds, pos) && bookmark_hit(
                old(self)@.bookmarks,
                pos,
                0,
            ) is Some),
            !res ==> final(self)@ == old(self)@,
            res ==> final(self)@ == (SidebarState {
                drag_index: bookmark_hit(old(self)@.bookmarks, pos, 0),
                drag_start: Some(pos),
                drag_active: false,
                drop_index: None,
                ..old(self)@
            }),
    {
        if !self.visible || !self.bounds.contains_point(pos) {
            return false;
        }
        match self.bookmark_index_at_point(pos) {
            Some(index) => {
                self.bookmark_drag_index = Some(index);
                self.bookmark_drag_start = Some(pos);
                self.bookmark_drag_active = false;
                self.bookmark_drop_index = None;
                true
            },
            None => false,
        }
    }

    /// Follow the pointer during a bookmark drag: the drag becomes active
    /// once the pointer is more than 5 pixels away from where it started;
    /// then the slot it would drop into follows the pointer (none outside
    /// the bookmarks section). Returns whether the drag is active.
    pub fn update_bookmark_drag(&mut self, pos: Point) -> (res: bool)
        requires
            sidebar_ok(old(self)@),
        ensures
            sidebar_ok(final(self)@),
            old(self)@.drag_index is None ==> !res && final(self)@ == old(self)@,
            old(self)@.drag_index is Some ==> {
                let active = old(self)@.drag_active || match old(self)@.drag_start {
                    Some(s) => (if pos.x >= s.x { pos.x - s.x } else { s.x - pos.x }) > 5 || (if pos.y >= s.y {
                        pos.y - s.y
                    } else {
                        s.y - pos.y
                    }) > 5,
                    None => false,
                };
                &&& res == active
                &&& final(self)@ == (SidebarState {
                    drag_active: active,
                    drop_index: if !active {
                        old(self)@.drop_index
                    } else if pos.y < old(self)@.section_y || !inside(old(self)@.bounds, pos) {
                        None
                    } else {
                        Some(drop_slot(old(self)@.bookmarks, pos.y as int) as usize)
                    },
                    ..old(self)@
                })
            },
    {
        if self.bookmark_drag_index.is_none() {
            return false;
        }
        if !self.bookmark_drag_active {
            if let Some(start) = self.bookmark_drag_start {
                let dx: i64 = if pos.x >= start.x {
                    pos.x as i64 - start.x as i64
                } else {
                    start.x as i64 - pos.x as i64
                };
                let dy: i64 = if pos.y >= start.y {
                    pos.y as i64 - start.y as i64
                } else {
                    start.y as i64 - pos.y as i64
                };
                if dx > 5 || dy > 5 {
                    self.bookmark_drag_active = true;
                }
            }
        }
        if !self.bookmark_drag_active {
            return false;
        }
        if pos.y < self.bookmarks_section_y || !self.bounds.contains_point(pos) {
            self.bookmark_drop_index = None;
        } else {
            let mut slot: usize = 0;
            let mut i: usize = 0;
            while i < self.bookmarks.len()
                invariant
                    i <= self@.bookmarks.len() <= 0x10_0000,
                    slot <= i,
                    slot as int == drop_slot(self@.bookmarks.take(i as int), pos.y as int),
                decreases self@.bookmarks.len() - i,
            {
                let b = self.bookmarks[i].bounds;
                let mid: i64 = b.y as i64 + b.height as i64 / 2;
                assert(self@.bookmarks.take(i + 1).drop_last() == self@.bookmarks.take(i as int));
                assert(self@.bookmarks.take(i + 1).last() == self@.bookmarks[i as int]);
                if pos.y as i64 > mid {
                    slot = i + 1;
                }
                i = i + 1;
            }
            assert(self@.bookmarks.take(self@.bookmarks.len() as int) == self@.bookmarks);
            self.bookmark_drop_index = Some(slot);
        }
        true
    }

    /// End a bookmark drag: an active drag with a slot moves the bookmark
    /// there (unless that leaves it where it is). Returns whether the
    /// bookmarks were reordered (the caller then saves them).
    pub fn complete_bookmark_drag(&mut self) -> (res: bool)
        requires
            sidebar_ok(old(self)@),
        ensures
            sidebar_ok(final(self)@),
            ({
                let s = old(self)@;
                let moved = s.drag_active && match (s.drag_index, s.drop_index) {
                    (Some(f), Some(t)) => f != t && t != f + 1 && s.bookmarks.len() > 0 && f < s.bookmarks.len()
                        && t <= s.bookmarks.len(),
                    _ => false,
                };
                &&& res == moved
                &&& places_view(final(self)@.bookmarks) == if moved {
                    places_view(reordered(s.bookmarks, s.drag_index->0 as int, s.drop_index->0 as int))
                } else {
                    places_view(s.bookmarks)
                }
                &&& final(self)@ == (SidebarState {
                    bookmarks: final(self)@.bookmarks,
                    drag_index: None,
                    drop_index: None,
                    drag_start: None,
                    drag_active: false,
                    ..s
                })
            }),
    {
        let mut moved = false;
        if self.bookmark_drag_active {
            if let (Some(from), Some(to)) = (self.bookmark_drag_index, self.bookmark_drop_index) {
                if from != to && (to < from || to - from != 1) && self.bookmarks.len() > 0 && from < self.bookmarks.len()
                    && to <= self.bookmarks.len() {
                    let ghost s = self@.bookmarks;
                    let bookmark = self.bookmarks.remove(from);
                    let new_index = if to > from {
                        to - 1
                    } else {
                        to
                    };
                    self.bookmarks.insert(new_index, bookmark);
                    assert(self@.bookmarks == reordered(s, from as int, to as int));
                    moved = true;
                }
            }
        }
        self.cancel_bookmark_drag();
        moved
    }

    /// Cancel bookmark drag.
    pub fn cancel_bookmark_drag(&mut self)
        ensures
            final(self)@ == (SidebarState {
                drag_index: None,
                drop_index: None,
                drag_start: None,
                drag_active: false,
                ..old(self)@
            }),
    {
        self.bookmark_drag_index = None;
        self.bookmark_drop_index = None;
        self.bookmark_drag_start = None;
        self.bookmark_drag_active = false;
    }

    /// Check if bookmark drag is in progress (past the threshold).
    pub fn is_bookmark_dragging(&self) -> (res: bool)
        ensures
            res == self@.drag_active,
    {
        self.bookmark_drag_active
    }

    /// The bookmark being dragged.
    pub fn bookmark_drag_index(&self) -> (res: Option<usize>)
        ensures
            res == self@.drag_index,
    {
        self.bookmark_drag_index
    }

    /// The slot a dragged bookmark would drop into.
    pub fn bookmark_drop_index(&self) -> (res: Option<usize>)
        ensures
            res == self@.drop_index,
    {
        self.bookmark_drop_index
    }

    /// The path of the bookmark being dragged.
    pub fn bookmark_path_at_index(&self) -> (res: Option<String>)
        ensures
            match self@.drag_index {
                Some(i) => if i < self@.bookmarks.len() {
                    res matches Some(p) && p@ == self@.bookmarks[i as int].path@
                } else {
                    res is None
                },
                None => res is None,
            },
    {
        match self.bookmark_drag_index {
            Some(i) => if i < self.bookmarks.len() {
                Some(copy_string(self.bookmarks[i].path.as_str()))
            } else {
                None
            },
            None => None,
        }
    }

    /// Update bounds.
    pub fn set_bounds(&mut self, bounds: Rect)
        requires
            sidebar_ok(old(self)@),
            -0x2000_0000 <= bounds.x <= 0x2000_0000,
            -0x2000_0000 <= bounds.y <= 0x2000_0000,
            bounds.width <= 0x2000_0000,
            bounds.height <= 0x2000_0000,
        ensures
            sidebar_ok(final(self)@),
            final(self)@ == (SidebarState { bounds, ..old(self)@ }),
    {
        self.bounds = bounds;
    }

    /// Get current bounds.
    pub fn bounds(&self) -> (res: Rect)
        ensures
            res == self@.bounds,
    {
        self.bounds
    }

    /// The width the sidebar takes: none while hidden.
    pub fn width(&self) -> (res: u32)
        ensures
            res == if self@.visible { self@.bounds.width } else { 0 },
    {
        if self.visible {
            self.bounds.width
        } else {
            0
        }
    }

    /// Set the width, kept between 120 and 400.
    pub fn set_width(&mut self, width: u32)
        requires
            sidebar_ok(old(self)@),
        ensures
            sidebar_ok(final(self)@),
            final(self)@ == (SidebarState {
                bounds: Rect {
                    width: if width < MIN_WIDTH { MIN_WIDTH } else if width > MAX_WIDTH { MAX_WIDTH } else { width },
                    ..old(self)@.bounds
                },
                ..old(self)@
            }),
    {
        let w = if width < MIN_WIDTH {
            MIN_WIDTH
        } else if width > MAX_WIDTH {
            MAX_WIDTH
        } else {
            width
        };
        self.bounds = Rect { x: self.bounds.x, y: self.bounds.y, width: w, height: self.bounds.height };
    }

    /// Whether the point is on the resize handle: within 4 pixels of the
    /// right edge, along its height (edges included), while shown.
    pub fn is_resize_handle(&self, pos: Point) -> (res: bool)
        requires
            sidebar_ok(self@),
        ensures
            res == (self@.visible && {
                let hx = self@.bounds.x + self@.bounds.width;
                hx - 4 <= pos.x <= hx + 4 && self@.bounds.y <= pos.y <= self@.bounds.y + self@.bounds.height
            }),
    {
        if !self.visible {
            return false;
        }
        let hx: i64 = self.bounds.x as i64 + self.bounds.width as i64;
        let px = pos.x as i64;
        let py = pos.y as i64;
        px >= hx - 4 && px <= hx + 4 && py >= self.bounds.y as i64 && py <= self.bounds.y as i64
            + self.bounds.height as i64
    }

    /// Toggle visibility.
    pub fn toggle(&mut self)
        ensures
            final(self)@ == (SidebarState { visible: !old(self)@.visible, ..old(self)@ }),
    {
        self.visible = !self.visible;
    }

    /// Check if visible.
    pub fn is_visible(&self) -> (res: bool)
        ensures
            res == self@.visible,
    {
        self.visible
    }

    /// Whether a point is on the bookmarks section (where a folder can be
    /// dropped to bookmark it).
    pub fn is_bookmark_drop_zone(&self, pos: Point) -> (res: bool)
        ensures
            res == (self@.visible && inside(self@.bounds, pos) && pos.y >= self@.section_y),
    {
        if !self.visible {
            return false;
        }
        if !self.bounds.contains_point(pos) {
            return false;
        }
        pos.y >= self.bookmarks_section_y
    }

    /// Set whether to show the drop highlight on the bookmarks section.
    pub fn set_drop_highlight(&mut self, highlight: bool)
        ensures
            final(self)@ == (SidebarState { drop_highlight: highlight, ..old(self)@ }),
    {
        self.drop_highlight = highlight;
    }

    /// Whether the drop highlight shows.
    pub fn drop_highlight(&self) -> (res: bool)
        ensures
            res == self@.drop_highlight,
    {
        self.drop_highlight
    }

    /// Where the bookmarks section starts.
    pub fn bookmarks_section_y(&self) -> (res: i32)
        ensures
            res == self@.section_y,
    {
        self.bookmarks_section_y
    }
}

/// Dropping a dragged bookmark keeps the same bookmarks: it only changes
/// their order.
pub proof fn law_reorder_keeps_bookmarks<T>(s: Seq<T>, from: int, to: int)
    ensures
        reordered(s, from, to).to_multiset() == s.to_multiset(),
{
    if from != to && to != from + 1 && s.len() > 0 && 0 <= from < s.len() && 0 <= to <= s.len() {
        let item = s[from];
        let rest = s.remove(from);
        let at = if to > from { to - 1 } else { to };
        vstd::seq_lib::to_multiset_remove(s, from);
        vstd::seq_lib::to_multiset_insert(rest, at, item);
        assert(s.to_multiset().remove(item).insert(item) =~= s.to_multiset()) by {
            broadcast use vstd::multiset::group_multiset_axioms;

            assert(s.to_multiset().count(item) > 0) by {
                vstd::seq_lib::to_multiset_contains(s, item);
                assert(s.contains(item));
            }
        }
    }
}

} // verus!
