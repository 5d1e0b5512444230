//! File entries with metadata, their sorting, filtering and size display.
use vstd::prelude::*;
use crate::order::{
    chains, flip, int_compare, lemma_opt_text_compare_flip, lemma_opt_text_compare_trans,
    lemma_text_compare_flip, lemma_text_compare_trans, opt_i128_compare, opt_int_compare,
    opt_text_compare, opt_text_compare_exec, text_compare, text_compare_exec, u64_compare, Comparison,
};
use crate::path::{extension, extension_of, file_name, file_name_of};
use crate::text::{
    decimal, digit_char, push_char, push_decimal, push_str,
    chars_of, contains_char, ends_with, find_from, lowercase, occurs_at, slice_chars,
    starts_with, to_lowercase,
};

verus! {

/// Type of file system entry.
#[derive(Debug, Clone, Copy, PartialEq, Eq, Structural)]
pub enum EntryType {
    /// Regular file.
    File,
    /// Directory.
    Directory,
    /// Symbolic link.
    Symlink,
    /// Other (device, socket, etc.).
    Other,
}

/// What the library reads from file system metadata.
#[derive(Debug, Clone, Copy)]
pub struct MetaInfo {
    /// The entry is a directory.
    pub is_dir: bool,
    /// The entry is a regular file.
    pub is_file: bool,
    /// The entry is a symbolic link.
    pub is_symlink: bool,
    /// Length in bytes.
    pub len: u64,
    /// Last modification, in nanoseconds since the Unix epoch, when known.
    pub modified: Option<i128>,
}

/// The entry type that metadata describes: directory before file before link.
pub open spec fn type_of_meta(m: MetaInfo) -> EntryType {
    if m.is_dir {
        EntryType::Directory
    } else if m.is_file {
        EntryType::File
    } else if m.is_symlink {
        EntryType::Symlink
    } else {
        EntryType::Other
    }
}

impl EntryType {
    /// Determine entry type from metadata.
    pub fn from_metadata(meta: &MetaInfo) -> (res: EntryType)
        ensures
            res == type_of_meta(*meta),
    {
        if meta.is_dir {
            EntryType::Directory
        } else if meta.is_file {
            EntryType::File
        } else if meta.is_symlink {
            EntryType::Symlink
        } else {
            EntryType::Other
        }
    }
}

/// A file system entry with metadata.
#[derive(Debug)]
pub struct FileEntry {
    /// File name (not full path).
    pub name: String,
    /// Full path.
    pub path: String,
    /// Entry type.
    pub entry_type: EntryType,
    /// File size in bytes (0 for directories).
    pub size: u64,
    /// Last modified time, in nanoseconds since the Unix epoch.
    pub modified: Option<i128>,
    /// Whether this is a hidden file (starts with '.').
    pub hidden: bool,
    /// Whether this is a symlink.
    pub is_symlink: bool,
    /// Symlink target (if symlink).
    pub symlink_target: Option<String>,
}

/// Whether `p` names a directory on disk. Calls std's `Path::is_dir`; the
/// answer depends on the file system, so nothing is stated of it.
#[verifier::external_body]
pub(crate) fn path_is_dir(p: &str) -> bool {
    std::path::Path::new(p).is_dir()
}

/// The name shown for a path: its file name, or the whole path when it has none.
pub open spec fn display_name(p: Seq<char>) -> Seq<char> {
    match file_name(p) {
        Some(n) => n,
        None => p,
    }
}

/// The entry built from a path and its metadata: the metadata of the link
/// itself, and for a link the metadata of its target when it can be read.
pub open spec fn entry_spec(
    path: Seq<char>,
    link_meta: MetaInfo,
    target_meta: Option<MetaInfo>,
) -> (Seq<char>, EntryType, u64, Option<i128>, bool, bool) {
    let name = display_name(path);
    let is_symlink = link_meta.is_symlink;
    let meta = if is_symlink && target_meta is Some {
        target_meta->0
    } else {
        link_meta
    };
    let entry_type = if is_symlink {
        EntryType::Symlink
    } else {
        type_of_meta(meta)
    };
    let size: u64 = if meta.is_file {
        meta.len
    } else {
        0
    };
    (name, entry_type, size, meta.modified, name.len() > 0 && name[0] == '.', is_symlink)
}

impl FileEntry {
    /// Builds an entry from a path and the metadata read for it (`link_meta`
    /// without following links; `target_meta` and `target` for a link).
    pub fn from_parts(
        path: String,
        link_meta: MetaInfo,
        target_meta: Option<MetaInfo>,
        target: Option<String>,
    ) -> (res: FileEntry)
        ensures
            (res.name@, res.entry_type, res.size, res.modified, res.hidden, res.is_symlink)
                == entry_spec(path@, link_meta, target_meta),
            res.path == path,
            res.symlink_target == (if link_meta.is_symlink {
                target
            } else {
                None
            }),
    {
        let name = match file_name_of(path.as_str()) {
            Some(n) => n,
            None => path.clone(),
        };
        let is_symlink = link_meta.is_symlink;
        let (meta, symlink_target) = if is_symlink {
            let m = match target_meta {
                Some(t) => t,
                None => link_meta,
            };
            (m, target)
        } else {
            (link_meta, None)
        };
        let entry_type = if is_symlink {
            EntryType::Symlink
        } else {
            EntryType::from_metadata(&meta)
        };
        let size: u64 = if meta.is_file {
            meta.len
        } else {
            0
        };
        let hidden = name.as_str().unicode_len() > 0 && name.as_str().get_char(0) == '.';
        FileEntry {
            name,
            path,
            entry_type,
            size,
            modified: meta.modified,
            hidden,
            is_symlink,
            symlink_target,
        }
    }

    /// Check if this is a directory.
    pub fn is_dir(&self) -> (res: bool)
        ensures
            res == (self.entry_type == EntryType::Directory),
    {
        self.entry_type == EntryType::Directory
    }

    /// Check if this is a file.
    pub fn is_file(&self) -> (res: bool)
        ensures
            res == (self.entry_type == EntryType::File),
    {
        self.entry_type == EntryType::File
    }

    /// Check if this entry can be navigated into (directory or symlink to directory).
    /// For a link the answer comes from the file system.
    pub fn is_navigable(&self) -> (res: bool)
        ensures
            self.entry_type == EntryType::Directory ==> res,
            (self.entry_type != EntryType::Directory && !self.is_symlink) ==> !res,
    {
        if self.entry_type == EntryType::Directory {
            return true;
        }
        if self.is_symlink {
            path_is_dir(self.path.as_str())
        } else {
            false
        }
    }

    /// Get file extension (lowercase).
    pub fn extension(&self) -> (res: Option<String>)
        ensures
            res matches Some(e) ==> extension(self.path@) matches Some(x) && e@ == lowercase(x),
            res is None ==> extension(self.path@) is None,
    {
        match extension_of(self.path.as_str()) {
            Some(e) => Some(to_lowercase(e.as_str())),
            None => None,
        }
    }
}

/// The lower-cased extension of an entry's path.
pub open spec fn lower_extension(p: Seq<char>) -> Option<Seq<char>> {
    match extension(p) {
        Some(x) => Some(lowercase(x)),
        None => None,
    }
}

// ---------------------------------------------------------------------------
// Filtering
// ---------------------------------------------------------------------------
/// Index of the first `c` in `s`, or -1.
pub open spec fn first_index(s: Seq<char>, c: char) -> int
    decreases s.len(),
{
    if s.len() == 0 {
        -1
    } else if s[0] == c {
        0
    } else {
        let k = first_index(s.drop_first(), c);
        if k < 0 {
            -1
        } else {
            k + 1
        }
    }
}

/// `s` cut at every `c` (what `str::split(c)` yields).
pub open spec fn split_at_char(s: Seq<char>, c: char) -> Seq<Seq<char>>
    decreases s.len(),
{
    let k = first_index(s, c);
    if k < 0 {
        seq![s]
    } else {
        proof {
            lemma_first_index_range(s, c);
        }
        seq![s.take(k)] + split_at_char(s.skip(k + 1), c)
    }
}

/// `first_index` points into `s` at a `c` with none before it, or is -1 when
/// there is none.
pub proof fn lemma_first_index_range(s: Seq<char>, c: char)
    ensures
        -1 <= first_index(s, c) < s.len(),
        first_index(s, c) >= 0 ==> s[first_index(s, c)] == c,
        forall|j: int| 0 <= j < s.len() && (first_index(s, c) < 0 || j < first_index(s, c)) ==> s[j]
            != c,
    decreases s.len(),
{
    if s.len() > 0 && s[0] != c {
        lemma_first_index_range(s.drop_first(), c);
        assert forall|j: int|
            0 <= j < s.len() && (first_index(s, c) < 0 || j < first_index(s, c)) implies s[j]
            != c by {
            if j > 0 {
                assert(s[j] == s.drop_first()[j - 1]);
            }
        }
    }
}

/// The first index at or after `from` where `p` occurs in `s`.
pub open spec fn find_spec(s: Seq<char>, p: Seq<char>, from: int) -> Option<int>
    decreases s.len() + 1 - from,
{
    if from < 0 || from > s.len() {
        None
    } else if occurs_at(s, p, from) {
        Some(from)
    } else {
        find_spec(s, p, from + 1)
    }
}

/// Matching the `*`-separated parts of a pattern from part `i` on, the text
/// before `pos` being used up: each non-empty part is looked for at its
/// first occurrence after `pos`; the first part must also start the name and
/// the last part must also end it.
pub open spec fn glob_from(name: Seq<char>, parts: Seq<Seq<char>>, i: int, pos: int) -> bool
    decreases parts.len() - i,
{
    if i < 0 || i >= parts.len() {
        true
    } else {
        let part = parts[i];
        if part.len() == 0 {
            glob_from(name, parts, i + 1, pos)
        } else if i == 0 && !occurs_at(name, part, 0) {
            false
        } else if i == parts.len() - 1 && !(part.len() <= name.len() && occurs_at(
            name,
            part,
            name.len() - part.len(),
        )) {
            false
        } else {
            match find_spec(name, part, pos) {
                Some(k) => glob_from(name, parts, i + 1, k + part.len()),
                None => false,
            }
        }
    }
}

/// Whether a lower-cased name matches a lower-cased pattern: `*` matches
/// everything; `*.ext` matches names ending in `.ext`; `name.*` matches names
/// starting with `name.`; other patterns with `*` match the parts in order;
/// anything else must equal the name.
pub open spec fn filter_match(name: Seq<char>, pattern: Seq<char>) -> bool {
    if pattern == seq!['*'] {
        true
    } else if occurs_at(pattern, seq!['*', '.'], 0) {
        let suffix = seq!['.'] + pattern.skip(2);
        suffix.len() <= name.len() && occurs_at(name, suffix, name.len() - suffix.len())
    } else if pattern.len() >= 2 && occurs_at(pattern, seq!['.', '*'], pattern.len() - 2) {
        occurs_at(name, pattern.take(pattern.len() - 2).push('.'), 0)
    } else if pattern.contains('*') {
        glob_from(name, split_at_char(pattern, '*'), 0, 0)
    } else {
        name == pattern
    }
}

/// Whether a file name matches a filter pattern, ignoring case.
pub open spec fn matches_filter_spec(filename: Seq<char>, pattern: Seq<char>) -> bool {
    filter_match(lowercase(filename), lowercase(pattern))
}

proof fn lemma_find_spec_is(s: Seq<char>, p: Seq<char>, from: int, k: int)
    requires
        0 <= from <= k,
        occurs_at(s, p, k),
        forall|j: int| from <= j < k ==> !occurs_at(s, p, j),
    ensures
        find_spec(s, p, from) == Some(k),
    decreases k - from,
{
    if from < k {
        lemma_find_spec_is(s, p, from + 1, k);
    }
}

proof fn lemma_find_spec_none(s: Seq<char>, p: Seq<char>, from: int)
    requires
        0 <= from,
        forall|j: int| from <= j ==> !occurs_at(s, p, j),
    ensures
        find_spec(s, p, from) is None,
    decreases s.len() + 1 - from,
{
    if from <= s.len() {
        lemma_find_spec_none(s, p, from + 1);
    }
}

/// `s` cut at every `c`.
pub fn split_at_char_exec(s: &Vec<char>, c: char) -> (res: Vec<Vec<char>>)
    ensures
        res@.map_values(|x: Vec<char>| x@) == split_at_char(s@, c),
{
    let mut res: Vec<Vec<char>> = Vec::new();
    let mut start: usize = 0;
    let mut i: usize = 0;
    let n = s.len();
    assert(s@.skip(0) == s@);
    while i < n
        invariant
            n == s.len(),
            start <= i <= n,
            forall|j: int| start <= j < i ==> s@[j] != c,
            split_at_char(s@, c) == res@.map_values(|x: Vec<char>| x@) + split_at_char(
                s@.skip(start as int),
                c,
            ),
        decreases n - i,
    {
        if s[i] == c {
            let piece = slice_chars(s, start, i);
            let ghost rest = s@.skip(start as int);
            proof {
                lemma_first_index_range(rest, c);
                assert(rest[i - start] == c);
                assert forall|j: int| 0 <= j < i - start implies rest[j] != c by {
                    assert(rest[j] == s@[start + j]);
                }
                if first_index(rest, c) < i - start {
                    assert(rest[first_index(rest, c)] == c);
                }
                assert(first_index(rest, c) == i - start);
                assert(rest.take(i - start) =~= piece@);
                assert(rest.skip(i - start + 1) =~= s@.skip(i + 1));
            }
            let ghost old_res = res@;
            res.push(piece);
            assert(res@.map_values(|x: Vec<char>| x@) =~= old_res.map_values(|x: Vec<char>| x@)
                + seq![piece@]);
            start = i + 1;
        }
        i = i + 1;
    }
    let last = slice_chars(s, start, n);
    let ghost rest = s@.skip(start as int);
    proof {
        lemma_first_index_range(rest, c);
        if first_index(rest, c) >= 0 {
            assert(rest[first_index(rest, c)] == s@[start + first_index(rest, c)]);
        }
        assert(rest =~= last@);
    }
    let ghost old_res = res@;
    res.push(last);
    assert(res@.map_values(|x: Vec<char>| x@) =~= old_res.map_values(|x: Vec<char>| x@) + seq![
        last@,
    ]);
    res
}

fn glob_match_exec(name: &Vec<char>, parts: &Vec<Vec<char>>) -> (res: bool)
    ensures
        res == glob_from(name@, parts@.map_values(|x: Vec<char>| x@), 0, 0),
{
    let ghost ps = parts@.map_values(|x: Vec<char>| x@);
    let mut pos: usize = 0;
    let mut i: usize = 0;
    while i < parts.len()
        invariant
            ps == parts@.map_values(|x: Vec<char>| x@),
            i <= parts.len(),
            pos <= name.len(),
            glob_from(name@, ps, 0, 0) == glob_from(name@, ps, i as int, pos as int),
        decreases parts.len() - i,
    {
        let part = &parts[i];
        assert(part@ == ps[i as int]);
        if part.len() == 0 {
            i = i + 1;
            continue;
        }
        if i == 0 && !starts_with(name, part) {
            return false;
        }
        if i == parts.len() - 1 && !ends_with(name, part) {
            return false;
        }
        match find_from(name, part, pos) {
            Some(k) => {
                proof {
                    lemma_find_spec_is(name@, part@, pos as int, k as int);
                }
                pos = k + part.len();
            },
            None => {
                proof {
                    lemma_find_spec_none(name@, part@, pos as int);
                }
                return false;
            },
        }
        i = i + 1;
    }
    true
}

/// Check if a filename matches a glob pattern.
///
/// Supports simple patterns:
/// - `*.ext` - matches any file ending with `.ext`
/// - `name.*` - matches any file starting with `name.`
/// - `exact` - matches exact filename
pub fn matches_filter(filename: &str, pattern: &str) -> (res: bool)
    ensures
        res == matches_filter_spec(filename@, pattern@),
{
    let fl_s = to_lowercase(filename);
    let pl_s = to_lowercase(pattern);
    let fl = chars_of(fl_s.as_str());
    let pl = chars_of(pl_s.as_str());
    let star = vec!['*'];
    let star_dot = vec!['*', '.'];
    let dot_star = vec!['.', '*'];
    proof {
        assert(star@ =~= seq!['*']);
        assert(star_dot@ =~= seq!['*', '.']);
        assert(dot_star@ =~= seq!['.', '*']);
    }
    if crate::text::chars_eq(&pl, &star) {
        return true;
    }
    if starts_with(&pl, &star_dot) {
        let mut suffix = vec!['.'];
        let rest = slice_chars(&pl, 2, pl.len());
        let mut i: usize = 0;
        while i < rest.len()
            invariant
                i <= rest.len(),
                suffix@ == seq!['.'] + rest@.take(i as int),
            decreases rest.len() - i,
        {
            suffix.push(rest[i]);
            assert(rest@.take(i + 1) == rest@.take(i as int).push(rest@[i as int]));
            i = i + 1;
        }
        assert(rest@.take(rest.len() as int) == rest@);
        assert(rest@ == pl@.skip(2));
        return ends_with(&fl, &suffix);
    }
    if pl.len() >= 2 && crate::text::occurs_at_exec(&pl, &dot_star, pl.len() - 2) {
        let mut prefix = slice_chars(&pl, 0, pl.len() - 2);
        prefix.push('.');
        assert(pl@.take(pl@.len() - 2) == pl@.subrange(0, pl@.len() - 2));
        return starts_with(&fl, &prefix);
    }
    if contains_char(&pl, '*') {
        let parts = split_at_char_exec(&pl, '*');
        return glob_match_exec(&fl, &parts);
    }
    crate::text::chars_eq(&fl, &pl)
}

/// Whether an entry is shown under a list of filters: directories always
/// are, no filters show everything, otherwise some filter must match the name.
pub open spec fn matches_any_spec(is_dir: bool, name: Seq<char>, filters: Seq<String>) -> bool {
    is_dir || filters.len() == 0 || exists|i: int|
        0 <= i < filters.len() && matches_filter_spec(name, #[trigger] filters[i]@)
}

/// Check if a file entry matches any of the given filter patterns.
/// Directories always match (for navigation).
/// Empty filters match everything.
pub fn matches_any_filter(entry: &FileEntry, filters: &[String]) -> (res: bool)
    ensures
        res == matches_any_spec(entry.entry_type == EntryType::Directory, entry.name@, filters@),
{
    if entry.is_dir() {
        return true;
    }
    if filters.len() == 0 {
        return true;
    }
    let mut i: usize = 0;
    while i < filters.len()
        invariant
            i <= filters.len(),
            forall|j: int| 0 <= j < i ==> !matches_filter_spec(entry.name@, #[trigger] filters@[j]@),
        decreases filters.len() - i,
    {
        if matches_filter(entry.name.as_str(), filters[i].as_str()) {
            return true;
        }
        i = i + 1;
    }
    false
}


// ---------------------------------------------------------------------------
// Sorting
// ---------------------------------------------------------------------------
/// Sort order for file entries.
#[derive(Debug, Clone, Copy, PartialEq, Eq, Structural, Default)]
pub enum SortOrder {
    #[default]
    Name,
    Size,
    Modified,
    Type,
}

/// Sort direction.
#[derive(Debug, Clone, Copy, PartialEq, Eq, Structural, Default)]
pub enum SortDirection {
    #[default]
    Ascending,
    Descending,
}

/// An optional timestamp as an optional integer.
pub open spec fn opt_time(t: Option<i128>) -> Option<int> {
    match t {
        Some(x) => Some(x as int),
        None => None,
    }
}

/// Comparison of two entries by the chosen key alone.
pub open spec fn key_compare(a: FileEntry, b: FileEntry, order: SortOrder) -> Comparison {
    match order {
        SortOrder::Name => text_compare(lowercase(a.name@), lowercase(b.name@)),
        SortOrder::Size => int_compare(a.size as int, b.size as int),
        SortOrder::Modified => opt_int_compare(opt_time(a.modified), opt_time(b.modified)),
        SortOrder::Type => opt_text_compare(lower_extension(a.path@), lower_extension(b.path@)),
    }
}

/// The order entries are listed in: directories before everything else, then
/// by the key, reversed for a descending listing.
pub open spec fn entry_compare(
    a: FileEntry,
    b: FileEntry,
    order: SortOrder,
    direction: SortDirection,
) -> Comparison {
    let ad = a.entry_type == EntryType::Directory;
    let bd = b.entry_type == EntryType::Directory;
    if ad && !bd {
        Comparison::Less
    } else if !ad && bd {
        Comparison::Greater
    } else {
        match direction {
            SortDirection::Ascending => key_compare(a, b, order),
            SortDirection::Descending => flip(key_compare(a, b, order)),
        }
    }
}

/// `new` is `old` sorted stably by `entry_compare`, `p` telling where each
/// entry of `new` stood in `old`.
pub open spec fn stable_sorting(
    old: Seq<FileEntry>,
    new: Seq<FileEntry>,
    p: Seq<int>,
    order: SortOrder,
    direction: SortDirection,
) -> bool {
    &&& new.len() == old.len()
    &&& p.len() == old.len()
    &&& forall|k: int| 0 <= k < p.len() ==> 0 <= #[trigger] p[k] < old.len()
    &&& forall|k: int, l: int| 0 <= k < l < p.len() ==> p[k] != p[l]
    &&& forall|k: int| 0 <= k < new.len() ==> new[k] == old[#[trigger] p[k]]
    &&& forall|k: int, l: int|
        #![trigger new[k], new[l]]
        0 <= k < l < new.len() ==> entry_compare(new[k], new[l], order, direction)
            != Comparison::Greater && (entry_compare(new[k], new[l], order, direction)
            == Comparison::Equal ==> p[k] < p[l])
}

proof fn lemma_key_compare_flip(a: FileEntry, b: FileEntry, order: SortOrder)
    ensures
        key_compare(a, b, order) == flip(key_compare(b, a, order)),
{
    match order {
        SortOrder::Name => lemma_text_compare_flip(lowercase(a.name@), lowercase(b.name@)),
        SortOrder::Type => lemma_opt_text_compare_flip(
            lower_extension(a.path@),
            lower_extension(b.path@),
        ),
        _ => {},
    }
}

proof fn lemma_key_compare_trans(a: FileEntry, b: FileEntry, c: FileEntry, order: SortOrder)
    ensures
        chains(key_compare(a, b, order), key_compare(b, c, order), key_compare(a, c, order)),
{
    match order {
        SortOrder::Name => lemma_text_compare_trans(
            lowercase(a.name@),
            lowercase(b.name@),
            lowercase(c.name@),
        ),
        SortOrder::Type => lemma_opt_text_compare_trans(
            lower_extension(a.path@),
            lower_extension(b.path@),
            lower_extension(c.path@),
        ),
        _ => {},
    }
}

/// `entry_compare` is antisymmetric.
pub proof fn lemma_entry_compare_flip(
    a: FileEntry,
    b: FileEntry,
    order: SortOrder,
    direction: SortDirection,
)
    ensures
        entry_compare(a, b, order, direction) == flip(entry_compare(b, a, order, direction)),
{
    lemma_key_compare_flip(a, b, order);
}

/// `entry_compare` composes as a total preorder.
pub proof fn lemma_entry_compare_trans(
    a: FileEntry,
    b: FileEntry,
    c: FileEntry,
    order: SortOrder,
    direction: SortDirection,
)
    ensures
        chains(
            entry_compare(a, b, order, direction),
            entry_compare(b, c, order, direction),
            entry_compare(a, c, order, direction),
        ),
{
    lemma_key_compare_trans(a, b, c, order);
    lemma_key_compare_trans(c, b, a, order);
    lemma_key_compare_flip(a, b, order);
    lemma_key_compare_flip(b, c, order);
    lemma_key_compare_flip(a, c, order);
    lemma_key_compare_flip(c, b, order);
    lemma_key_compare_flip(b, a, order);
    lemma_key_compare_flip(c, a, order);
}

/// Position `a` must come before position `b` in a stable sort of `es`.
pub open spec fn goes_before(
    es: Seq<FileEntry>,
    order: SortOrder,
    direction: SortDirection,
    a: int,
    b: int,
) -> bool {
    let c = entry_compare(es[a], es[b], order, direction);
    c == Comparison::Less || (c == Comparison::Equal && a < b)
}

proof fn lemma_goes_before_total(
    es: Seq<FileEntry>,
    order: SortOrder,
    direction: SortDirection,
    a: int,
    b: int,
)
    requires
        a != b,
    ensures
        goes_before(es, order, direction, a, b) || goes_before(es, order, direction, b, a),
        !(goes_before(es, order, direction, a, b) && goes_before(es, order, direction, b, a)),
{
    lemma_entry_compare_flip(es[a], es[b], order, direction);
}

proof fn lemma_goes_before_trans(
    es: Seq<FileEntry>,
    order: SortOrder,
    direction: SortDirection,
    a: int,
    b: int,
    c: int,
)
    requires
        goes_before(es, order, direction, a, b),
        goes_before(es, order, direction, b, c),
    ensures
        goes_before(es, order, direction, a, c),
{
    lemma_entry_compare_trans(es[a], es[b], es[c], order, direction);
}

/// The keys of one entry, computed once before sorting.
struct EntryKey {
    dir: bool,
    name: Vec<char>,
    size: u64,
    modified: Option<i128>,
    ext: Option<Vec<char>>,
}

spec fn key_matches(k: EntryKey, e: FileEntry) -> bool {
    &&& k.dir == (e.entry_type == EntryType::Directory)
    &&& k.name@ == lowercase(e.name@)
    &&& k.size == e.size
    &&& k.modified == e.modified
    &&& match k.ext {
        Some(x) => lower_extension(e.path@) == Some(x@),
        None => lower_extension(e.path@) is None,
    }
}

fn key_of(e: &FileEntry) -> (res: EntryKey)
    ensures
        key_matches(res, *e),
{
    let lower = to_lowercase(e.name.as_str());
    let ext = match e.extension() {
        Some(x) => Some(chars_of(x.as_str())),
        None => None,
    };
    EntryKey {
        dir: e.is_dir(),
        name: chars_of(lower.as_str()),
        size: e.size,
        modified: e.modified,
        ext,
    }
}

fn compare_keys(
    a: &EntryKey,
    b: &EntryKey,
    order: SortOrder,
    direction: SortDirection,
    Ghost(ea): Ghost<FileEntry>,
    Ghost(eb): Ghost<FileEntry>,
) -> (res: Comparison)
    requires
        key_matches(*a, ea),
        key_matches(*b, eb),
    ensures
        res == entry_compare(ea, eb, order, direction),
{
    if a.dir && !b.dir {
        return Comparison::Less;
    }
    if !a.dir && b.dir {
        return Comparison::Greater;
    }
    let c = match order {
        SortOrder::Name => text_compare_exec(&a.name, &b.name),
        SortOrder::Size => u64_compare(a.size, b.size),
        SortOrder::Modified => opt_i128_compare(a.modified, b.modified),
        SortOrder::Type => opt_text_compare_exec(&a.ext, &b.ext),
    };
    match direction {
        SortDirection::Ascending => c,
        SortDirection::Descending => match c {
            Comparison::Less => Comparison::Greater,
            Comparison::Equal => Comparison::Equal,
            Comparison::Greater => Comparison::Less,
        },
    }
}

impl FileEntry {
    /// A field-by-field copy of the entry.
    pub fn duplicate(&self) -> (res: FileEntry)
        ensures
            res == *self,
    {
        FileEntry {
            name: self.name.clone(),
            path: self.path.clone(),
            entry_type: self.entry_type,
            size: self.size,
            modified: self.modified,
            hidden: self.hidden,
            is_symlink: self.is_symlink,
            symlink_target: match &self.symlink_target {
                Some(t) => Some(t.clone()),
                None => None,
            },
        }
    }
}

/// Sort entries with directories first.
pub fn sort_entries(entries: &mut Vec<FileEntry>, order: SortOrder, direction: SortDirection)
    ensures
        exists|p: Seq<int>| stable_sorting(old(entries)@, final(entries)@, p, order, direction),
{
    let ghost es = entries@;
    let n = entries.len();
    let mut keys: Vec<EntryKey> = Vec::new();
    let mut m: usize = 0;
    while m < n
        invariant
            n == entries.len(),
            es == entries@,
            m <= n,
            keys.len() == m,
            forall|k: int| 0 <= k < m ==> key_matches(#[trigger] keys@[k], es[k]),
        decreases n - m,
    {
        keys.push(key_of(&entries[m]));
        m = m + 1;
    }
    let mut idx: Vec<usize> = Vec::new();
    let mut m: usize = 0;
    while m < n
        invariant
            m <= n,
            idx.len() == m,
            forall|k: int| 0 <= k < m ==> #[trigger] idx@[k] == k,
        decreases n - m,
    {
        idx.push(m);
        m = m + 1;
    }
    let mut i: usize = 0;
    while i < n
        invariant
            n == es.len(),
            keys.len() == n,
            forall|k: int| 0 <= k < n ==> key_matches(#[trigger] keys@[k], es[k]),
            i <= n,
            idx.len() == n,
            forall|k: int| 0 <= k < n ==> #[trigger] idx@[k] < n,
            forall|k: int, l: int| 0 <= k < l < n ==> idx@[k] != idx@[l],
            forall|k: int| i <= k < n ==> #[trigger] idx@[k] == k,
            forall|k: int, l: int|
                #![trigger idx@[k], idx@[l]]
                0 <= k < l < i ==> goes_before(es, order, direction, idx@[k] as int, idx@[l] as int),
        decreases n - i,
    {
        let x = idx[i];
        let mut j: usize = i;
        while j > 0 && compare_before(&keys, x, idx[j - 1], order, direction, Ghost(es))
            invariant
                n == es.len(),
                keys.len() == n,
                forall|k: int| 0 <= k < n ==> key_matches(#[trigger] keys@[k], es[k]),
                i < n,
                j <= i,
                idx.len() == n,
                x == idx@[i as int],
                forall|k: int| 0 <= k < n ==> #[trigger] idx@[k] < n,
                forall|m: int|
                    j <= m < i ==> goes_before(es, order, direction, x as int, #[trigger] idx@[m] as int),
            decreases j,
        {
            j = j - 1;
        }
        let ghost before = idx@;
        proof {
            if j > 0 {
                lemma_goes_before_total(es, order, direction, x as int, before[j - 1] as int);
                assert forall|m: int| 0 <= m < j implies goes_before(
                    es,
                    order,
                    direction,
                    #[trigger] before[m] as int,
                    x as int,
                ) by {
                    if m < j - 1 {
                        lemma_goes_before_trans(
                            es,
                            order,
                            direction,
                            before[m] as int,
                            before[j - 1] as int,
                            x as int,
                        );
                    }
                }
            }
        }
        idx.remove(i);
        idx.insert(j, x);
        proof {
            let after = idx@;
            assert(after == before.remove(i as int).insert(j as int, x));
            assert forall|k: int| 0 <= k < n implies #[trigger] after[k] == if k < j {
                before[k]
            } else if k == j {
                x
            } else if k <= i {
                before[k - 1]
            } else {
                before[k]
            } by {}
        }
        i = i + 1;
    }
    let mut res: Vec<FileEntry> = Vec::new();
    let mut m: usize = 0;
    while m < n
        invariant
            n == es.len(),
            es == entries@,
            idx.len() == n,
            forall|k: int| 0 <= k < n ==> #[trigger] idx@[k] < n,
            m <= n,
            res.len() == m,
            forall|k: int| 0 <= k < m ==> #[trigger] res@[k] == es[idx@[k] as int],
        decreases n - m,
    {
        res.push(entries[idx[m]].duplicate());
        m = m + 1;
    }
    let ghost p = idx@.map_values(|v: usize| v as int);
    proof {
        assert forall|k: int, l: int|
            #![trigger res@[k], res@[l]]
            0 <= k < l < n implies entry_compare(res@[k], res@[l], order, direction)
            != Comparison::Greater && (entry_compare(res@[k], res@[l], order, direction)
            == Comparison::Equal ==> p[k] < p[l]) by {
            assert(goes_before(es, order, direction, idx@[k] as int, idx@[l] as int));
        }
        assert(stable_sorting(es, res@, p, order, direction));
    }
    *entries = res;
}

fn compare_before(
    keys: &Vec<EntryKey>,
    a: usize,
    b: usize,
    order: SortOrder,
    direction: SortDirection,
    Ghost(es): Ghost<Seq<FileEntry>>,
) -> (res: bool)
    requires
        keys.len() == es.len(),
        a < es.len(),
        b < es.len(),
        forall|k: int| 0 <= k < es.len() ==> key_matches(#[trigger] keys@[k], es[k]),
    ensures
        res == goes_before(es, order, direction, a as int, b as int),
{
    let c = compare_keys(&keys[a], &keys[b], order, direction, Ghost(es[a as int]), Ghost(es[b as int]));
    match c {
        Comparison::Less => true,
        Comparison::Equal => a < b,
        Comparison::Greater => false,
    }
}


// ---------------------------------------------------------------------------
// Size display
// ---------------------------------------------------------------------------
/// Bytes in a kibibyte.
pub const KB: u64 = 1024;
/// Bytes in a mebibyte.
pub const MB: u64 = 1048576;
/// Bytes in a gibibyte.
pub const GB: u64 = 1073741824;
/// Bytes in a tebibyte.
pub const TB: u64 = 1099511627776;

/// `n / d` rounded to the nearest integer, ties to the even neighbour.
pub open spec fn round_half_even(n: nat, d: nat) -> nat {
    let q = n / d;
    let r = n % d;
    if 2 * r > d {
        q + 1
    } else if 2 * r < d {
        q
    } else if q % 2 == 0 {
        q
    } else {
        q + 1
    }
}

/// `2^e`.
pub open spec fn two_pow(e: nat) -> nat
    decreases e,
{
    if e == 0 {
        1
    } else {
        2 * two_pow((e - 1) as nat)
    }
}

/// How many low bits of `b` a 53-bit significand cannot hold.
pub open spec fn excess_bits(b: nat) -> nat
    decreases b,
{
    if b < 9007199254740992 {
        0
    } else {
        1 + excess_bits(b / 2)
    }
}

/// The integer value of `b` after conversion to `f64` (rounded to 53
/// significant bits, ties to even).
pub open spec fn as_f64_value(b: nat) -> nat {
    let p = two_pow(excess_bits(b));
    round_half_even(b, p) * p
}

/// `m / unit` written with one decimal (rounded, ties to even).
pub open spec fn tenths_text(m: nat, unit: nat) -> Seq<char> {
    let t = round_half_even(m * 10, unit);
    decimal(t / 10) + seq!['.', digit_char(t % 10)]
}

/// Human-readable size: bytes below 1 KiB, otherwise the largest unit up to
/// TiB with one decimal ("1.5 KB", "3.0 GB", "512 B").
pub open spec fn format_bytes_spec(b: nat) -> Seq<char> {
    if b >= TB {
        tenths_text(as_f64_value(b), TB as nat) + " TB"@
    } else if b >= GB {
        tenths_text(b, GB as nat) + " GB"@
    } else if b >= MB {
        tenths_text(b, MB as nat) + " MB"@
    } else if b >= KB {
        tenths_text(b, KB as nat) + " KB"@
    } else {
        decimal(b) + " B"@
    }
}

fn round_half_even_exec(n: u128, d: u128) -> (res: u128)
    requires
        d > 0,
        n < 0x1_0000_0000_0000_0000_0000_0000,
    ensures
        res == round_half_even(n as nat, d as nat),
        res <= n / d + 1,
{
    let q = n / d;
    let r = n % d;
    if r > d - r {
        q + 1
    } else if r < d - r {
        q
    } else if q % 2 == 0 {
        q
    } else {
        q + 1
    }
}

proof fn lemma_excess_step(b: nat, x: nat, p: nat, e: nat)
    requires
        p == two_pow(e),
        x == b / p,
        p > 0,
    ensures
        x / 2 == b / two_pow(e + 1),
        two_pow(e + 1) == 2 * p,
{
    vstd::arithmetic::div_mod::lemma_div_denominator(b as int, p as int, 2);
    assert(two_pow(e + 1) == 2 * two_pow(e));
    assert(p * 2 == 2 * p);
}

/// The integer value of `b as f64`.
fn as_f64_exec(b: u64) -> (res: u128)
    ensures
        res == as_f64_value(b as nat),
        res <= b as u128 + 4096,
{
    let mut x: u128 = b as u128;
    let mut p: u128 = 1;
    let ghost mut e: nat = 0;
    assert(b as nat / 1 == b as nat);
    while x >= 9007199254740992
        invariant
            p == two_pow(e),
            0 < p <= 4096,
            x == b as nat / (p as nat),
            excess_bits(b as nat) == e + excess_bits(x as nat),
        decreases x,
    {
        proof {
            lemma_excess_step(b as nat, x as nat, p as nat, e);
            vstd::arithmetic::div_mod::lemma_fundamental_div_mod(b as int, p as int);
            assert(p < 2048) by (nonlinear_arith)
                requires
                    x >= 9007199254740992,
                    b as int == p * x + (b as int % p as int),
                    0 <= b as int % p as int,
                    b < 0x1_0000_0000_0000_0000,
                    p > 0,
            ;
        }
        x = x / 2;
        p = p * 2;
        proof {
            e = e + 1;
        }
    }
    proof {
        vstd::arithmetic::div_mod::lemma_fundamental_div_mod(b as int, p as int);
    }
    let q = round_half_even_exec(b as u128, p);
    assert(q * p <= b as u128 + 4096) by (nonlinear_arith)
        requires
            q <= x + 1,
            b as int == p * x + (b as int % p as int),
            b as int % p as int >= 0,
            0 < p <= 4096,
    ;
    q * p
}


fn push_tenths(s: &mut String, m: u128, unit: u128)
    requires
        1024 <= unit,
        m <= 0x4_0000_0000_0000_0000,
    ensures
        final(s)@ == old(s)@ + tenths_text(m as nat, unit as nat),
{
    let t = round_half_even_exec(m * 10, unit);
    assert(t / 10 <= 0xffff_ffff_ffff_ffff) by (nonlinear_arith)
        requires
            t <= (m * 10) as int / unit as int + 1,
            1024 <= unit,
            m <= 0x4_0000_0000_0000_0000,
    ;
    let whole: u64 = (t / 10) as u64;
    push_decimal(s, whole);
    push_char(s, '.');
    let d: u8 = (t % 10) as u8;
    let c: char = (48u8 + d) as char;
    assert(c == digit_char((t % 10) as nat));
    push_char(s, c);
    assert(final(s)@ =~= old(s)@ + tenths_text(m as nat, unit as nat));
}

/// Format bytes as human-readable string.
pub fn format_bytes(bytes: u64) -> (res: String)
    ensures
        res@ == format_bytes_spec(bytes as nat),
{
    let mut s = String::new();
    if bytes >= TB {
        let m = as_f64_exec(bytes);
        push_tenths(&mut s, m, TB as u128);
        push_str(&mut s, " TB");
    } else if bytes >= GB {
        push_tenths(&mut s, bytes as u128, GB as u128);
        push_str(&mut s, " GB");
    } else if bytes >= MB {
        push_tenths(&mut s, bytes as u128, MB as u128);
        push_str(&mut s, " MB");
    } else if bytes >= KB {
        push_tenths(&mut s, bytes as u128, KB as u128);
        push_str(&mut s, " KB");
    } else {
        push_decimal(&mut s, bytes);
        push_str(&mut s, " B");
    }
    s
}

impl FileEntry {
    /// Format size for display (empty for directories).
    pub fn format_size(&self) -> (res: String)
        ensures
            res@ == (if self.entry_type == EntryType::Directory {
                Seq::<char>::empty()
            } else {
                format_bytes_spec(self.size as nat)
            }),
    {
        if self.is_dir() {
            return String::new();
        }
        format_bytes(self.size)
    }
}

/// A `name.*` filter matches exactly the names that begin with `name.`,
/// dot included, ignoring case: `report.*` takes `report.txt` and
/// `Report.PDF`, but not `report_old.txt`, `reports.pdf` or `report`.
pub proof fn law_name_dot_star_filter(filename: Seq<char>, pattern: Seq<char>)
    requires
        lowercase(pattern).len() >= 2,
        lowercase(pattern)[lowercase(pattern).len() - 2] == '.',
        lowercase(pattern)[lowercase(pattern).len() - 1] == '*',
        lowercase(pattern)[0] != '*' || lowercase(pattern)[1] != '.',
    ensures
        matches_filter_spec(filename, pattern) <==> lowercase(pattern).take(
            lowercase(pattern).len() - 1,
        ).is_prefix_of(lowercase(filename)),
{
    let lp = lowercase(pattern);
    let ln = lowercase(filename);
    let n = lp.len() as int;
    assert(lp.subrange(n - 2, n) =~= seq!['.', '*']);
    assert(occurs_at(lp, seq!['.', '*'], n - 2));
    if occurs_at(lp, seq!['*', '.'], 0) {
        assert(lp.subrange(0, 2)[0] == lp[0]);
        assert(lp.subrange(0, 2)[1] == lp[1]);
    }
    assert(lp != seq!['*']);
    let pre = lp.take(n - 1);
    assert(lp.take(n - 2).push('.') =~= pre);
    if occurs_at(ln, pre, 0) {
        assert(ln.subrange(0, pre.len() as int) =~= pre);
    }
    if pre.is_prefix_of(ln) {
        assert(ln.subrange(0, pre.len() as int) =~= pre);
    }
}

/// Listed by type, entries that are not directories come in the order of
/// their lower-cased extensions, those without one first (last when
/// descending), whatever their sizes: a later entry never has a smaller
/// extension than an earlier one (a larger one, when descending).
pub proof fn law_type_order_by_extension(
    old: Seq<FileEntry>,
    new: Seq<FileEntry>,
    p: Seq<int>,
    direction: SortDirection,
)
    requires
        stable_sorting(old, new, p, SortOrder::Type, direction),
    ensures
        forall|k: int, l: int|
            0 <= k < l < new.len() && new[k].entry_type != EntryType::Directory
                && new[l].entry_type != EntryType::Directory ==> opt_text_compare(
                lower_extension(#[trigger] new[l].path@),
                lower_extension(#[trigger] new[k].path@),
            ) != (match direction {
                SortDirection::Ascending => Comparison::Less,
                SortDirection::Descending => Comparison::Greater,
            }),
{
    assert forall|k: int, l: int|
        0 <= k < l < new.len() && new[k].entry_type != EntryType::Directory
            && new[l].entry_type != EntryType::Directory implies opt_text_compare(
            lower_extension(#[trigger] new[l].path@),
            lower_extension(#[trigger] new[k].path@),
        ) != (match direction {
            SortDirection::Ascending => Comparison::Less,
            SortDirection::Descending => Comparison::Greater,
        }) by {
        assert(entry_compare(new[k], new[l], SortOrder::Type, direction) != Comparison::Greater);
        lemma_opt_text_compare_flip(lower_extension(new[l].path@), lower_extension(new[k].path@));
    }
}

/// A `*.ext` filter matches exactly the names that end in `.ext`, ignoring
/// case: `*.jpg` takes `photo.JPG` but not `photo.jpeg` or `jpg`.
pub proof fn law_star_dot_filter(filename: Seq<char>, pattern: Seq<char>)
    requires
        lowercase(pattern).len() >= 2,
        lowercase(pattern)[0] == '*',
        lowercase(pattern)[1] == '.',
    ensures
        matches_filter_spec(filename, pattern) <==> lowercase(pattern).skip(1).is_suffix_of(
            lowercase(filename),
        ),
{
    let lp = lowercase(pattern);
    let ln = lowercase(filename);
    assert(lp.subrange(0, 2) =~= seq!['*', '.']);
    assert(lp != seq!['*']);
    let suf = lp.skip(1);
    assert(seq!['.'] + lp.skip(2) =~= suf);
    if suf.len() <= ln.len() {
        if occurs_at(ln, suf, ln.len() - suf.len()) {
            assert(ln.subrange(ln.len() - suf.len(), ln.len() as int) =~= suf);
        }
        if suf.is_suffix_of(ln) {
            assert(ln.subrange(ln.len() - suf.len(), ln.len() as int) =~= suf);
        }
    }
}

/// A filter without `*` matches only the name it spells, ignoring case.
pub proof fn law_plain_filter(filename: Seq<char>, pattern: Seq<char>)
    requires
        !lowercase(pattern).contains('*'),
    ensures
        matches_filter_spec(filename, pattern) <==> lowercase(filename) == lowercase(pattern),
{
    let lp = lowercase(pattern);
    if lp == seq!['*'] {
        assert(lp[0] == '*');
    }
    if occurs_at(lp, seq!['*', '.'], 0) {
        assert(lp.subrange(0, 2)[0] == lp[0]);
    }
    if lp.len() >= 2 && occurs_at(lp, seq!['.', '*'], lp.len() - 2) {
        assert(lp.subrange(lp.len() - 2, lp.len() as int)[1] == lp[lp.len() - 1]);
    }
}

/// A sorted listing shows every directory before every other entry, and
/// within each group follows the key chosen: names ignoring case, sizes,
/// modification times (unknown first) or lower-cased extensions (none
/// first), smallest first when ascending and largest first when
/// descending.
pub proof fn law_sorted_listing(
    old: Seq<FileEntry>,
    new: Seq<FileEntry>,
    p: Seq<int>,
    order: SortOrder,
    direction: SortDirection,
)
    requires
        stable_sorting(old, new, p, order, direction),
    ensures
        forall|k: int, l: int|
            0 <= k < l < new.len() && (#[trigger] new[l]).entry_type == EntryType::Directory
                ==> (#[trigger] new[k]).entry_type == EntryType::Directory,
        forall|k: int, l: int|
            0 <= k < l < new.len() && ((#[trigger] new[k]).entry_type == EntryType::Directory)
                == ((#[trigger] new[l]).entry_type == EntryType::Directory) ==> {
                let later_first = match order {
                    SortOrder::Name => text_compare(lowercase(new[l].name@), lowercase(new[k].name@)),
                    SortOrder::Size => int_compare(new[l].size as int, new[k].size as int),
                    SortOrder::Modified => opt_int_compare(opt_time(new[l].modified), opt_time(new[k].modified)),
                    SortOrder::Type => opt_text_compare(lower_extension(new[l].path@), lower_extension(new[k].path@)),
                };
                later_first != match direction {
                    SortDirection::Ascending => Comparison::Less,
                    SortDirection::Descending => Comparison::Greater,
                }
            },
{
    assert forall|k: int, l: int|
        0 <= k < l < new.len() && (#[trigger] new[l]).entry_type == EntryType::Directory
            implies (#[trigger] new[k]).entry_type == EntryType::Directory by {
        assert(entry_compare(new[k], new[l], order, direction) != Comparison::Greater);
    }
    assert forall|k: int, l: int|
        0 <= k < l < new.len() && ((#[trigger] new[k]).entry_type == EntryType::Directory)
            == ((#[trigger] new[l]).entry_type == EntryType::Directory) implies {
            let later_first = match order {
                SortOrder::Name => text_compare(lowercase(new[l].name@), lowercase(new[k].name@)),
                SortOrder::Size => int_compare(new[l].size as int, new[k].size as int),
                SortOrder::Modified => opt_int_compare(opt_time(new[l].modified), opt_time(new[k].modified)),
                SortOrder::Type => opt_text_compare(lower_extension(new[l].path@), lower_extension(new[k].path@)),
            };
            later_first != match direction {
                SortDirection::Ascending => Comparison::Less,
                SortDirection::Descending => Comparison::Greater,
            }
        } by {
        assert(entry_compare(new[k], new[l], order, direction) != Comparison::Greater);
        lemma_key_compare_flip(new[k], new[l], order);
    }
}

} // verus!
