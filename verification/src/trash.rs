//! Freedesktop trash: directory layout, unique names and `.trashinfo` files.
use vstd::prelude::*;
use crate::path::{join, join_path, path_exists};
use crate::places::data_dir;
use crate::entry::first_index;
use crate::operations::{first_free, looked_up, split_stem_ext, stem_ext};
use crate::text::{
    chars_of, decimal, lemma_replace_hit, lemma_replace_inert_prefix, occurs_at, push_char,
    push_chars, push_decimal, push_decimal_wide, push_str, replace_all, replace_all_exec,
    slice_chars, string_of,
};

verus! {

/// The trash directory under a data directory.
pub open spec fn trash_under(data: Seq<char>) -> Seq<char> {
    join(data, "Trash"@)
}

/// The trash directory for a data directory, where one is known
/// (`<data dir>/Trash`).
pub fn trash_dir_in(data: Option<String>) -> (res: Option<String>)
    ensures
        match data {
            Some(d) => res matches Some(t) && t@ == trash_under(d@),
            None => res is None,
        },
{
    match data {
        Some(d) => Some(join_path(d.as_str(), "Trash")),
        None => None,
    }
}

/// Get the trash directory path (`<data dir>/Trash`). The data directory
/// comes from the environment; where none is known there is no trash.
pub fn trash_dir() -> (res: Option<String>)
    ensures
        res matches Some(t) ==> exists|d: Seq<char>| d.len() > 0 && t@ == trash_under(d),
{
    trash_dir_in(data_dir())
}

/// Get the trash files directory (`<data dir>/Trash/files`).
pub fn trash_files_dir() -> (res: Option<String>)
    ensures
        res matches Some(f) ==> exists|d: Seq<char>| d.len() > 0 && f@ == join(trash_under(d), "files"@),
{
    match trash_dir() {
        Some(t) => {
            let f = join_path(t.as_str(), "files");
            Some(f)
        },
        None => None,
    }
}

/// Get the trash info directory (`<data dir>/Trash/info`).
pub fn trash_info_dir() -> (res: Option<String>)
    ensures
        res matches Some(f) ==> exists|d: Seq<char>| d.len() > 0 && f@ == join(trash_under(d), "info"@),
{
    match trash_dir() {
        Some(t) => {
            let f = join_path(t.as_str(), "info");
            Some(f)
        },
        None => None,
    }
}

/// "stem.i.ext": the `i`-th alternative name inside the trash.
pub open spec fn dotted_name(name: Seq<char>, i: nat) -> Seq<char> {
    stem_ext(name).0 + seq!['.'] + decimal(i) + stem_ext(name).1
}

/// "name.t": the last-resort trash name, stamped with a time.
pub open spec fn trash_stamped_name(name: Seq<char>, t: nat) -> Seq<char> {
    name + seq!['.'] + decimal(t)
}

/// The `i`-th alternative trash name.
pub fn dotted(name: &str, i: u64) -> (res: String)
    ensures
        res@ == dotted_name(name@, i as nat),
{
    let (stem, ext) = split_stem_ext(name);
    let mut s = String::new();
    push_chars(&mut s, &stem);
    push_char(&mut s, '.');
    push_decimal(&mut s, i);
    push_chars(&mut s, &ext);
    assert(s@ =~= dotted_name(name@, i as nat));
    s
}

/// Milliseconds since the Unix epoch. Calls std's `SystemTime::now` and
/// `duration_since(UNIX_EPOCH)` (0 before the epoch); the value depends on
/// the clock, so nothing is stated of it.
#[verifier::external_body]
pub(crate) fn unix_millis_now() -> u128 {
    std::time::SystemTime::now().duration_since(std::time::UNIX_EPOCH).map(|d| d.as_millis()).unwrap_or(0)
}

/// How many names are tried in the trash before falling back to a time
/// stamp: the name itself and "stem.i.ext" for 1 <= i < 10000.
pub const TRASH_NAME_TRIES: usize = 10000;

/// The trash name chosen for `name` where `taken[k]` says whether the `k`-th
/// candidate exists (candidate 0 is the name itself, candidate `i` is
/// "stem.i.ext"): the first free candidate, else "name.t" with `stamp`.
pub open spec fn unique_trash_name_spec(name: Seq<char>, taken: Seq<bool>, stamp: nat) -> Seq<char> {
    match first_free(taken, 0, TRASH_NAME_TRIES as nat) {
        Some(k) => if k == 0 {
            name
        } else {
            dotted_name(name, k)
        },
        None => trash_stamped_name(name, stamp),
    }
}

/// The trash name for `name` given which candidates exist.
pub fn pick_trash_name(name: &str, taken: &Vec<bool>, stamp: u128) -> (res: String)
    ensures
        res@ == unique_trash_name_spec(name@, taken@, stamp as nat),
{
    let mut i: usize = 0;
    while i < TRASH_NAME_TRIES && i < taken.len()
        invariant
            i <= TRASH_NAME_TRIES,
            first_free(taken@, 0, TRASH_NAME_TRIES as nat) == first_free(taken@, i as nat, TRASH_NAME_TRIES as nat),
        decreases TRASH_NAME_TRIES - i,
    {
        if !taken[i] {
            if i == 0 {
                return crate::text::copy_string(name);
            }
            return dotted(name, i as u64);
        }
        i = i + 1;
    }
    let mut res = crate::text::copy_string(name);
    push_char(&mut res, '.');
    push_decimal_wide(&mut res, stamp);
    assert(res@ =~= trash_stamped_name(name@, stamp as nat));
    res
}

/// Generate a unique trash name: the name itself, or the first "stem.i.ext"
/// (1 <= i < 10000) not present in `files_dir`, or failing that "name.t".
/// The candidates are looked up in `files_dir` in order until one is free;
/// what is found there, and the time, come from outside, and
/// `pick_trash_name` chooses from them.
pub fn unique_trash_name(files_dir: &str, name: &str) -> (res: String)
    ensures
        exists|taken: Seq<bool>, t: u128|
            {
                &&& looked_up(taken, TRASH_NAME_TRIES as nat)
                &&& res@ == unique_trash_name_spec(name@, taken, t as nat)
            },
{
    let mut taken: Vec<bool> = Vec::new();
    let mut i: usize = 0;
    let mut all_taken = true;
    while i < TRASH_NAME_TRIES
        invariant_except_break
            i <= TRASH_NAME_TRIES,
            taken@.len() == i,
            all_taken,
            forall|k: int| 0 <= k < i ==> #[trigger] taken@[k],
        ensures
            looked_up(taken@, TRASH_NAME_TRIES as nat),
            all_taken == taken@.last(),
        decreases TRASH_NAME_TRIES - i,
    {
        let candidate = if i == 0 {
            crate::text::copy_string(name)
        } else {
            dotted(name, i as u64)
        };
        let p = join_path(files_dir, candidate.as_str());
        let exists = path_exists(p.as_str());
        taken.push(exists);
        if !exists {
            all_taken = false;
            break;
        }
        i = i + 1;
    }
    let stamp = if all_taken {
        unix_millis_now()
    } else {
        0
    };
    let res = pick_trash_name(name, &taken, stamp);
    assert(res@ == unique_trash_name_spec(name@, taken@, stamp as nat));
    res
}

// ---------------------------------------------------------------------------
// .trashinfo content
// ---------------------------------------------------------------------------
/// How one character of a path is written in a `.trashinfo` file.
pub open spec fn escape_char(c: char) -> Seq<char> {
    if c == '%' {
        "%25"@
    } else if c == '\n' {
        "%0A"@
    } else if c == '\r' {
        "%0D"@
    } else {
        seq![c]
    }
}

/// A path as written in a `.trashinfo` file: `%`, newline and carriage
/// return escaped as `%25`, `%0A` and `%0D`.
pub open spec fn escape_path(s: Seq<char>) -> Seq<char>
    decreases s.len(),
{
    if s.len() == 0 {
        Seq::empty()
    } else {
        escape_char(s[0]) + escape_path(s.drop_first())
    }
}

/// Decoding of an escaped path, in the order the reader applies it:
/// `%0A`, then `%0D`, then `%25`.
pub open spec fn unescape_path(s: Seq<char>) -> Seq<char> {
    replace_all(replace_all(replace_all(s, "%0A"@, "\n"@), "%0D"@, "\r"@), "%25"@, "%"@)
}

/// The content of a `.trashinfo` file for `path` deleted at `date`.
pub open spec fn trash_info_text(path: Seq<char>, date: Seq<char>) -> Seq<char> {
    "[Trash Info]\nPath="@ + escape_path(path) + "\nDeletionDate="@ + date + "\n"@
}

proof fn lemma_escape_path_snoc(s: Seq<char>, c: char)
    ensures
        escape_path(s.push(c)) == escape_path(s) + escape_char(c),
    decreases s.len(),
{
    if s.len() == 0 {
        assert(s.push(c).drop_first() =~= Seq::<char>::empty());
        assert(s.push(c)[0] == c);
        assert(escape_path(Seq::<char>::empty()) == Seq::<char>::empty());
        assert(escape_path(s) == Seq::<char>::empty());
        assert(escape_char(c) + Seq::<char>::empty() =~= escape_char(c));
        assert(Seq::<char>::empty() + escape_char(c) =~= escape_char(c));
    } else {
        assert(s.push(c).drop_first() =~= s.drop_first().push(c));
        lemma_escape_path_snoc(s.drop_first(), c);
        assert(escape_char(s[0]) + (escape_path(s.drop_first()) + escape_char(c)) =~= (escape_char(
            s[0],
        ) + escape_path(s.drop_first())) + escape_char(c));
    }
}

/// Escapes a path for a `.trashinfo` file.
fn escape_path_exec(p: &str) -> (res: Vec<char>)
    ensures
        res@ == escape_path(p@),
{
    let v = chars_of(p);
    let mut res: Vec<char> = Vec::new();
    let mut i: usize = 0;
    while i < v.len()
        invariant
            i <= v.len(),
            res@ == escape_path(v@.take(i as int)),
        decreases v.len() - i,
    {
        let c = v[i];
        proof {
            lemma_escape_path_snoc(v@.take(i as int), c);
            assert(v@.take(i + 1) =~= v@.take(i as int).push(c));
            reveal_strlit("%25");
            reveal_strlit("%0A");
            reveal_strlit("%0D");
        }
        let ghost before = res@;
        if c == '%' {
            res.push('%');
            res.push('2');
            res.push('5');
        } else if c == '\n' {
            res.push('%');
            res.push('0');
            res.push('A');
        } else if c == '\r' {
            res.push('%');
            res.push('0');
            res.push('D');
        } else {
            res.push(c);
        }
        assert(res@ =~= before + escape_char(c));
        i = i + 1;
    }
    assert(v@.take(v@.len() as int) == v@);
    res
}

/// The `.trashinfo` content for `path` deleted at `date`.
pub fn trash_info_content(path: &str, date: &str) -> (res: String)
    ensures
        res@ == trash_info_text(path@, date@),
{
    let mut s = String::new();
    push_str(&mut s, "[Trash Info]\nPath=");
    let e = escape_path_exec(path);
    push_chars(&mut s, &e);
    push_str(&mut s, "\nDeletionDate=");
    push_str(&mut s, date);
    push_char(&mut s, '\n');
    proof {
        reveal_strlit("\n");
    }
    assert(s@ =~= trash_info_text(path@, date@));
    s
}

/// The local time formatted as `%Y-%m-%dT%H:%M:%S`. Calls `chrono::Local::now`
/// and `format`; the value depends on the clock and time zone, so nothing is
/// stated of it.
#[verifier::external_body]
pub(crate) fn local_deletion_date() -> String {
    chrono::Local::now().format("%Y-%m-%dT%H:%M:%S").to_string()
}

/// Create a .trashinfo file content, stamped with the current local time.
pub fn create_trash_info(original_path: &str) -> (res: String)
    ensures
        exists|d: Seq<char>| res@ == trash_info_text(original_path@, d),
{
    let date = local_deletion_date();
    trash_info_content(original_path, date.as_str())
}

/// A line with one trailing carriage return removed.
pub open spec fn strip_cr(line: Seq<char>) -> Seq<char> {
    if line.len() > 0 && line.last() == '\r' {
        line.drop_last()
    } else {
        line
    }
}

/// The value of the first line starting with `Path=`, scanning the lines of
/// `s` as `str::lines` cuts them.
pub open spec fn path_line_value(s: Seq<char>) -> Option<Seq<char>>
    decreases s.len(),
{
    if s.len() == 0 {
        None
    } else {
        let k = first_index(s, '\n');
        let line = if k < 0 {
            s
        } else {
            strip_cr(s.take(k))
        };
        if occurs_at(line, "Path="@, 0) {
            Some(line.skip(5))
        } else if k < 0 {
            None
        } else {
            proof {
                crate::entry::lemma_first_index_range(s, '\n');
            }
            path_line_value(s.skip(k + 1))
        }
    }
}

/// The original path recorded in `.trashinfo` content.
pub open spec fn parse_trash_info_spec(content: Seq<char>) -> Option<Seq<char>> {
    match path_line_value(content) {
        Some(v) => Some(unescape_path(v)),
        None => None,
    }
}

/// Some line of `s` starts with `Path=`.
pub open spec fn has_path_line(s: Seq<char>) -> bool {
    exists|i: int| 0 <= i <= s.len() && (i == 0 || s[i - 1] == '\n') && #[trigger] occurs_at(s, "Path="@, i)
}

/// Content with no line starting with `Path=` records no path.
pub proof fn law_no_path_line(content: Seq<char>)
    requires
        !has_path_line(content),
    ensures
        parse_trash_info_spec(content) is None,
    decreases content.len(),
{
    reveal_strlit("Path=");
    if content.len() > 0 {
        let k = first_index(content, '\n');
        crate::entry::lemma_first_index_range(content, '\n');
        let line = if k < 0 {
            content
        } else {
            strip_cr(content.take(k))
        };
        if occurs_at(line, "Path="@, 0) {
            assert(line.subrange(0, 5) =~= content.subrange(0, 5));
            assert(occurs_at(content, "Path="@, 0));
            assert(false);
        }
        if k >= 0 {
            let rest = content.skip(k + 1);
            assert forall|i: int| 0 <= i <= rest.len() && (i == 0 || rest[i - 1] == '\n') implies !#[trigger] occurs_at(rest, "Path="@, i) by {
                if occurs_at(rest, "Path="@, i) {
                    assert(rest.subrange(i, i + 5) =~= content.subrange(i + k + 1, i + k + 1 + 5));
                    assert(occurs_at(content, "Path="@, i + k + 1));
                }
            }
            law_no_path_line(rest);
        }
    }
}

/// Parse the original path from .trashinfo content.
pub fn parse_trash_info_path(content: &str) -> (res: Option<String>)
    ensures
        res matches Some(p) ==> parse_trash_info_spec(content@) == Some(p@),
        res is None ==> parse_trash_info_spec(content@) is None,
{
    let v = chars_of(content);
    let n = v.len();
    let prefix = chars_of("Path=");
    proof {
        reveal_strlit("Path=");
    }
    let mut start: usize = 0;
    assert(v@.skip(0) == v@);
    while start < n
        invariant
            n == v.len(),
            v@ == content@,
            start <= n,
            prefix@ == "Path="@,
            path_line_value(v@) == path_line_value(v@.skip(start as int)),
        decreases n - start,
    {
        let ghost t = v@.skip(start as int);
        proof {
            reveal_strlit("Path=");
        }
        let mut j: usize = start;
        while j < n && v[j] != '\n'
            invariant
                start <= j <= n == v.len(),
                forall|m: int| start <= m < j ==> v@[m] != '\n',
            decreases n - j,
        {
            j = j + 1;
        }
        proof {
            crate::entry::lemma_first_index_range(t, '\n');
            if j < n {
                assert(t[j - start] == '\n');
                if first_index(t, '\n') < j - start {
                    assert(t[first_index(t, '\n')] == v@[start + first_index(t, '\n')]);
                }
                assert(first_index(t, '\n') == j - start);
            } else {
                if first_index(t, '\n') >= 0 {
                    assert(t[first_index(t, '\n')] == v@[start + first_index(t, '\n')]);
                }
                assert(first_index(t, '\n') < 0);
            }
        }
        let mut end: usize = j;
        if j < n && end > start && v[end - 1] == '\r' {
            end = end - 1;
        }
        let line = slice_chars(&v, start, end);
        proof {
            if j < n {
                assert(t.take(j - start) =~= v@.subrange(start as int, j as int));
                assert(line@ =~= strip_cr(t.take(j - start)));
            } else {
                assert(line@ =~= t);
            }
        }
        assert(t.len() > 0);
        assert(path_line_value(t) == (if occurs_at(line@, "Path="@, 0) {
            Some(line@.skip(5))
        } else if j >= n {
            None
        } else {
            path_line_value(t.skip(j - start + 1))
        }));
        if crate::text::starts_with(&line, &prefix) {
            let value = slice_chars(&line, 5, line.len());
            assert(value@ == line@.skip(5));
            let a = replace_all_exec(&value, &chars_of("%0A"), &chars_of("\n"));
            let b = replace_all_exec(&a, &chars_of("%0D"), &chars_of("\r"));
            let c = replace_all_exec(&b, &chars_of("%25"), &chars_of("%"));
            return Some(string_of(&c));
        }
        if j >= n {
            return None;
        }
        assert(t.skip(j - start + 1) =~= v@.skip(j + 1));
        start = j + 1;
    }
    assert(v@.skip(n as int) =~= Seq::<char>::empty());
    None
}

/// Per-character spellings used in the intermediate decoding steps.
spec fn step1_char(c: char) -> Seq<char> {
    if c == '%' {
        "%25"@
    } else if c == '\r' {
        "%0D"@
    } else {
        seq![c]
    }
}

spec fn step2_char(c: char) -> Seq<char> {
    if c == '%' {
        "%25"@
    } else {
        seq![c]
    }
}

spec fn expand1(s: Seq<char>) -> Seq<char>
    decreases s.len(),
{
    if s.len() == 0 {
        Seq::empty()
    } else {
        step1_char(s[0]) + expand1(s.drop_first())
    }
}

spec fn expand2(s: Seq<char>) -> Seq<char>
    decreases s.len(),
{
    if s.len() == 0 {
        Seq::empty()
    } else {
        step2_char(s[0]) + expand2(s.drop_first())
    }
}

/// No occurrence of a three-character pattern starting with `%` begins in
/// the first `a.len()` positions of `a + b`, when `a` is a single plain
/// character or `%` followed by two characters other than `pat`'s.
proof fn lemma_no_hit_in(a: Seq<char>, b: Seq<char>, pat: Seq<char>)
    requires
        pat.len() == 3,
        pat[0] == '%',
        a.len() == 1 && a[0] != '%' || (a.len() == 3 && a[0] == '%' && a[1] != '%' && a[2] != '%'
            && (a[1] != pat[1] || a[2] != pat[2])),
    ensures
        forall|j: int| 0 <= j < a.len() ==> !occurs_at(a + b, pat, j),
{
    assert forall|j: int| 0 <= j < a.len() implies !occurs_at(a + b, pat, j) by {
        if occurs_at(a + b, pat, j) {
            assert((a + b).subrange(j, j + 3)[0] == pat[0]);
            if j == 0 && a.len() == 3 {
                assert((a + b).subrange(j, j + 3)[1] == pat[1]);
                assert((a + b).subrange(j, j + 3)[2] == pat[2]);
            }
        }
    }
}

proof fn lemma_step_a(s: Seq<char>)
    ensures
        replace_all(escape_path(s), "%0A"@, "\n"@) == expand1(s),
    decreases s.len(),
{
    reveal_strlit("%0A");
    reveal_strlit("\n");
    reveal_strlit("%25");
    reveal_strlit("%0D");
    if s.len() > 0 {
        lemma_step_a(s.drop_first());
        let c = s[0];
        let rest = escape_path(s.drop_first());
        if c == '\n' {
            lemma_replace_hit(rest, "%0A"@, "\n"@);
        } else {
            lemma_no_hit_in(escape_char(c), rest, "%0A"@);
            lemma_replace_inert_prefix(escape_char(c), rest, "%0A"@, "\n"@);
        }
    }
}

proof fn lemma_step_b(s: Seq<char>)
    ensures
        replace_all(expand1(s), "%0D"@, "\r"@) == expand2(s),
    decreases s.len(),
{
    reveal_strlit("%0D");
    reveal_strlit("\r");
    reveal_strlit("%25");
    if s.len() > 0 {
        lemma_step_b(s.drop_first());
        let c = s[0];
        let rest = expand1(s.drop_first());
        if c == '\r' {
            lemma_replace_hit(rest, "%0D"@, "\r"@);
        } else {
            lemma_no_hit_in(step1_char(c), rest, "%0D"@);
            lemma_replace_inert_prefix(step1_char(c), rest, "%0D"@, "\r"@);
        }
    }
}

proof fn lemma_step_c(s: Seq<char>)
    ensures
        replace_all(expand2(s), "%25"@, "%"@) == s,
    decreases s.len(),
{
    reveal_strlit("%25");
    reveal_strlit("%");
    if s.len() > 0 {
        lemma_step_c(s.drop_first());
        let c = s[0];
        let rest = expand2(s.drop_first());
        if c == '%' {
            lemma_replace_hit(rest, "%25"@, "%"@);
        } else {
            assert forall|j: int| 0 <= j < 1 implies !occurs_at(seq![c] + rest, "%25"@, j) by {
                if occurs_at(seq![c] + rest, "%25"@, j) {
                    assert((seq![c] + rest).subrange(0, 3)[0] == '%');
                }
            }
            lemma_replace_inert_prefix(seq![c], rest, "%25"@, "%"@);
        }
        assert(seq![c] + s.drop_first() =~= s);
    } else {
        assert(expand2(s) =~= s);
    }
}

/// Decoding undoes escaping: every path survives the round trip.
pub proof fn law_unescape_escape(p: Seq<char>)
    ensures
        unescape_path(escape_path(p)) == p,
{
    lemma_step_a(p);
    lemma_step_b(p);
    lemma_step_c(p);
}

/// Reading back a `.trashinfo` file written for a path gives that path.
pub proof fn law_trash_info_roundtrip(path: Seq<char>, date: Seq<char>)
    ensures
        parse_trash_info_spec(trash_info_text(path, date)) == Some(path),
{
    reveal_strlit("[Trash Info]\nPath=");
    reveal_strlit("\nDeletionDate=");
    reveal_strlit("\n");
    reveal_strlit("Path=");
    reveal_strlit("[Trash Info]");
    reveal_strlit("DeletionDate=");
    let e = escape_path(path);
    lemma_escape_plain(path);
    let head = "[Trash Info]\nPath="@;
    let tail = "\nDeletionDate="@ + date + "\n"@;
    let s = head + e + tail;
    assert(trash_info_text(path, date) =~= s);
    // first line
    let first = "[Trash Info]"@;
    assert(s =~= first + (seq!['\n'] + ("Path="@ + e + tail)));
    lemma_first_index_concat(first, seq!['\n'] + ("Path="@ + e + tail), '\n');
    assert(s.take(12) =~= first);
    assert(!occurs_at(first, "Path="@, 0)) by {
        assert(first.subrange(0, 5)[0] == '[');
    }
    let rest = "Path="@ + e + tail;
    assert(s.skip(13) =~= rest);
    assert(strip_cr(first) == first);
    assert(path_line_value(s) == path_line_value(rest));
    // second line
    assert(rest =~= ("Path="@ + e) + (seq!['\n'] + ("DeletionDate="@ + date + "\n"@)));
    assert(!("Path="@ + e).contains('\n')) by {
        assert forall|i: int| 0 <= i < ("Path="@ + e).len() implies ("Path="@ + e)[i] != '\n' by {
            if i >= 5 {
                assert(("Path="@ + e)[i] == e[i - 5]);
            }
        }
    }
    lemma_first_index_concat("Path="@ + e, seq!['\n'] + ("DeletionDate="@ + date + "\n"@), '\n');
    let line = rest.take(5 + e.len() as int);
    assert(line =~= "Path="@ + e);
    if e.len() > 0 {
        assert(line.last() == e.last());
    }
    assert(strip_cr(line) == line);
    assert(line.subrange(0, 5) =~= "Path="@);
    assert(line.skip(5) =~= e);
    assert(path_line_value(rest) == Some(e));
    law_unescape_escape(path);
}

proof fn lemma_escape_plain(p: Seq<char>)
    ensures
        forall|i: int| 0 <= i < escape_path(p).len() ==> escape_path(p)[i] != '\n' && escape_path(p)[i]
            != '\r',
    decreases p.len(),
{
    reveal_strlit("%25");
    reveal_strlit("%0A");
    reveal_strlit("%0D");
    if p.len() > 0 {
        lemma_escape_plain(p.drop_first());
        let a = escape_char(p[0]);
        let b = escape_path(p.drop_first());
        assert forall|i: int| 0 <= i < (a + b).len() implies (a + b)[i] != '\n' && (a + b)[i] != '\r' by {
            if i >= a.len() {
                assert((a + b)[i] == b[i - a.len()]);
            }
        }
    }
}

proof fn lemma_first_index_concat(x: Seq<char>, y: Seq<char>, c: char)
    requires
        !x.contains(c),
        y.len() > 0,
        y[0] == c,
    ensures
        first_index(x + y, c) == x.len(),
    decreases x.len(),
{
    if x.len() == 0 {
        assert(x + y =~= y);
    } else {
        assert((x + y).drop_first() =~= x.drop_first() + y);
        assert(!x.drop_first().contains(c)) by {
            if x.drop_first().contains(c) {
                let j = choose|j: int| 0 <= j < x.drop_first().len() && x.drop_first()[j] == c;
                assert(x[j + 1] == c);
            }
        }
        assert(x[0] != c);
        lemma_first_index_concat(x.drop_first(), y, c);
    }
}

/// Move multiple files to trash: pairs each failure with its path.
pub fn trash_files(paths: &[String], outcomes: Vec<Result<String, String>>) -> (res: Vec<
    Result<String, (String, String)>,
>)
    requires
        paths@.len() == outcomes@.len(),
    ensures
        res@.len() == paths@.len(),
        forall|i: int|
            0 <= i < res@.len() ==> match (#[trigger] res@[i], outcomes@[i]) {
                (Ok(t), Ok(u)) => t == u,
                (Err((p, e)), Err(f)) => p == paths@[i] && e == f,
                _ => false,
            },
{
    let mut res: Vec<Result<String, (String, String)>> = Vec::new();
    let mut i: usize = 0;
    while i < outcomes.len()
        invariant
            paths@.len() == outcomes@.len(),
            i <= outcomes.len(),
            res@.len() == i,
            forall|k: int|
                0 <= k < i ==> match (#[trigger] res@[k], outcomes@[k]) {
                    (Ok(t), Ok(u)) => t == u,
                    (Err((p, e)), Err(f)) => p == paths@[k] && e == f,
                    _ => false,
                },
        decreases outcomes.len() - i,
    {
        match &outcomes[i] {
            Ok(t) => res.push(Ok(t.clone())),
            Err(e) => res.push(Err((paths[i].clone(), e.clone()))),
        }
        i = i + 1;
    }
    res
}

} // verus!
