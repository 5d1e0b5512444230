//! Unix path strings: file name, extension and joining.
//!
//! Paths are held as `String`s; the functions here follow the component rules
//! of Unix paths (`/` separates components, empty and `.` components carry no
//! name, `..` names the parent).
use vstd::prelude::*;
use crate::text::{chars_eq, chars_of, push_char, push_chars, slice_chars, string_of};

verus! {

/// Index of the last `/` in `p`, or -1 when there is none.
pub open spec fn last_sep(p: Seq<char>) -> int
    decreases p.len(),
{
    if p.len() == 0 {
        -1
    } else if p.last() == '/' {
        p.len() - 1
    } else {
        last_sep(p.drop_last())
    }
}

/// The text after the last `/`.
pub open spec fn last_piece(p: Seq<char>) -> Seq<char> {
    p.skip(last_sep(p) + 1)
}

/// The one-character string ".".
pub open spec fn dot() -> Seq<char> {
    seq!['.']
}

/// The two-character string "..".
pub open spec fn dot_dot() -> Seq<char> {
    seq!['.', '.']
}

/// The final component of a path, when it is a name: trailing separators and
/// `.` components are passed over; a final `..`, a bare root and the empty
/// path have no file name.
pub open spec fn file_name(p: Seq<char>) -> Option<Seq<char>>
    decreases p.len(),
{
    let k = last_sep(p);
    let piece = last_piece(p);
    if piece.len() == 0 || piece == dot() {
        if k < 0 {
            None
        } else {
            proof {
                lemma_last_sep_range(p);
            }
            file_name(p.take(k))
        }
    } else if piece == dot_dot() {
        None
    } else {
        Some(piece)
    }
}

/// Index of the last `.` in `s`, or -1 when there is none.
pub open spec fn last_dot(s: Seq<char>) -> int
    decreases s.len(),
{
    if s.len() == 0 {
        -1
    } else if s.last() == '.' {
        s.len() - 1
    } else {
        last_dot(s.drop_last())
    }
}

/// The extension of a file name: the text after its last `.`, when that dot
/// is not the first character.
pub open spec fn name_extension(name: Seq<char>) -> Option<Seq<char>> {
    if name == dot_dot() || last_dot(name) <= 0 {
        None
    } else {
        Some(name.skip(last_dot(name) + 1))
    }
}

/// The extension of a path's file name.
pub open spec fn extension(p: Seq<char>) -> Option<Seq<char>> {
    match file_name(p) {
        Some(name) => name_extension(name),
        None => None,
    }
}

/// `base` joined with `name`: an absolute `name` replaces `base`; otherwise a
/// separator is put between them unless `base` is empty or already ends in one.
pub open spec fn join(base: Seq<char>, name: Seq<char>) -> Seq<char> {
    if name.len() > 0 && name[0] == '/' {
        name
    } else if base.len() == 0 || base.last() == '/' {
        base + name
    } else {
        base.push('/') + name
    }
}

/// Whether something exists at `p`. Calls std's `Path::exists`; the answer
/// depends on the file system, so nothing is stated of it.
#[verifier::external_body]
pub(crate) fn path_exists(p: &str) -> bool {
    std::path::Path::new(p).exists()
}

/// The parent of a path, as std's `Path::parent` computes it.
pub uninterp spec fn std_parent(p: Seq<char>) -> Option<Seq<char>>;

/// Parent directory of a path. Calls std's `Path::parent`, which removes the
/// final component; its result, a pure function of the path, is named `std_parent`.
#[verifier::external_body]
pub(crate) fn parent_of(p: &str) -> (res: Option<String>)
    ensures
        res matches Some(s) ==> std_parent(p@) == Some(s@),
        res is None ==> std_parent(p@) is None,
{
    std::path::Path::new(p).parent().map(|q| q.to_string_lossy().to_string())
}

/// Whether a path ends with the components of `child`, as std's
/// `Path::ends_with` decides it (whole components only).
pub uninterp spec fn std_path_ends_with(p: Seq<char>, child: Seq<char>) -> bool;

/// Whether the path `p` ends with `child`. Calls std's `Path::ends_with`,
/// which compares whole components; its answer, a pure function of the two
/// paths, is named `std_path_ends_with`.
#[verifier::external_body]
pub(crate) fn path_ends_with(p: &str, child: &str) -> (res: bool)
    ensures
        res == std_path_ends_with(p@, child@),
{
    std::path::Path::new(p).ends_with(child)
}

/// What remains of a path after a leading path `base`, as std's
/// `Path::strip_prefix` computes it (`None` where `base` is not a leading run
/// of whole components of the path).
pub uninterp spec fn std_strip_prefix(p: Seq<char>, base: Seq<char>) -> Option<Seq<char>>;

/// The rest of `p` after the leading components `base`. Calls std's
/// `Path::strip_prefix`, which compares whole components; its result, a pure
/// function of the two paths, is named `std_strip_prefix`.
#[verifier::external_body]
pub(crate) fn strip_prefix_of(p: &str, base: &str) -> (res: Option<String>)
    ensures
        res matches Some(s) ==> std_strip_prefix(p@, base@) == Some(s@),
        res is None ==> std_strip_prefix(p@, base@) is None,
{
    std::path::Path::new(p).strip_prefix(base).ok().map(|q| q.to_string_lossy().to_string())
}

/// `last_sep` points into the path, or is -1.
pub proof fn lemma_last_sep_range(p: Seq<char>)
    ensures
        -1 <= last_sep(p) < p.len(),
    decreases p.len(),
{
    if p.len() > 0 && p.last() != '/' {
        lemma_last_sep_range(p.drop_last());
    }
}

pub proof fn lemma_last_sep_is(p: Seq<char>, k: int)
    requires
        -1 <= k < p.len(),
        k >= 0 ==> p[k] == '/',
        forall|j: int| k < j < p.len() ==> p[j] != '/',
    ensures
        last_sep(p) == k,
    decreases p.len(),
{
    if p.len() > 0 && p.last() != '/' {
        lemma_last_sep_is(p.drop_last(), k);
    }
}

proof fn lemma_last_dot_is(p: Seq<char>, k: int)
    requires
        -1 <= k < p.len(),
        k >= 0 ==> p[k] == '.',
        forall|j: int| k < j < p.len() ==> p[j] != '.',
    ensures
        last_dot(p) == k,
    decreases p.len(),
{
    if p.len() > 0 && p.last() != '.' {
        lemma_last_dot_is(p.drop_last(), k);
    }
}

/// Index of the last `/` in `p` (as `last_sep`, shifted by one so it fits a `usize`:
/// 0 means there is none).
fn last_sep_exec(p: &Vec<char>, len: usize) -> (res: usize)
    requires
        len <= p.len(),
    ensures
        res <= len,
        res as int == last_sep(p@.take(len as int)) + 1,
{
    let mut i: usize = len;
    while i > 0 && p[i - 1] != '/'
        invariant
            i <= len <= p.len(),
            forall|j: int| i <= j < len ==> p@[j] != '/',
        decreases i,
    {
        i = i - 1;
    }
    proof {
        lemma_last_sep_is(p@.take(len as int), i - 1);
    }
    i
}

/// The file name of a path (the final component, when it is a name).
pub fn file_name_of(p: &str) -> (res: Option<String>)
    ensures
        res matches Some(s) ==> file_name(p@) == Some(s@),
        res is None ==> file_name(p@) is None,
{
    let v = chars_of(p);
    let mut len: usize = v.len();
    assert(v@.take(len as int) == p@);
    loop
        invariant
            len <= v.len(),
            v@ == p@,
            file_name(p@) == file_name(v@.take(len as int)),
        decreases len,
    {
        let k = last_sep_exec(&v, len);
        let ghost q = v@.take(len as int);
        let piece = slice_chars(&v, k, len);
        assert(piece@ =~= last_piece(q));
        let is_dot = piece.len() == 1 && piece[0] == '.';
        let is_dot_dot = piece.len() == 2 && piece[0] == '.' && piece[1] == '.';
        proof {
            if piece@.len() == 1 && piece@[0] == '.' {
                assert(piece@ =~= dot());
            }
            if piece@ == dot() {
                assert(is_dot);
            }
            if is_dot_dot {
                assert(piece@ =~= dot_dot());
            }
            if piece@ == dot_dot() {
                assert(is_dot_dot);
            }
        }
        if piece.len() == 0 || is_dot {
            if k == 0 {
                return None;
            }
            assert(q.take(k - 1) == v@.take(k - 1));
            len = k - 1;
        } else if is_dot_dot {
            return None;
        } else {
            return Some(string_of(&piece));
        }
    }
}

/// The extension of a file name (text after the last `.`, when that dot is not first).
pub fn name_extension_of(name: &Vec<char>) -> (res: Option<Vec<char>>)
    ensures
        res matches Some(e) ==> name_extension(name@) == Some(e@),
        res is None ==> name_extension(name@) is None,
{
    let n = name.len();
    let mut i: usize = n;
    while i > 0 && name[i - 1] != '.'
        invariant
            i <= n == name.len(),
            forall|j: int| i <= j < n ==> name@[j] != '.',
        decreases i,
    {
        i = i - 1;
    }
    proof {
        lemma_last_dot_is(name@, i - 1);
    }
    let is_dot_dot = n == 2 && name[0] == '.' && name[1] == '.';
    proof {
        if is_dot_dot {
            assert(name@ =~= dot_dot());
        }
        if name@ == dot_dot() {
            assert(is_dot_dot);
        }
    }
    if is_dot_dot || i <= 1 {
        None
    } else {
        Some(slice_chars(name, i, n))
    }
}

/// The extension of a path's file name.
pub fn extension_of(p: &str) -> (res: Option<String>)
    ensures
        res matches Some(s) ==> extension(p@) == Some(s@),
        res is None ==> extension(p@) is None,
{
    match file_name_of(p) {
        Some(name) => {
            let v = chars_of(name.as_str());
            match name_extension_of(&v) {
                Some(e) => Some(string_of(&e)),
                None => None,
            }
        },
        None => None,
    }
}

/// `base` joined with `name` (std's `Path::join` on Unix).
pub fn join_path(base: &str, name: &str) -> (res: String)
    ensures
        res@ == join(base@, name@),
{
    let b = chars_of(base);
    let n = chars_of(name);
    if n.len() > 0 && n[0] == '/' {
        return string_of(&n);
    }
    let mut s = string_of(&b);
    if b.len() > 0 && b[b.len() - 1] != '/' {
        push_char(&mut s, '/');
    }
    push_chars(&mut s, &n);
    s
}


/// The named components of a path (everything between separators except
/// empty and `.` components), last component first.
pub open spec fn back_pieces(p: Seq<char>) -> Seq<Seq<char>>
    decreases p.len(),
{
    let k = last_sep(p);
    let piece = last_piece(p);
    let rest = if k < 0 {
        Seq::<Seq<char>>::empty()
    } else {
        proof {
            lemma_last_sep_range(p);
        }
        back_pieces(p.take(k))
    };
    if piece.len() == 0 || piece == dot() {
        rest
    } else {
        seq![piece] + rest
    }
}

/// The path starts at the root.
pub open spec fn has_root(p: Seq<char>) -> bool {
    p.len() > 0 && p[0] == '/'
}

/// The path starts with a `.` component (and not at the root).
pub open spec fn has_cur_dir(p: Seq<char>) -> bool {
    p.len() > 0 && p[0] == '.' && (p.len() == 1 || p[1] == '/')
}

/// Two paths have the same components (what `PathBuf`'s `==` compares):
/// separators may repeat or trail and inner `.` components are ignored.
pub open spec fn same_path(a: Seq<char>, b: Seq<char>) -> bool {
    &&& has_root(a) == has_root(b)
    &&& has_cur_dir(a) == has_cur_dir(b)
    &&& back_pieces(a) == back_pieces(b)
}

/// The views of a sequence of character buffers.
pub open spec fn char_views(v: Seq<Vec<char>>) -> Seq<Seq<char>> {
    v.map_values(|x: Vec<char>| x@)
}

pub(crate) fn back_pieces_exec(v: &Vec<char>) -> (res: Vec<Vec<char>>)
    ensures
        char_views(res@) == back_pieces(v@),
{
    let mut res: Vec<Vec<char>> = Vec::new();
    let mut len: usize = v.len();
    assert(v@.take(len as int) == v@);
    loop
        invariant
            len <= v.len(),
            back_pieces(v@) == char_views(res@) + back_pieces(v@.take(len as int)),
        decreases len,
    {
        let k = last_sep_exec(v, len);
        let ghost q = v@.take(len as int);
        let piece = slice_chars(v, k, len);
        assert(piece@ =~= last_piece(q));
        let is_dot = piece.len() == 1 && piece[0] == '.';
        proof {
            if piece@.len() == 1 && piece@[0] == '.' {
                assert(piece@ =~= dot());
            }
            if piece@ == dot() {
                assert(is_dot);
            }
        }
        let ghost old_res = char_views(res@);
        if !(piece.len() == 0 || is_dot) {
            res.push(piece);
            assert(char_views(res@) =~= old_res + seq![piece@]);
        }
        if k == 0 {
            assert(back_pieces(q) == (if piece@.len() == 0 || piece@ == dot() { Seq::<Seq<char>>::empty() } else { seq![piece@] }));
            assert(char_views(res@) + Seq::<Seq<char>>::empty() =~= char_views(res@));
            return res;
        }
        assert(q.take(k - 1) == v@.take(k - 1));
        assert(char_views(res@) + back_pieces(v@.take(k - 1)) =~= old_res + back_pieces(q));
        len = k - 1;
    }
}

fn pieces_eq(a: &Vec<Vec<char>>, b: &Vec<Vec<char>>) -> (res: bool)
    ensures
        res == (char_views(a@) == char_views(b@)),
{
    if a.len() != b.len() {
        return false;
    }
    let n = a.len();
    let mut i: usize = 0;
    while i < n
        invariant
            n == a.len(),
            n == b.len(),
            i <= n,
            forall|j: int| 0 <= j < i ==> char_views(a@)[j] == char_views(b@)[j],
        decreases n - i,
    {
        if !chars_eq(&a[i], &b[i]) {
            assert(char_views(a@)[i as int] != char_views(b@)[i as int]);
            return false;
        }
        i = i + 1;
    }
    assert(char_views(a@) =~= char_views(b@));
    true
}

/// Whether two paths name the same components (`PathBuf`'s `==`).
pub fn path_eq(a: &str, b: &str) -> (res: bool)
    ensures
        res == same_path(a@, b@),
{
    let va = chars_of(a);
    let vb = chars_of(b);
    let ra = va.len() > 0 && va[0] == '/';
    let rb = vb.len() > 0 && vb[0] == '/';
    let ca = va.len() > 0 && va[0] == '.' && (va.len() == 1 || va[1] == '/');
    let cb = vb.len() > 0 && vb[0] == '.' && (vb.len() == 1 || vb[1] == '/');
    if ra != rb || ca != cb {
        return false;
    }
    let pa = back_pieces_exec(&va);
    let pb = back_pieces_exec(&vb);
    pieces_eq(&pa, &pb)
}

} // verus!
