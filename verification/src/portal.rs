//! The file chooser portal backend's decisions: which picker to start and
//! with what arguments, what the portal's options say, which requests are
//! pending and cancelled, and what is answered.
use vstd::prelude::*;
use vstd::utf8::{decode_utf8, valid_utf8};
use crate::text::{chars_of, copy_string, decimal, push_decimal, push_str, starts_with};

verus! {

/// Response codes for portal dialogs.
#[derive(Debug, Clone, Copy, PartialEq, Eq, Structural)]
pub enum ResponseCode {
    /// User accepted the dialog.
    Success,
    /// User cancelled the dialog.
    Cancelled,
    /// An error occurred.
    Error,
}

/// The number a response code is sent as.
pub open spec fn code_of(r: ResponseCode) -> u32 {
    match r {
        ResponseCode::Success => 0,
        ResponseCode::Cancelled => 1,
        ResponseCode::Error => 2,
    }
}

impl ResponseCode {
    /// The number the code is sent as.
    pub fn code(self) -> (res: u32)
        ensures
            res == code_of(self),
    {
        match self {
            ResponseCode::Success => 0,
            ResponseCode::Cancelled => 1,
            ResponseCode::Error => 2,
        }
    }
}

// -- the parent window -----------------------------------------------------

/// The value of a hexadecimal digit, -1 for anything else.
pub open spec fn hex_digit(c: char) -> int {
    if '0' <= c <= '9' {
        c as int - '0' as int
    } else if 'a' <= c <= 'f' {
        c as int - 'a' as int + 10
    } else if 'A' <= c <= 'F' {
        c as int - 'A' as int + 10
    } else {
        -1
    }
}

/// Every character is a hexadecimal digit.
pub open spec fn all_hex(s: Seq<char>) -> bool {
    forall|i: int| 0 <= i < s.len() ==> hex_digit(#[trigger] s[i]) >= 0
}

/// The number the hexadecimal digits stand for.
pub open spec fn hex_value(s: Seq<char>) -> int
    decreases s.len(),
{
    if s.len() == 0 {
        0
    } else {
        hex_value(s.drop_last()) * 16 + hex_digit(s.last())
    }
}

/// A hexadecimal number as `u32::from_str_radix` reads it: an optional `+`,
/// then at least one digit, the value fitting in `u32`.
pub open spec fn hex_u32(s: Seq<char>) -> Option<u32> {
    let d = if s.len() > 0 && s[0] == '+' { s.drop_first() } else { s };
    if d.len() > 0 && all_hex(d) && hex_value(d) <= u32::MAX {
        Some(hex_value(d) as u32)
    } else {
        None
    }
}

/// The X11 window a portal `parent_window` names: `x11:` and the window
/// id in hexadecimal.
pub open spec fn parent_window_of(s: Seq<char>) -> Option<u32> {
    if s.len() >= 4 && s.take(4) == seq!['x', '1', '1', ':'] {
        hex_u32(s.skip(4))
    } else {
        None
    }
}

/// Digits never make a number smaller.
proof fn lemma_hex_value_nonneg(s: Seq<char>)
    requires
        all_hex(s),
    ensures
        hex_value(s) >= 0,
    decreases s.len(),
{
    if s.len() > 0 {
        lemma_hex_value_nonneg(s.drop_last());
    }
}

/// Parse the X11 window id from a portal parent_window string
/// (`x11:<xid>`, the id in hexadecimal).
pub fn parse_parent_window(parent_window: &str) -> (res: Option<u32>)
    ensures
        res == parent_window_of(parent_window@),
{
    let v = chars_of(parent_window);
    let prefix: Vec<char> = vec!['x', '1', '1', ':'];
    proof {
        assert(prefix@ =~= seq!['x', '1', '1', ':']);
    }
    if !starts_with(&v, &prefix) {
        proof {
            if v@.len() >= 4 && v@.take(4) == seq!['x', '1', '1', ':'] {
                assert(crate::text::occurs_at(v@, prefix@, 0));
            }
        }
        return None;
    }
    proof {
        assert(v@.take(4) =~= prefix@);
    }
    let ghost s = v@.skip(4);
    let mut start: usize = 4;
    if v.len() > 4 && v[4] == '+' {
        start = 5;
    }
    let ghost d = v@.skip(start as int);
    proof {
        assert(d =~= (if s.len() > 0 && s[0] == '+' { s.drop_first() } else { s }));
    }
    if start >= v.len() {
        return None;
    }
    let mut value: u64 = 0;
    let mut i = start;
    while i < v.len()
        invariant
            start <= i <= v.len(),
            v@ == parent_window@,
            v@.len() >= 4,
            v@.take(4) == seq!['x', '1', '1', ':'],
            s == v@.skip(4),
            d == (if s.len() > 0 && s[0] == '+' { s.drop_first() } else { s }),
            d == v@.skip(start as int),
            all_hex(v@.subrange(start as int, i as int)),
            value == hex_value(v@.subrange(start as int, i as int)),
            value <= u32::MAX,
        decreases v.len() - i,
    {
        let c = v[i];
        let digit: u64 = if '0' <= c && c <= '9' {
            (c as u32 - '0' as u32) as u64
        } else if 'a' <= c && c <= 'f' {
            (c as u32 - 'a' as u32 + 10) as u64
        } else if 'A' <= c && c <= 'F' {
            (c as u32 - 'A' as u32 + 10) as u64
        } else {
            proof {
                assert(d[i - start] == c);
                assert(!all_hex(d));
            }
            return None;
        };
        proof {
            assert(v@.subrange(start as int, i + 1).drop_last() =~= v@.subrange(start as int, i as int));
            assert(v@.subrange(start as int, i + 1).last() == c);
        }
        let next = value * 16 + digit;
        if next > u32::MAX as u64 {
            proof {
                assert(d.take(i + 1 - start) =~= v@.subrange(start as int, i + 1));
                assert(hex_value(v@.subrange(start as int, i + 1)) == next);
                lemma_hex_prefix_bound(d, (i + 1 - start) as int);
            }
            return None;
        }
        value = next;
        i = i + 1;
    }
    proof {
        assert(v@.subrange(start as int, i as int) =~= d);
    }
    Some(value as u32)
}

/// A number no smaller than that of its leading digits.
proof fn lemma_hex_prefix_bound(d: Seq<char>, k: int)
    requires
        0 <= k <= d.len(),
    ensures
        all_hex(d) ==> hex_value(d) >= hex_value(d.take(k)),
    decreases d.len() - k,
{
    if k < d.len() && all_hex(d) {
        lemma_hex_prefix_bound(d, k + 1);
        assert(d.take(k + 1).drop_last() =~= d.take(k));
        assert(all_hex(d.take(k)));
        lemma_hex_value_nonneg(d.take(k));
        assert(hex_digit(d.take(k + 1).last()) >= 0);
    } else if k == d.len() {
        assert(d.take(k) =~= d);
    }
}

// -- the picker's arguments --------------------------------------------------

/// The parts joined with `sep` between them.
pub open spec fn joined(parts: Seq<Seq<char>>, sep: char) -> Seq<char>
    decreases parts.len(),
{
    if parts.len() == 0 {
        Seq::empty()
    } else if parts.len() == 1 {
        parts[0]
    } else {
        joined(parts.drop_last(), sep).push(sep) + parts.last()
    }
}

/// The text of an optional string.
pub open spec fn opt_text(o: Option<String>) -> Option<Seq<char>> {
    match o {
        Some(s) => Some(s@),
        None => None,
    }
}

/// The strings' texts.
pub open spec fn texts(v: Seq<String>) -> Seq<Seq<char>> {
    v.map_values(|s: String| s@)
}

/// The arguments the picker is started with to open files: picker mode,
/// then the title (when there is one), directory mode, multiple selection,
/// the filters joined by `;` (when there are any), the parent window in
/// decimal, and the folder to start in.
pub open spec fn picker_args_spec(
    title: Seq<char>,
    directory_mode: bool,
    multiple: bool,
    filters: Seq<Seq<char>>,
    current_folder: Option<Seq<char>>,
    parent_window: Option<u32>,
) -> Seq<Seq<char>> {
    seq![seq!['-', '-', 'p', 'i', 'c', 'k', 'e', 'r']] + (if title.len() > 0 {
        seq![seq!['-', '-', 't', 'i', 't', 'l', 'e'], title]
    } else {
        Seq::empty()
    }) + (if directory_mode {
        seq![seq!['-', '-', 'd', 'i', 'r', 'e', 'c', 't', 'o', 'r', 'y']]
    } else {
        Seq::empty()
    }) + (if multiple {
        seq![seq!['-', '-', 'm', 'u', 'l', 't', 'i', 'p', 'l', 'e']]
    } else {
        Seq::empty()
    }) + (if filters.len() > 0 {
        seq![seq!['-', '-', 'f', 'i', 'l', 't', 'e', 'r'], joined(filters, ';')]
    } else {
        Seq::empty()
    }) + (match parent_window {
        Some(w) => seq![
            seq!['-', '-', 'p', 'a', 'r', 'e', 'n', 't', '-', 'w', 'i', 'n', 'd', 'o', 'w'],
            decimal(w as nat),
        ],
        None => Seq::empty(),
    }) + (match current_folder {
        Some(f) => seq![f],
        None => Seq::empty(),
    })
}

/// The arguments the picker is started with to save a file: picker and
/// save mode, then the suggested file name, the title (when there is one),
/// the parent window in decimal, and the folder to start in.
pub open spec fn save_args_spec(
    title: Seq<char>,
    suggested_filename: Option<Seq<char>>,
    current_folder: Option<Seq<char>>,
    parent_window: Option<u32>,
) -> Seq<Seq<char>> {
    seq![seq!['-', '-', 'p', 'i', 'c', 'k', 'e', 'r'], seq!['-', '-', 's', 'a', 'v', 'e']] + (match suggested_filename {
        Some(f) => seq![seq!['-', '-', 's', 'a', 'v', 'e', '-', 'f', 'i', 'l', 'e', 'n', 'a', 'm', 'e'], f],
        None => Seq::empty(),
    }) + (if title.len() > 0 {
        seq![seq!['-', '-', 't', 'i', 't', 'l', 'e'], title]
    } else {
        Seq::empty()
    }) + (match parent_window {
        Some(w) => seq![
            seq!['-', '-', 'p', 'a', 'r', 'e', 'n', 't', '-', 'w', 'i', 'n', 'd', 'o', 'w'],
            decimal(w as nat),
        ],
        None => Seq::empty(),
    }) + (match current_folder {
        Some(f) => seq![f],
        None => Seq::empty(),
    })
}

/// The parts joined with `;` between them.
fn join_filters(filters: &Vec<String>) -> (res: String)
    ensures
        res@ == joined(texts(filters@), ';'),
{
    let mut out = String::new();
    let mut i: usize = 0;
    while i < filters.len()
        invariant
            i <= filters@.len(),
            out@ == joined(texts(filters@.take(i as int)), ';'),
        decreases filters@.len() - i,
    {
        proof {
            assert(texts(filters@.take(i + 1)).drop_last() =~= texts(filters@.take(i as int)));
            assert(texts(filters@.take(i + 1)).last() == filters@[i as int]@);
        }
        if i > 0 {
            crate::text::push_char(&mut out, ';');
        } else {
            proof {
                assert(texts(filters@.take(0)) =~= Seq::<Seq<char>>::empty());
                assert(out@ =~= Seq::<char>::empty());
            }
        }
        push_str(&mut out, &filters[i]);
        proof {
            if i == 0 {
                assert(out@ =~= filters@[0]@);
            } else {
                assert(out@ =~= joined(texts(filters@.take(i as int)), ';').push(';') + filters@[i as int]@);
            }
        }
        i = i + 1;
    }
    proof {
        assert(filters@.take(i as int) =~= filters@);
    }
    out
}

/// `n` in decimal.
fn decimal_text(n: u32) -> (res: String)
    ensures
        res@ == decimal(n as nat),
{
    let mut s = String::new();
    push_decimal(&mut s, n as u64);
    assert(s@ =~= decimal(n as nat));
    s
}

/// The arguments to start the picker with to open files.
pub fn picker_args(
    title: &str,
    directory_mode: bool,
    multiple: bool,
    filters: &Vec<String>,
    current_folder: Option<String>,
    parent_window: Option<u32>,
) -> (res: Vec<String>)
    ensures
        texts(res@) == picker_args_spec(
            title@,
            directory_mode,
            multiple,
            texts(filters@),
            opt_text(current_folder),
            parent_window,
        ),
{
    proof {
        reveal_strlit("--picker");
        reveal_strlit("--title");
        reveal_strlit("--directory");
        reveal_strlit("--multiple");
        reveal_strlit("--filter");
        reveal_strlit("--parent-window");
        assert("--picker"@ =~= seq!['-', '-', 'p', 'i', 'c', 'k', 'e', 'r']);
        assert("--title"@ =~= seq!['-', '-', 't', 'i', 't', 'l', 'e']);
        assert("--directory"@ =~= seq!['-', '-', 'd', 'i', 'r', 'e', 'c', 't', 'o', 'r', 'y']);
        assert("--multiple"@ =~= seq!['-', '-', 'm', 'u', 'l', 't', 'i', 'p', 'l', 'e']);
        assert("--filter"@ =~= seq!['-', '-', 'f', 'i', 'l', 't', 'e', 'r']);
        assert("--parent-window"@ =~= seq!['-', '-', 'p', 'a', 'r', 'e', 'n', 't', '-', 'w', 'i', 'n', 'd', 'o', 'w']);
    }
    let ghost cf = opt_text(current_folder);
    let mut args: Vec<String> = Vec::new();
    args.push(copy_string("--picker"));
    let ghost a0 = texts(args@);
    let title_len = chars_of(title).len();
    if title_len > 0 {
        args.push(copy_string("--title"));
        args.push(copy_string(title));
    }
    let ghost a1 = texts(args@);
    if directory_mode {
        args.push(copy_string("--directory"));
    }
    let ghost a2 = texts(args@);
    if multiple {
        args.push(copy_string("--multiple"));
    }
    let ghost a3 = texts(args@);
    if filters.len() > 0 {
        args.push(copy_string("--filter"));
        args.push(join_filters(filters));
    }
    let ghost a4 = texts(args@);
    match parent_window {
        Some(w) => {
            args.push(
                copy_string("--parent-window"),
            );
            args.push(decimal_text(w));
        },
        None => {},
    }
    let ghost a5 = texts(args@);
    match current_folder {
        Some(f) => {
            args.push(f);
        },
        None => {},
    }
    proof {
        let want = picker_args_spec(title@, directory_mode, multiple, texts(filters@), cf, parent_window);
        assert(texts(args@) =~= want);
    }
    args
}

/// The arguments to start the picker with to save a file.
pub fn save_picker_args(
    title: &str,
    suggested_filename: Option<String>,
    current_folder: Option<String>,
    parent_window: Option<u32>,
) -> (res: Vec<String>)
    ensures
        texts(res@) == save_args_spec(
            title@,
            opt_text(suggested_filename),
            opt_text(current_folder),
            parent_window,
        ),
{
    proof {
        reveal_strlit("--picker");
        reveal_strlit("--save");
        reveal_strlit("--save-filename");
        reveal_strlit("--title");
        reveal_strlit("--parent-window");
        assert("--picker"@ =~= seq!['-', '-', 'p', 'i', 'c', 'k', 'e', 'r']);
        assert("--save"@ =~= seq!['-', '-', 's', 'a', 'v', 'e']);
        assert("--save-filename"@ =~= seq!['-', '-', 's', 'a', 'v', 'e', '-', 'f', 'i', 'l', 'e', 'n', 'a', 'm', 'e']);
        assert("--title"@ =~= seq!['-', '-', 't', 'i', 't', 'l', 'e']);
        assert("--parent-window"@ =~= seq!['-', '-', 'p', 'a', 'r', 'e', 'n', 't', '-', 'w', 'i', 'n', 'd', 'o', 'w']);
    }
    let ghost cf = opt_text(current_folder);
    let ghost sf = opt_text(suggested_filename);
    let mut args: Vec<String> = Vec::new();
    args.push(copy_string("--picker"));
    args.push(copy_string("--save"));
    match suggested_filename {
        Some(f) => {
            args.push(
                copy_string("--save-filename"),
            );
            args.push(f);
        },
        None => {},
    }
    let title_len = chars_of(title).len();
    if title_len > 0 {
        args.push(copy_string("--title"));
        args.push(copy_string(title));
    }
    match parent_window {
        Some(w) => {
            args.push(
                copy_string("--parent-window"),
            );
            args.push(decimal_text(w));
        },
        None => {},
    }
    match current_folder {
        Some(f) => {
            args.push(f);
        },
        None => {},
    }
    proof {
        let want = save_args_spec(title@, sf, cf, parent_window);
        assert(texts(args@) =~= want);
    }
    args
}

// -- the portal's options -----------------------------------------------------

/// The glob patterns (type 0) of a filter's patterns, in order; MIME types
/// (type 1) are left out.
pub open spec fn glob_of(pats: Seq<(u32, String)>) -> Seq<Seq<char>>
    decreases pats.len(),
{
    if pats.len() == 0 {
        Seq::empty()
    } else {
        glob_of(pats.drop_last()) + (if pats.last().0 == 0 {
            seq![pats.last().1@]
        } else {
            Seq::empty()
        })
    }
}

/// The glob patterns of all filters (each a name and its patterns), in
/// order.
pub open spec fn globs(filters: Seq<(String, Vec<(u32, String)>)>) -> Seq<Seq<char>>
    decreases filters.len(),
{
    if filters.len() == 0 {
        Seq::empty()
    } else {
        globs(filters.drop_last()) + glob_of(filters.last().1@)
    }
}

/// The glob patterns of the portal's `filters` option (each filter a name
/// and a list of patterns, of type 0 for a glob and 1 for a MIME type).
pub fn parse_filters(filters: &Vec<(String, Vec<(u32, String)>)>) -> (res: Vec<String>)
    ensures
        texts(res@) == globs(filters@),
{
    let mut out: Vec<String> = Vec::new();
    let mut i: usize = 0;
    while i < filters.len()
        invariant
            i <= filters@.len(),
            texts(out@) == globs(filters@.take(i as int)),
        decreases filters@.len() - i,
    {
        let pats = &filters[i].1;
        let ghost before = texts(out@);
        let mut j: usize = 0;
        while j < pats.len()
            invariant
                j <= pats@.len(),
                pats@ == filters@[i as int].1@,
                texts(out@) == before + glob_of(pats@.take(j as int)),
            decreases pats@.len() - j,
        {
            proof {
                assert(pats@.take(j + 1).drop_last() =~= pats@.take(j as int));
                assert(pats@.take(j + 1).last() == pats@[j as int]);
            }
            if pats[j].0 == 0 {
                let t = pats[j].1.clone();
                let ghost old_out = out@;
                out.push(t);
                proof {
                    assert(t@ == pats@[j as int].1@);
                    assert(out@ =~= old_out.push(t));
                    assert(texts(out@) =~= texts(old_out).push(t@));
                    assert(texts(out@) =~= before + glob_of(pats@.take(j + 1)));
                }
            } else {
                proof {
                    assert(glob_of(pats@.take(j + 1)) =~= glob_of(pats@.take(j as int)));
                }
            }
            j = j + 1;
        }
        proof {
            assert(pats@.take(j as int) =~= pats@);
            assert(filters@.take(i + 1).drop_last() =~= filters@.take(i as int));
            assert(texts(out@) =~= globs(filters@.take(i + 1)));
        }
        i = i + 1;
    }
    proof {
        assert(filters@.take(i as int) =~= filters@);
    }
    out
}

/// The bytes before the first NUL byte.
pub open spec fn before_nul(b: Seq<u8>) -> Seq<u8>
    decreases b.len(),
{
    if b.len() == 0 {
        b
    } else if b[0] == 0 {
        Seq::empty()
    } else {
        seq![b[0]] + before_nul(b.drop_first())
    }
}

/// `String::from_utf8`: the text the bytes encode, or `None` where they are
/// not UTF-8, as std documents it.
#[verifier::external_body]
fn utf8_text(bytes: Vec<u8>) -> (res: Option<String>)
    ensures
        match res {
            Some(s) => valid_utf8(bytes@) && s@ == decode_utf8(bytes@),
            None => !valid_utf8(bytes@),
        },
{
    String::from_utf8(bytes).ok()
}

/// The folder to start in, from the portal's `current_folder` option: the
/// bytes up to the first NUL, as UTF-8 text (`None` where they are not).
pub fn parse_current_folder(bytes: &Vec<u8>) -> (res: Option<String>)
    ensures
        match res {
            Some(s) => valid_utf8(before_nul(bytes@)) && s@ == decode_utf8(before_nul(bytes@)),
            None => !valid_utf8(before_nul(bytes@)),
        },
{
    let mut out: Vec<u8> = Vec::new();
    let mut i: usize = 0;
    proof {
        assert(bytes@.skip(0) =~= bytes@);
        assert(out@ + before_nul(bytes@) =~= before_nul(bytes@));
    }
    while i < bytes.len() && bytes[i] != 0
        invariant
            i <= bytes@.len(),
            forall|k: int| 0 <= k < i ==> bytes@[k] != 0,
            out@ == bytes@.take(i as int),
            before_nul(bytes@) == out@ + before_nul(bytes@.skip(i as int)),
        decreases bytes@.len() - i,
    {
        proof {
            assert(bytes@.skip(i as int).drop_first() =~= bytes@.skip(i + 1));
            assert(bytes@.skip(i as int)[0] == bytes@[i as int]);
            assert(out@.push(bytes@[i as int]) + before_nul(bytes@.skip(i + 1)) =~= out@ + (seq![bytes@[i as int]]
                + before_nul(bytes@.skip(i + 1))));
        }
        out.push(bytes[i]);
        proof {
            assert(bytes@.take(i + 1) =~= bytes@.take(i as int).push(bytes@[i as int]));
        }
        i = i + 1;
    }
    proof {
        if i < bytes@.len() {
            assert(bytes@.skip(i as int)[0] == 0);
        } else {
            assert(bytes@.skip(i as int) =~= Seq::<u8>::empty());
        }
        assert(before_nul(bytes@) =~= out@);
    }
    utf8_text(out)
}

// -- the picker's answer ---------------------------------------------------------

/// The lines of the picker's output that name something (the empty ones
/// dropped).
pub fn picker_paths(lines: Vec<String>) -> (res: Vec<String>)
    ensures
        res@ == lines@.filter(|l: String| l@.len() > 0),
{
    let mut out: Vec<String> = Vec::new();
    let mut i: usize = 0;
    while i < lines.len()
        invariant
            i <= lines@.len(),
            out@ == lines@.take(i as int).filter(|l: String| l@.len() > 0),
        decreases lines@.len() - i,
    {
        let ghost before = lines@.take(i + 1);
        proof {
            assert(before.drop_last() =~= lines@.take(i as int));
            assert(before.last() == lines@[i as int]);
        }
        let n = chars_of(&lines[i]).len();
        if n > 0 {
            out.push(lines[i].clone());
        }
        proof {
            reveal(Seq::filter);
            assert(before.filter(|l: String| l@.len() > 0) == out@);
        }
        i = i + 1;
    }
    proof {
        assert(lines@.take(i as int) =~= lines@);
    }
    out
}

/// The `file://` URI of a path: the path percent-encoded behind `file://`.
pub open spec fn file_uri(p: Seq<char>) -> Seq<char> {
    crate::recents::recent_uri(p)
}

/// The answer to a file chooser request: the chosen paths as `file://`
/// URIs, in order.
pub fn build_file_chooser_response(paths: Vec<String>) -> (res: Vec<String>)
    ensures
        texts(res@) == texts(paths@).map_values(|p: Seq<char>| file_uri(p)),
{
    let mut out: Vec<String> = Vec::new();
    let mut i: usize = 0;
    while i < paths.len()
        invariant
            i <= paths@.len(),
            texts(out@) == texts(paths@.take(i as int)).map_values(|p: Seq<char>| file_uri(p)),
        decreases paths@.len() - i,
    {
        let u = crate::recents::recent_uri_of(paths[i].as_str());
        let ghost before = out@;
        out.push(u);
        proof {
            assert(paths@.take(i + 1) =~= paths@.take(i as int).push(paths@[i as int]));
            assert(out@ =~= before.push(u));
            assert(texts(paths@.take(i + 1)) =~= texts(paths@.take(i as int)).push(paths@[i as int]@));
            assert(texts(out@) =~= texts(before).push(u@));
            assert(texts(out@) =~= texts(paths@.take(i + 1)).map_values(|p: Seq<char>| file_uri(p)));
        }
        i = i + 1;
    }
    proof {
        assert(paths@.take(i as int) =~= paths@);
    }
    out
}

/// What the portal answers once the picker is done: a cancelled request,
/// or a picker that named nothing, is answered as cancelled with no
/// results; else as a success with the paths as URIs.
pub fn picker_response(cancelled: bool, paths: Vec<String>) -> (res: (ResponseCode, Vec<String>))
    ensures
        cancelled || paths@.len() == 0 ==> res.0 == ResponseCode::Cancelled && res.1@.len() == 0,
        !cancelled && paths@.len() > 0 ==> res.0 == ResponseCode::Success && texts(res.1@) == texts(
            paths@,
        ).map_values(|p: Seq<char>| file_uri(p)),
{
    if cancelled || paths.len() == 0 {
        (ResponseCode::Cancelled, Vec::new())
    } else {
        (ResponseCode::Success, build_file_chooser_response(paths))
    }
}

} // verus!
