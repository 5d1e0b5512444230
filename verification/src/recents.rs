//! XDG recently-used files: entries, URI escaping and the manager's cache.
use vstd::prelude::*;
use vstd::utf8::encode_scalar;
use crate::path::{file_name_of, join, join_path, parent_of, std_parent, file_name};
use crate::places::data_local_dir;
use crate::apps::opt_text;
use crate::path::path_exists;
use crate::xbel::{bookmark_views, bookmarks_read, entries_read, entry_views, read_all_bookmarks, read_recent_entries, record_visit, visited_bookmarks, xbel_document, xbel_out, xml_document_of, BookmarkView, StoredBookmark};
use crate::text::{all_ascii, chars_of, is_ascii_char, push_char, push_chars, string_of, occurs_at};

verus! {

/// Maximum number of recent entries to track.
pub const MAX_ENTRIES: usize = 25;

#[verifier::external_type_specification]
#[verifier::external_body]
pub struct ExIoError(std::io::Error);

/// Errors from recents operations.
#[derive(Debug)]
pub enum RecentsError {
    /// Failed to read or write the xbel file.
    Io(std::io::Error),
    /// XML parse error.
    Xml(quick_xml::Error),
    /// Invalid timestamp format.
    InvalidTimestamp,
}

/// A recently accessed file from the XDG recently-used.xbel file.
#[derive(Debug)]
pub struct RecentEntry {
    /// File path (decoded from file:// URI).
    pub path: String,
    /// MIME type (e.g., "image/png", "inode/directory").
    pub mime_type: Option<String>,
    /// Last visit, in nanoseconds since the Unix epoch.
    pub visited: i128,
    /// Last modification, in nanoseconds since the Unix epoch.
    pub modified: i128,
}

impl RecentEntry {
    /// Returns true if this entry is a directory.
    pub fn is_directory(&self) -> (res: bool)
        ensures
            res == (self.mime_type matches Some(m) && m@ == "inode/directory"@),
    {
        match &self.mime_type {
            Some(m) => {
                let v = chars_of(m.as_str());
                let d = chars_of("inode/directory");
                crate::text::chars_eq(&v, &d)
            },
            None => false,
        }
    }

    /// Returns the file name.
    pub fn file_name(&self) -> (res: Option<String>)
        ensures
            res matches Some(n) ==> file_name(self.path@) == Some(n@),
            res is None ==> file_name(self.path@) is None,
    {
        file_name_of(self.path.as_str())
    }

    /// Returns the parent directory.
    pub fn parent_dir(&self) -> (res: Option<String>)
        ensures
            res matches Some(d) ==> std_parent(self.path@) == Some(d@),
            res is None ==> std_parent(self.path@) is None,
    {
        parent_of(self.path.as_str())
    }

    /// A field-by-field copy of the entry.
    pub fn duplicate(&self) -> (res: RecentEntry)
        ensures
            res == *self,
    {
        RecentEntry {
            path: self.path.clone(),
            mime_type: match &self.mime_type {
                Some(m) => Some(m.clone()),
                None => None,
            },
            visited: self.visited,
            modified: self.modified,
        }
    }
}

// ---------------------------------------------------------------------------
// Percent encoding
// ---------------------------------------------------------------------------
/// Characters written as they are in a `file://` URI path.
pub open spec fn is_unreserved(c: char) -> bool {
    ('A' <= c && c <= 'Z') || ('a' <= c && c <= 'z') || ('0' <= c && c <= '9') || c == '-' || c
        == '_' || c == '.' || c == '~' || c == '/'
}

/// Upper-case hexadecimal digit for `d < 16`.
pub open spec fn hex_digit(d: nat) -> char {
    if d < 10 {
        (48 + d) as char
    } else {
        (55 + d) as char
    }
}

/// `%XX` for every byte.
pub open spec fn escape_bytes(bs: Seq<u8>) -> Seq<char>
    decreases bs.len(),
{
    if bs.len() == 0 {
        Seq::empty()
    } else {
        seq!['%', hex_digit((bs[0] / 16) as nat), hex_digit((bs[0] % 16) as nat)] + escape_bytes(
            bs.drop_first(),
        )
    }
}

/// How one character is written: itself when unreserved, else its UTF-8 bytes escaped.
pub open spec fn uri_char(c: char) -> Seq<char> {
    if is_unreserved(c) {
        seq![c]
    } else {
        escape_bytes(encode_scalar(c as u32))
    }
}

/// A path as written in a `file://` URI.
pub open spec fn percent_encode_spec(s: Seq<char>) -> Seq<char>
    decreases s.len(),
{
    if s.len() == 0 {
        Seq::empty()
    } else {
        uri_char(s[0]) + percent_encode_spec(s.drop_first())
    }
}

/// Value of a hexadecimal digit (either case).
pub open spec fn hex_value_of(c: char) -> Option<nat> {
    if '0' <= c && c <= '9' {
        Some((c as u32 - 48) as nat)
    } else if 'a' <= c && c <= 'f' {
        Some((c as u32 - 87) as nat)
    } else if 'A' <= c && c <= 'F' {
        Some((c as u32 - 55) as nat)
    } else {
        None
    }
}

/// The byte that the (up to two) characters after a `%` denote, as
/// `u8::from_str_radix(.., 16)` reads them when they take two bytes of UTF-8:
/// two hex digits, or `+` and one hex digit.
pub open spec fn escape_value(hex: Seq<char>) -> Option<nat> {
    if hex.len() != 2 {
        None
    } else if hex[0] == '+' {
        hex_value_of(hex[1])
    } else {
        match (hex_value_of(hex[0]), hex_value_of(hex[1])) {
            (Some(a), Some(b)) => Some(16 * a + b),
            _ => None,
        }
    }
}

/// Decoding of `%XX` escapes: each valid escape becomes the character whose
/// code is the byte; anything else is kept as it is.
pub open spec fn percent_decode_spec(s: Seq<char>) -> Seq<char>
    decreases s.len(),
{
    if s.len() == 0 {
        Seq::empty()
    } else if s[0] != '%' {
        seq![s[0]] + percent_decode_spec(s.drop_first())
    } else {
        let hex = s.drop_first().take(if s.len() >= 3 {
            2
        } else {
            s.len() - 1
        });
        let rest = s.skip(1 + hex.len() as int);
        match escape_value(hex) {
            Some(b) => seq![(b as u32) as char] + percent_decode_spec(rest),
            None => seq!['%'] + hex + percent_decode_spec(rest),
        }
    }
}

fn hex_digit_exec(d: u8) -> (res: char)
    requires
        d < 16,
    ensures
        res == hex_digit(d as nat),
{
    if d < 10 {
        (48u8 + d) as char
    } else {
        (55u8 + d) as char
    }
}

/// The UTF-8 encoding of a character.
fn utf8_of(c: char) -> (res: Vec<u8>)
    ensures
        res@ == encode_scalar(c as u32),
{
    let v: u32 = c as u32;
    proof {
        vstd::utf8::char_is_scalar(c);
    }
    let mut res: Vec<u8> = Vec::new();
    if v <= 0x7F {
        res.push((v & 0x7F) as u8);
    } else if v <= 0x7FF {
        res.push(0xC0 | ((v >> 6) & 0x1F) as u8);
        res.push(0x80 | (v & 0x3F) as u8);
    } else if v <= 0xFFFF {
        res.push(0xE0 | ((v >> 12) & 0x0F) as u8);
        res.push(0x80 | ((v >> 6) & 0x3F) as u8);
        res.push(0x80 | (v & 0x3F) as u8);
    } else {
        res.push(0xF0 | ((v >> 18) & 0x7) as u8);
        res.push(0x80 | ((v >> 12) & 0x3F) as u8);
        res.push(0x80 | ((v >> 6) & 0x3F) as u8);
        res.push(0x80 | (v & 0x3F) as u8);
    }
    assert(res@ =~= encode_scalar(v));
    res
}

proof fn lemma_percent_encode_snoc(s: Seq<char>, c: char)
    ensures
        percent_encode_spec(s.push(c)) == percent_encode_spec(s) + uri_char(c),
    decreases s.len(),
{
    if s.len() == 0 {
        assert(s.push(c).drop_first() =~= Seq::<char>::empty());
        assert(s.push(c)[0] == c);
        assert(percent_encode_spec(s) == Seq::<char>::empty());
        assert(percent_encode_spec(s.push(c)) == uri_char(c) + percent_encode_spec(s.push(c).drop_first()));
        assert(percent_encode_spec(s.push(c).drop_first()) == Seq::<char>::empty());
        assert(uri_char(c) + Seq::<char>::empty() =~= uri_char(c));
        assert(Seq::<char>::empty() + uri_char(c) =~= uri_char(c));
    } else {
        assert(s.push(c).drop_first() =~= s.drop_first().push(c));
        assert(s.push(c)[0] == s[0]);
        lemma_percent_encode_snoc(s.drop_first(), c);
        assert(uri_char(s[0]) + (percent_encode_spec(s.drop_first()) + uri_char(c)) =~= (uri_char(
            s[0],
        ) + percent_encode_spec(s.drop_first())) + uri_char(c));
    }
}

proof fn lemma_escape_bytes_snoc(bs: Seq<u8>, b: u8)
    ensures
        escape_bytes(bs.push(b)) == escape_bytes(bs) + seq![
            '%',
            hex_digit((b / 16) as nat),
            hex_digit((b % 16) as nat),
        ],
    decreases bs.len(),
{
    let t = seq!['%', hex_digit((b / 16) as nat), hex_digit((b % 16) as nat)];
    if bs.len() == 0 {
        assert(bs.push(b).drop_first() =~= Seq::<u8>::empty());
        assert(bs.push(b)[0] == b);
        assert(escape_bytes(bs) == Seq::<char>::empty());
        assert(escape_bytes(bs.push(b)) == t + escape_bytes(bs.push(b).drop_first()));
        assert(escape_bytes(bs.push(b).drop_first()) == Seq::<char>::empty());
        assert(t + Seq::<char>::empty() =~= t);
        assert(Seq::<char>::empty() + t =~= t);
    } else {
        assert(bs.push(b).drop_first() =~= bs.drop_first().push(b));
        assert(bs.push(b)[0] == bs[0]);
        lemma_escape_bytes_snoc(bs.drop_first(), b);
        let h = seq!['%', hex_digit((bs[0] / 16) as nat), hex_digit((bs[0] % 16) as nat)];
        assert(h + (escape_bytes(bs.drop_first()) + t) =~= (h + escape_bytes(bs.drop_first())) + t);
    }
}

/// Percent-encode a path for use in file:// URIs.
pub fn percent_encode(s: &str) -> (res: String)
    ensures
        res@ == percent_encode_spec(s@),
{
    let v = chars_of(s);
    let mut res = String::new();
    let mut i: usize = 0;
    while i < v.len()
        invariant
            i <= v.len(),
            res@ == percent_encode_spec(v@.take(i as int)),
        decreases v.len() - i,
    {
        let c = v[i];
        proof {
            lemma_percent_encode_snoc(v@.take(i as int), c);
            assert(v@.take(i + 1) =~= v@.take(i as int).push(c));
        }
        let ghost before = res@;
        if ('A' <= c && c <= 'Z') || ('a' <= c && c <= 'z') || ('0' <= c && c <= '9') || c == '-'
            || c == '_' || c == '.' || c == '~' || c == '/' {
            push_char(&mut res, c);
        } else {
            let bytes = utf8_of(c);
            let mut j: usize = 0;
            while j < bytes.len()
                invariant
                    j <= bytes.len(),
                    res@ == before + escape_bytes(bytes@.take(j as int)),
                decreases bytes.len() - j,
            {
                let b = bytes[j];
                proof {
                    lemma_escape_bytes_snoc(bytes@.take(j as int), b);
                    assert(bytes@.take(j + 1) =~= bytes@.take(j as int).push(b));
                }
                push_char(&mut res, '%');
                push_char(&mut res, hex_digit_exec(b / 16));
                push_char(&mut res, hex_digit_exec(b % 16));
                assert(res@ =~= before + escape_bytes(bytes@.take(j + 1)));
                j = j + 1;
            }
            assert(bytes@.take(bytes@.len() as int) == bytes@);
        }
        i = i + 1;
    }
    assert(v@.take(v@.len() as int) == v@);
    res
}

fn hex_value_exec(c: char) -> (res: Option<u8>)
    ensures
        match res {
            Some(v) => hex_value_of(c) == Some(v as nat),
            None => hex_value_of(c) is None,
        },
{
    if '0' <= c && c <= '9' {
        Some((c as u32 - 48) as u8)
    } else if 'a' <= c && c <= 'f' {
        Some((c as u32 - 87) as u8)
    } else if 'A' <= c && c <= 'F' {
        Some((c as u32 - 55) as u8)
    } else {
        None
    }
}

/// Percent-decode a URL path component.
pub fn percent_decode(s: &str) -> (res: String)
    ensures
        res@ == percent_decode_spec(s@),
{
    let v = chars_of(s);
    let n = v.len();
    let mut out: Vec<char> = Vec::new();
    let mut i: usize = 0;
    assert(v@.skip(0) == v@);
    while i < n
        invariant
            n == v.len(),
            i <= n,
            percent_decode_spec(v@) == out@ + percent_decode_spec(v@.skip(i as int)),
        decreases n - i,
    {
        let ghost t = v@.skip(i as int);
        let c = v[i];
        if c != '%' {
            assert(t.drop_first() =~= v@.skip(i + 1));
            let ghost before = out@;
            out.push(c);
            assert(before + (seq![c] + percent_decode_spec(v@.skip(i + 1))) =~= out@
                + percent_decode_spec(v@.skip(i + 1)));
            i = i + 1;
        } else {
            let take: usize = if n - i >= 3 {
                2
            } else {
                n - i - 1
            };
            let hex = slice_chars_local(&v, i + 1, i + 1 + take);
            assert(hex@ =~= t.drop_first().take(take as int));
            assert(t.skip(1 + take) =~= v@.skip(i + 1 + take));
            let value: Option<u8> = if take == 2 {
                if hex[0] == '+' {
                    hex_value_exec(hex[1])
                } else {
                    match (hex_value_exec(hex[0]), hex_value_exec(hex[1])) {
                        (Some(a), Some(b)) => Some(16 * a + b),
                        _ => None,
                    }
                }
            } else {
                None
            };
            let ghost before = out@;
            match value {
                Some(b) => {
                    assert(escape_value(hex@) == Some(b as nat));
                    out.push(b as char);
                    assert(before + (seq![((b as nat) as u32) as char] + percent_decode_spec(
                        v@.skip(i + 1 + take),
                    )) =~= out@ + percent_decode_spec(v@.skip(i + 1 + take)));
                },
                None => {
                    assert(escape_value(hex@) is None);
                    out.push('%');
                    let mut k: usize = 0;
                    while k < hex.len()
                        invariant
                            k <= hex.len(),
                            out@ == before.push('%') + hex@.take(k as int),
                        decreases hex.len() - k,
                    {
                        out.push(hex[k]);
                        assert(hex@.take(k + 1) == hex@.take(k as int).push(hex@[k as int]));
                        k = k + 1;
                    }
                    assert(hex@.take(hex@.len() as int) == hex@);
                    assert(before + (seq!['%'] + hex@ + percent_decode_spec(v@.skip(i + 1 + take)))
                        =~= out@ + percent_decode_spec(v@.skip(i + 1 + take)));
                },
            }
            i = i + 1 + take;
        }
    }
    assert(v@.skip(n as int) =~= Seq::<char>::empty());
    assert(out@ + Seq::<char>::empty() =~= out@);
    string_of(&out)
}

fn slice_chars_local(s: &Vec<char>, from: usize, to: usize) -> (res: Vec<char>)
    requires
        from <= to <= s.len(),
    ensures
        res@ == s@.subrange(from as int, to as int),
{
    crate::text::slice_chars(s, from, to)
}

proof fn lemma_decode_unreserved(c: char, rest: Seq<char>)
    requires
        is_unreserved(c),
    ensures
        percent_decode_spec(seq![c] + rest) == seq![c] + percent_decode_spec(rest),
{
    assert((seq![c] + rest).drop_first() =~= rest);
}

proof fn lemma_hex_digit_value(d: nat)
    requires
        d < 16,
    ensures
        hex_value_of(hex_digit(d)) == Some(d),
        hex_digit(d) != '+',
{
}

proof fn lemma_decode_escaped_ascii(c: char, rest: Seq<char>)
    requires
        is_ascii_char(c),
    ensures
        percent_decode_spec(escape_bytes(encode_scalar(c as u32)) + rest) == seq![c]
            + percent_decode_spec(rest),
{
    let v = c as u32;
    let b: u8 = (v & 0x7F) as u8;
    assert(((v & 0x7F) as u8) as u32 == v) by (bit_vector)
        requires
            v < 128,
    ;
    assert(encode_scalar(v) =~= seq![b]);
    let e = seq!['%', hex_digit((b / 16) as nat), hex_digit((b % 16) as nat)];
    assert(escape_bytes(seq![b]) =~= e + escape_bytes(Seq::<u8>::empty())) by {
        assert(seq![b].drop_first() =~= Seq::<u8>::empty());
    }
    assert(escape_bytes(seq![b]) =~= e);
    let s = e + rest;
    lemma_hex_digit_value((b / 16) as nat);
    lemma_hex_digit_value((b % 16) as nat);
    assert(s.drop_first().take(2) =~= seq![hex_digit((b / 16) as nat), hex_digit((b % 16) as nat)]);
    assert(s.skip(3) =~= rest);
    assert(16 * ((b / 16) as nat) + ((b % 16) as nat) == b as nat);
    vstd::utf8::char_u32_cast(c, v);
}

/// Decoding undoes encoding for ASCII text.
pub proof fn law_percent_roundtrip_ascii(s: Seq<char>)
    requires
        all_ascii(s),
    ensures
        percent_decode_spec(percent_encode_spec(s)) == s,
    decreases s.len(),
{
    if s.len() > 0 {
        let c = s[0];
        assert(all_ascii(s.drop_first())) by {
            assert forall|i: int| 0 <= i < s.drop_first().len() implies is_ascii_char(
                #[trigger] s.drop_first()[i],
            ) by {
                assert(s.drop_first()[i] == s[i + 1]);
            }
        }
        law_percent_roundtrip_ascii(s.drop_first());
        assert(is_ascii_char(s[0]));
        if is_unreserved(c) {
            lemma_decode_unreserved(c, percent_encode_spec(s.drop_first()));
        } else {
            lemma_decode_escaped_ascii(c, percent_encode_spec(s.drop_first()));
        }
        assert(seq![c] + s.drop_first() =~= s);
    }
}


// ---------------------------------------------------------------------------
// Timestamps
// ---------------------------------------------------------------------------
/// The instant an ISO 8601 / RFC 3339 timestamp denotes, as seconds and
/// nanoseconds since the Unix epoch, when chrono's `DateTime<Utc>` parser
/// accepts the text.
pub uninterp spec fn iso8601_instant(s: Seq<char>) -> Option<(int, int)>;

/// Parses a timestamp with chrono (`str::parse::<DateTime<Utc>>`), giving its
/// seconds and sub-second nanoseconds since the epoch; the result, a pure
/// function of the text, is named `iso8601_instant`.
#[verifier::external_body]
fn chrono_parse_utc(s: &str) -> (res: Option<(i64, u32)>)
    ensures
        match res {
            Some((a, b)) => iso8601_instant(s@) == Some((a as int, b as int)),
            None => iso8601_instant(s@) is None,
        },
{
    s.parse::<chrono::DateTime<chrono::Utc>>().ok().map(|dt| (dt.timestamp(), dt.timestamp_subsec_nanos()))
}

/// The instant of a timestamp, in nanoseconds since the epoch.
pub open spec fn iso_nanos(s: Seq<char>) -> Option<int> {
    match iso8601_instant(s) {
        Some((a, b)) => Some(a * 1_000_000_000 + b),
        None => None,
    }
}

/// Parse ISO 8601 timestamp to nanoseconds since the Unix epoch.
pub fn parse_iso8601(s: &str) -> (res: Option<i128>)
    ensures
        match res {
            Some(t) => iso_nanos(s@) == Some(t as int),
            None => iso_nanos(s@) is None,
        },
{
    match chrono_parse_utc(s) {
        Some((secs, nanos)) => Some((secs as i128) * 1_000_000_000 + (nanos as i128)),
        None => None,
    }
}

/// A timestamp text's instant, or the epoch when absent or unreadable.
pub open spec fn time_or_epoch(s: Option<Seq<char>>) -> int {
    let text = match s {
        Some(t) => t,
        None => Seq::empty(),
    };
    match iso_nanos(text) {
        Some(t) => t,
        None => 0,
    }
}

fn time_or_epoch_exec(s: &Option<String>) -> (res: i128)
    ensures
        res == time_or_epoch(opt_text(*s)),
{
    let text = match s {
        Some(t) => t.clone(),
        None => String::new(),
    };
    match parse_iso8601(text.as_str()) {
        Some(t) => t,
        None => 0,
    }
}

// ---------------------------------------------------------------------------
// Bookmarks
// ---------------------------------------------------------------------------
/// Partial bookmark being parsed.
#[derive(Debug)]
pub struct PartialBookmark {
    /// The `href` attribute.
    pub href: Option<String>,
    /// The `visited` attribute.
    pub visited: Option<String>,
    /// The `modified` attribute.
    pub modified: Option<String>,
    /// The MIME type from the bookmark's metadata.
    pub mime_type: Option<String>,
}

/// A partial bookmark in plain values.
pub struct PartialView {
    pub href: Option<Seq<char>>,
    pub visited: Option<Seq<char>>,
    pub modified: Option<Seq<char>>,
    pub mime_type: Option<Seq<char>>,
}

impl View for PartialBookmark {
    type V = PartialView;

    open spec fn view(&self) -> PartialView {
        PartialView {
            href: opt_text(self.href),
            visited: opt_text(self.visited),
            modified: opt_text(self.modified),
            mime_type: opt_text(self.mime_type),
        }
    }
}

/// The entry a bookmark stands for: only `file://` URIs count; the path is
/// the rest of the URI decoded; missing or unreadable times become the epoch.
pub open spec fn bookmark_entry(b: PartialView) -> Option<(Seq<char>, Option<Seq<char>>, int, int)> {
    match b.href {
        None => None,
        Some(h) => if !occurs_at(h, "file://"@, 0) {
            None
        } else {
            Some(
                (
                    percent_decode_spec(h.skip(7)),
                    b.mime_type,
                    time_or_epoch(b.visited),
                    time_or_epoch(b.modified),
                ),
            )
        },
    }
}

impl PartialBookmark {
    /// The recent entry this bookmark stands for, if it is a `file://` URI.
    pub fn into_entry(self) -> (res: Option<RecentEntry>)
        ensures
            match (res, bookmark_entry(self@)) {
                (Some(e), Some((p, m, v, t))) => e.path@ == p && opt_text(e.mime_type) == m && e.visited == v
                    && e.modified == t,
                (None, None) => true,
                _ => false,
            },
    {
        let href = match &self.href {
            Some(h) => h,
            None => {
                return None;
            },
        };
        let hv = chars_of(href.as_str());
        let scheme = chars_of("file://");
        proof {
            reveal_strlit("file://");
        }
        if !crate::text::starts_with(&hv, &scheme) {
            return None;
        }
        let rest = crate::text::slice_chars(&hv, 7, hv.len());
        assert(rest@ =~= href@.skip(7));
        let rest_s = string_of(&rest);
        let decoded = percent_decode(rest_s.as_str());
        let visited = time_or_epoch_exec(&self.visited);
        let modified = time_or_epoch_exec(&self.modified);
        Some(RecentEntry { path: decoded, mime_type: self.mime_type, visited, modified })
    }
}

// ---------------------------------------------------------------------------
// Manager
// ---------------------------------------------------------------------------
/// The entries whose `present` flag is set, in order.
pub open spec fn kept(cands: Seq<RecentEntry>, present: Seq<bool>) -> Seq<RecentEntry>
    decreases cands.len(),
{
    if cands.len() == 0 {
        Seq::empty()
    } else {
        let n = cands.len() - 1;
        let rest = kept(cands.take(n), present);
        if n < present.len() && present[n] {
            rest.push(cands[n])
        } else {
            rest
        }
    }
}

/// `new` is `old` sorted stably by visit time, most recent first.
pub open spec fn sorted_by_visit(old: Seq<RecentEntry>, new: Seq<RecentEntry>, p: Seq<int>) -> bool {
    &&& new.len() == old.len()
    &&& p.len() == old.len()
    &&& forall|k: int| 0 <= k < p.len() ==> 0 <= #[trigger] p[k] < old.len()
    &&& forall|k: int, l: int| 0 <= k < l < p.len() ==> p[k] != p[l]
    &&& forall|k: int| 0 <= k < new.len() ==> new[k] == old[#[trigger] p[k]]
    &&& forall|k: int, l: int|
        #![trigger new[k], new[l]]
        0 <= k < l < new.len() ==> new[k].visited >= new[l].visited && (new[k].visited
            == new[l].visited ==> p[k] < p[l])
}

/// The recents file under a local data directory (`~/.local/share` where
/// it is unknown).
pub open spec fn recents_file_in(data_local: Option<String>) -> Seq<char> {
    match data_local {
        Some(d) => join(d@, "recently-used.xbel"@),
        None => join("~/.local/share"@, "recently-used.xbel"@),
    }
}

/// The recents file under a local data directory (`~/.local/share` where
/// it is unknown).
pub fn recents_file_for(data_local: Option<String>) -> (res: String)
    ensures
        res@ == recents_file_in(data_local),
{
    let base = match data_local {
        Some(d) => d,
        None => crate::text::copy_string("~/.local/share"),
    };
    join_path(base.as_str(), "recently-used.xbel")
}

/// Manager for XDG recently-used files.
#[derive(Debug)]
pub struct RecentsManager {
    /// Path to recently-used.xbel file.
    xbel_path: String,
    /// Cached entries (sorted by visited time, most recent first).
    entries: Vec<RecentEntry>,
    /// Maximum entries to display.
    max_entries: usize,
}

impl RecentsManager {
    /// The cached entries.
    pub closed spec fn cached(&self) -> Seq<RecentEntry> {
        self.entries@
    }

    /// The path of the xbel file.
    pub closed spec fn file(&self) -> Seq<char> {
        self.xbel_path@
    }

    /// The manager is well formed: it keeps at most `MAX_ENTRIES` entries.
    pub closed spec fn wf(&self) -> bool {
        self.max_entries == MAX_ENTRIES && self.entries@.len() <= MAX_ENTRIES
    }

    /// Create a new RecentsManager with default path
    /// (`<local data dir>/recently-used.xbel`, the local data directory
    /// being `~/.local/share` where it is unknown).
    pub fn new() -> (res: Self)
        ensures
            res.wf(),
            res.cached().len() == 0,
            exists|d: Option<String>| (d matches Some(t) ==> t@.len() > 0) && res.file() == recents_file_in(d),
    {
        let xbel_path = recents_file_for(data_local_dir());
        RecentsManager { xbel_path, entries: Vec::new(), max_entries: MAX_ENTRIES }
    }

    /// The path of the xbel file read and written.
    pub fn xbel_path(&self) -> (res: &str)
        ensures
            res@ == self.file(),
    {
        self.xbel_path.as_str()
    }

    /// Get entries (files that still exist, limited to max_entries).
    pub fn entries(&self) -> (res: &[RecentEntry])
        ensures
            res@ == self.cached(),
    {
        self.entries.as_slice()
    }

    /// Check if there are any entries.
    pub fn is_empty(&self) -> (res: bool)
        ensures
            res == (self.cached().len() == 0),
    {
        self.entries.is_empty()
    }

    /// Get entry count.
    pub fn len(&self) -> (res: usize)
        ensures
            res == self.cached().len(),
    {
        self.entries.len()
    }

    /// Clear all cached entries (does not modify the file).
    pub fn clear_cache(&mut self)
        requires
            old(self).wf(),
        ensures
            final(self).wf(),
            final(self).cached().len() == 0,
            final(self).file() == old(self).file(),
    {
        self.entries.clear();
    }

    /// Replaces the cache with the entries read from the xbel file: those
    /// whose file still exists (`present`), most recently visited first
    /// (ties keep file order), at most `MAX_ENTRIES` of them.
    pub fn set_loaded(&mut self, candidates: Vec<RecentEntry>, present: &[bool])
        requires
            old(self).wf(),
        ensures
            final(self).wf(),
            final(self).file() == old(self).file(),
            exists|sorted: Seq<RecentEntry>, p: Seq<int>|
                sorted_by_visit(kept(candidates@, present@), sorted, p) && final(self).cached()
                    == sorted.take(
                    if sorted.len() <= MAX_ENTRIES {
                        sorted.len() as int
                    } else {
                        MAX_ENTRIES as int
                    },
                ),
    {
        let mut ks: Vec<RecentEntry> = Vec::new();
        let mut i: usize = 0;
        while i < candidates.len()
            invariant
                i <= candidates.len(),
                ks@ == kept(candidates@.take(i as int), present@),
            decreases candidates.len() - i,
        {
            assert(candidates@.take(i + 1).take(i as int) == candidates@.take(i as int));
            if i < present.len() && present[i] {
                ks.push(candidates[i].duplicate());
            }
            i = i + 1;
        }
        assert(candidates@.take(candidates.len() as int) == candidates@);
        let ghost es = ks@;
        let n = ks.len();
        let mut idx: Vec<usize> = Vec::new();
        let mut m: usize = 0;
        while m < n
            invariant
                m <= n,
                idx.len() == m,
                forall|k: int| 0 <= k < m ==> #[trigger] idx@[k] == k,
            decreases n - m,
        {
            idx.push(m);
            m = m + 1;
        }
        let mut i: usize = 0;
        while i < n
            invariant
                n == es.len(),
                es == ks@,
                i <= n,
                idx.len() == n,
                forall|k: int| 0 <= k < n ==> #[trigger] idx@[k] < n,
                forall|k: int, l: int| 0 <= k < l < n ==> idx@[k] != idx@[l],
                forall|k: int| i <= k < n ==> #[trigger] idx@[k] == k,
                forall|k: int, l: int|
                    #![trigger idx@[k], idx@[l]]
                    0 <= k < l < i ==> visit_before(es, idx@[k] as int, idx@[l] as int),
            decreases n - i,
        {
            let x = idx[i];
            let mut j: usize = i;
            while j > 0 && (ks[x].visited > ks[idx[j - 1]].visited || (ks[x].visited
                == ks[idx[j - 1]].visited && x < idx[j - 1]))
                invariant
                    n == es.len(),
                    es == ks@,
                    i < n,
                    j <= i,
                    idx.len() == n,
                    x == idx@[i as int],
                    forall|k: int| 0 <= k < n ==> #[trigger] idx@[k] < n,
                    forall|m: int| j <= m < i ==> visit_before(es, x as int, #[trigger] idx@[m] as int),
                decreases j,
            {
                j = j - 1;
            }
            let ghost before = idx@;
            proof {
                if j > 0 {
                    assert(visit_before(es, before[j - 1] as int, x as int));
                    assert forall|m: int| 0 <= m < j implies visit_before(
                        es,
                        #[trigger] before[m] as int,
                        x as int,
                    ) by {
                        if m < j - 1 {
                            assert(visit_before(es, before[m] as int, before[j - 1] as int));
                        }
                    }
                }
            }
            idx.remove(i);
            idx.insert(j, x);
            proof {
                let after = idx@;
                assert(after == before.remove(i as int).insert(j as int, x));
                assert forall|k: int| 0 <= k < n implies #[trigger] after[k] == if k < j {
                    before[k]
                } else if k == j {
                    x
                } else if k <= i {
                    before[k - 1]
                } else {
                    before[k]
                } by {}
            }
            i = i + 1;
        }
        let limit: usize = if n <= self.max_entries {
            n
        } else {
            self.max_entries
        };
        let mut res: Vec<RecentEntry> = Vec::new();
        let mut m: usize = 0;
        while m < limit
            invariant
                n == es.len(),
                es == ks@,
                limit <= n,
                idx.len() == n,
                forall|k: int| 0 <= k < n ==> #[trigger] idx@[k] < n,
                m <= limit,
                res.len() == m,
                forall|k: int| 0 <= k < m ==> #[trigger] res@[k] == es[idx@[k] as int],
            decreases limit - m,
        {
            res.push(ks[idx[m]].duplicate());
            m = m + 1;
        }
        let ghost p = idx@.map_values(|v: usize| v as int);
        let ghost sorted = Seq::new(n as nat, |k: int| es[idx@[k] as int]);
        proof {
            assert forall|k: int, l: int|
                #![trigger sorted[k], sorted[l]]
                0 <= k < l < n implies sorted[k].visited >= sorted[l].visited && (sorted[k].visited
                == sorted[l].visited ==> p[k] < p[l]) by {
                assert(visit_before(es, idx@[k] as int, idx@[l] as int));
            }
            assert(sorted_by_visit(es, sorted, p));
            assert(res@ =~= sorted.take(limit as int));
        }
        self.entries = res;
    }

    /// Load the cache from the contents of the xbel file: the `file://`
    /// bookmarks whose file still exists, most recently visited first, at
    /// most `MAX_ENTRIES` of them. On a read error the cache is left empty.
    pub fn load_xml(&mut self, xml: &[u8]) -> (res: Result<(), RecentsError>)
        requires
            old(self).wf(),
        ensures
            final(self).wf(),
            final(self).file() == old(self).file(),
            match res {
                Err(e) => e is Xml && entries_read(xml@) is None && final(self).cached().len() == 0,
                Ok(_) => entries_read(xml@) is Some && exists|cands: Seq<RecentEntry>, present: Seq<bool>, sorted: Seq<RecentEntry>, p: Seq<int>|
                    {
                        &&& entry_views(cands) == entries_read(xml@)->0
                        &&& present.len() == cands.len()
                        &&& sorted_by_visit(kept(cands, present), sorted, p)
                        &&& final(self).cached() == sorted.take(
                            if sorted.len() <= MAX_ENTRIES {
                                sorted.len() as int
                            } else {
                                MAX_ENTRIES as int
                            },
                        )
                    },
            },
    {
        self.entries.clear();
        let candidates = match read_recent_entries(xml) {
            Ok(v) => v,
            Err(e) => {
                return Err(e);
            },
        };
        let mut present: Vec<bool> = Vec::new();
        let mut i: usize = 0;
        while i < candidates.len()
            invariant
                i <= candidates.len(),
                present.len() == i,
            decreases candidates.len() - i,
        {
            present.push(path_exists(candidates[i].path.as_str()));
            i = i + 1;
        }
        let ghost cands = candidates@;
        self.set_loaded(candidates, present.as_slice());
        Ok(())
    }
}

/// The current time in UTC as RFC 3339 text with microseconds and a `Z`
/// (`Utc::now().to_rfc3339_opts(SecondsFormat::Micros, true)` of chrono). It
/// depends on the clock, so nothing is claimed of it.
#[verifier::external_body]
fn utc_now_text() -> String {
    chrono::Utc::now().to_rfc3339_opts(chrono::SecondsFormat::Micros, true)
}

/// The `file://` URI of a path, with the path percent-encoded.
pub open spec fn recent_uri(path: Seq<char>) -> Seq<char> {
    "file://"@ + percent_encode_spec(path)
}

/// The `file://` URI of a path, with the path percent-encoded.
pub fn recent_uri_of(path: &str) -> (res: String)
    ensures
        res@ == recent_uri(path@),
{
    let mut s = crate::text::copy_string("file://");
    let enc = percent_encode(path);
    crate::text::push_str(&mut s, enc.as_str());
    s
}

/// The contents of a file, `None` where there is no file.
pub open spec fn opt_bytes(o: Option<&[u8]>) -> Option<Seq<u8>> {
    match o {
        Some(x) => Some(x@),
        None => None,
    }
}

/// The bookmarks already stored: none where there is no file, else those
/// read from it (`None` where it cannot be read).
pub open spec fn stored_bookmarks(existing: Option<Seq<u8>>) -> Option<Seq<BookmarkView>> {
    match existing {
        Some(x) => bookmarks_read(x),
        None => Some(Seq::empty()),
    }
}

/// The bookmarks of the xbel file (its contents in `existing`, `None` where
/// there is no file) after a visit of the file at `path` now: its bookmark,
/// found by URI, gets the visit, or a new one is added.
pub fn visit_bookmarks(existing: Option<&[u8]>, path: &str, mime_type: &str) -> (res: Result<Vec<StoredBookmark>, RecentsError>)
    ensures
        match res {
            Ok(v) => stored_bookmarks(opt_bytes(existing)) is Some && exists|now: Seq<char>|
                bookmark_views(v@) == #[trigger] visited_bookmarks(
                    stored_bookmarks(opt_bytes(existing))->0,
                    recent_uri(path@),
                    now,
                    mime_type@,
                ),
            Err(e) => e is Xml && stored_bookmarks(opt_bytes(existing)) is None,
        },
{
    let mut bookmarks = match existing {
        Some(x) => match read_all_bookmarks(x) {
            Ok(v) => v,
            Err(e) => {
                return Err(e);
            },
        },
        None => Vec::new(),
    };
    let ghost before = bookmark_views(bookmarks@);
    proof {
        if existing is None {
            assert(before =~= Seq::empty());
        }
        assert(stored_bookmarks(opt_bytes(existing)) == Some(before));
    }
    let uri = recent_uri_of(path);
    let now = utc_now_text();
    record_visit(&mut bookmarks, uri.as_str(), now.as_str(), mime_type);
    assert(bookmark_views(bookmarks@) == visited_bookmarks(
        stored_bookmarks(opt_bytes(existing))->0,
        recent_uri(path@),
        now@,
        mime_type@,
    ));
    Ok(bookmarks)
}

impl RecentsManager {
    /// Record that the file at `path` was opened, as other applications of
    /// the desktop do: `existing` holds the contents of the xbel file (`None`
    /// where there is none). Returns the new contents, to be written back
    /// and loaded again.
    pub fn add_entry(&self, existing: Option<&[u8]>, path: &str, mime_type: &str) -> (res: Result<Vec<u8>, RecentsError>)
        ensures
            match res {
                Ok(b) => stored_bookmarks(opt_bytes(existing)) is Some && exists|now: Seq<char>|
                    xml_document_of(
                        b@,
                        xbel_out(
                            #[trigger] visited_bookmarks(
                                stored_bookmarks(opt_bytes(existing))->0,
                                recent_uri(path@),
                                now,
                                mime_type@,
                            ),
                        ),
                    ),
                Err(e) => e is Xml && stored_bookmarks(opt_bytes(existing)) is None,
            },
    {
        let bookmarks = match visit_bookmarks(existing, path, mime_type) {
            Ok(v) => v,
            Err(e) => {
                return Err(e);
            },
        };
        xbel_document(&bookmarks)
    }
}

/// Position `a` must come before position `b`: visited later, or equally and earlier.
pub open spec fn visit_before(es: Seq<RecentEntry>, a: int, b: int) -> bool {
    es[a].visited > es[b].visited || (es[a].visited == es[b].visited && a < b)
}

} // verus!
