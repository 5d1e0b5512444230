//! Reading the XBEL bookmark file (`recently-used.xbel`): the XML is read
//! event by event with quick-xml, and the events are interpreted here.
use vstd::prelude::*;
use quick_xml::{Reader, Writer};
use quick_xml::events::{BytesDecl, BytesEnd, BytesStart, Event};
use crate::text::{decimal, parse_u32, text_eq, u32_text};
use crate::recents::{bookmark_entry, PartialBookmark, PartialView, RecentEntry, RecentsError};
use crate::apps::opt_text;

verus! {

#[verifier::external_type_specification]
#[verifier::external_body]
#[verifier::reject_recursive_types(R)]
pub struct ExXmlReader<R>(Reader<R>);

#[verifier::external_type_specification]
#[verifier::external_body]
pub struct ExXmlError(quick_xml::Error);

/// An XML event in plain values.
#[derive(Debug)]
pub enum XmlItem {
    /// An opening or self-closing tag: its name and its attributes (`None`
    /// for a malformed one).
    Tag { name: String, attrs: Vec<Option<(String, String)>> },
    /// A closing tag.
    End { name: String },
    /// The end of the document.
    Eof,
    /// Any other event (text, comments, declarations).
    Other,
}

/// The attributes of a tag in plain values.
pub open spec fn tag_attrs(attrs: Seq<Option<(String, String)>>) -> Seq<Option<(Seq<char>, Seq<char>)>> {
    attrs.map_values(
        |a: Option<(String, String)>|
            match a {
                Some((k, v)) => Some((k@, v@)),
                None => None,
            },
    )
}

/// An XML event as the reading sees it.
pub enum ItemView {
    Tag { name: Seq<char>, attrs: Seq<Option<(Seq<char>, Seq<char>)>> },
    End { name: Seq<char> },
    Eof,
    Other,
}

impl View for XmlItem {
    type V = ItemView;

    open spec fn view(&self) -> ItemView {
        match self {
            XmlItem::Tag { name, attrs } => ItemView::Tag { name: name@, attrs: tag_attrs(attrs@) },
            XmlItem::End { name } => ItemView::End { name: name@ },
            XmlItem::Eof => ItemView::Eof,
            XmlItem::Other => ItemView::Other,
        }
    }
}

/// What a reader holds: the document it reads, whether it trims text, and
/// how many events it has read.
pub uninterp spec fn reader_state(r: Reader<&[u8]>) -> (Seq<u8>, bool, nat);

/// The `k`-th event (from 0) that quick-xml's `Reader::read_event` reports
/// for the document `xml`, read from its start with text trimmed; `None`
/// where that read fails.
pub uninterp spec fn xml_read(xml: Seq<u8>, k: nat) -> Option<ItemView>;

/// The event of a read, `None` where it failed.
pub open spec fn read_view(r: Result<XmlItem, quick_xml::Error>) -> Option<ItemView> {
    match r {
        Ok(i) => Some(i@),
        Err(_) => None,
    }
}

/// `Reader::from_reader` over the bytes of a document: a reader at its
/// start, with quick-xml's default configuration.
#[verifier::external_body]
fn xml_reader<'a>(xml: &'a [u8]) -> (res: Reader<&'a [u8]>)
    ensures
        reader_state(res) == (xml@, false, 0nat),
{
    Reader::from_reader(xml)
}

/// `Config::trim_text(true)` on the reader's configuration, before any
/// read: text events lose the whitespace around them, and whitespace-only
/// text is not reported.
#[verifier::external_body]
fn trim_text<'a>(reader: &mut Reader<&'a [u8]>)
    requires
        reader_state(*old(reader)).2 == 0,
    ensures
        reader_state(*final(reader)) == (reader_state(*old(reader)).0, true, 0nat),
{
    reader.config_mut().trim_text(true);
}

/// `Reader::read_event` on a trimming reader: the next event of the document
/// (`xml_read` of the document and of the reads made so far), with tags
/// turned into their names and attributes (as key and raw value, `None`
/// where quick-xml reports a malformed one), and the events that the
/// bookmark file does not need folded into `Other`.
#[verifier::external_body]
fn read_item<'a>(reader: &mut Reader<&'a [u8]>) -> (res: Result<XmlItem, quick_xml::Error>)
    requires
        reader_state(*old(reader)).1,
    ensures
        reader_state(*final(reader)) == (reader_state(*old(reader)).0, true, reader_state(*old(reader)).2 + 1),
        read_view(res) == xml_read(reader_state(*old(reader)).0, reader_state(*old(reader)).2),
{
    match reader.read_event() {
        Ok(Event::Start(e)) | Ok(Event::Empty(e)) => Ok(XmlItem::Tag {
            name: e.name().as_ref().to_string(),
            attrs: e.attributes().map(|a| a.ok().map(|a| (a.key.as_ref().to_string(), a.value.to_string()))).collect(),
        }),
        Ok(Event::End(e)) => Ok(XmlItem::End { name: e.name().as_ref().to_string() }),
        Ok(Event::Eof) => Ok(XmlItem::Eof),
        Ok(_) => Ok(XmlItem::Other),
        Err(e) => Err(e),
    }
}

/// The value of the first well-formed attribute with the given key.
pub open spec fn attr_of(attrs: Seq<Option<(Seq<char>, Seq<char>)>>, key: Seq<char>) -> Option<Seq<char>>
    decreases attrs.len(),
{
    if attrs.len() == 0 {
        None
    } else {
        match attrs[0] {
            Some((k, v)) => if k == key {
                Some(v)
            } else {
                attr_of(attrs.drop_first(), key)
            },
            None => attr_of(attrs.drop_first(), key),
        }
    }
}

/// The value of the first well-formed attribute with the given key.
pub fn get_attr(attrs: &Vec<Option<(String, String)>>, key: &str) -> (res: Option<String>)
    ensures
        opt_text(res) == attr_of(tag_attrs(attrs@), key@),
{
    let ghost av = tag_attrs(attrs@);
    let mut i: usize = 0;
    assert(av.skip(0) == av);
    while i < attrs.len()
        invariant
            i <= attrs.len(),
            av == tag_attrs(attrs@),
            attr_of(av, key@) == attr_of(av.skip(i as int), key@),
        decreases attrs.len() - i,
    {
        assert(av.skip(i as int).drop_first() =~= av.skip(i + 1));
        assert(av.skip(i as int)[0] == av[i as int]);
        match &attrs[i] {
            Some((k, v)) => {
                if text_eq(k.as_str(), key) {
                    return Some(v.clone());
                }
            },
            None => {},
        }
        i = i + 1;
    }
    None
}

// ---------------------------------------------------------------------------
// Stored bookmarks (all of them, for rewriting the file)
// ---------------------------------------------------------------------------
/// A bookmark as stored in the xbel file (for rewriting).
#[derive(Debug)]
pub struct StoredBookmark {
    pub href: String,
    pub added: String,
    pub modified: String,
    pub visited: String,
    pub mime_type: String,
    pub app_count: u32,
}

/// A stored bookmark in plain values.
pub struct BookmarkView {
    pub href: Seq<char>,
    pub added: Seq<char>,
    pub modified: Seq<char>,
    pub visited: Seq<char>,
    pub mime_type: Seq<char>,
    pub app_count: u32,
}

impl View for StoredBookmark {
    type V = BookmarkView;

    open spec fn view(&self) -> BookmarkView {
        BookmarkView {
            href: self.href@,
            added: self.added@,
            modified: self.modified@,
            visited: self.visited@,
            mime_type: self.mime_type@,
            app_count: self.app_count,
        }
    }
}

/// The text of an attribute, or the empty text where it is missing.
pub open spec fn text_or_empty(v: Option<Seq<char>>) -> Seq<char> {
    match v {
        Some(s) => s,
        None => Seq::empty(),
    }
}

/// What has been read of the file so far: the bookmarks closed, the one
/// open, and whether the reading is inside a `metadata` element.
pub struct ScanModel {
    pub bookmarks: Seq<BookmarkView>,
    pub current: Option<BookmarkView>,
    pub in_metadata: bool,
}

/// The state before the first event.
pub open spec fn scan_start() -> ScanModel {
    ScanModel { bookmarks: Seq::empty(), current: None, in_metadata: false }
}

/// An opening (or self-closing) tag: `bookmark` opens a bookmark with its
/// `href`, `added`, `modified` and `visited` attributes; `mime:mime-type`
/// inside metadata sets its MIME type; `bookmark:application` with a `count`
/// sets its use count (1 where the count is no number); `metadata` enters the
/// metadata.
pub open spec fn scan_tag(m: ScanModel, name: Seq<char>, attrs: Seq<Option<(Seq<char>, Seq<char>)>>) -> ScanModel {
    if name == "bookmark"@ {
        ScanModel {
            current: Some(
                BookmarkView {
                    href: text_or_empty(attr_of(attrs, "href"@)),
                    added: text_or_empty(attr_of(attrs, "added"@)),
                    modified: text_or_empty(attr_of(attrs, "modified"@)),
                    visited: text_or_empty(attr_of(attrs, "visited"@)),
                    mime_type: Seq::empty(),
                    app_count: 1,
                },
            ),
            ..m
        }
    } else if name == "mime:mime-type"@ && m.current is Some && m.in_metadata {
        ScanModel {
            current: Some(
                BookmarkView { mime_type: text_or_empty(attr_of(attrs, "type"@)), ..m.current->0 },
            ),
            ..m
        }
    } else if name == "bookmark:application"@ && m.current is Some {
        match attr_of(attrs, "count"@) {
            Some(c) => ScanModel {
                current: Some(
                    BookmarkView {
                        app_count: match u32_text(c) {
                            Some(n) => n,
                            None => 1,
                        },
                        ..m.current->0
                    },
                ),
                ..m
            },
            None => m,
        }
    } else if name == "metadata"@ {
        ScanModel { in_metadata: true, ..m }
    } else {
        m
    }
}

/// A closing tag: `bookmark` closes the open bookmark and keeps it;
/// `metadata` leaves the metadata.
pub open spec fn scan_end(m: ScanModel, name: Seq<char>) -> ScanModel {
    if name == "bookmark"@ {
        match m.current {
            Some(b) => ScanModel { bookmarks: m.bookmarks.push(b), current: None, ..m },
            None => m,
        }
    } else if name == "metadata"@ {
        ScanModel { in_metadata: false, ..m }
    } else {
        m
    }
}

/// One event.
pub open spec fn scan_step(m: ScanModel, item: ItemView) -> ScanModel {
    match item {
        ItemView::Tag { name, attrs } => scan_tag(m, name, attrs),
        ItemView::End { name } => scan_end(m, name),
        _ => m,
    }
}

/// The reading of the document `xml` from its `k`-th event on, from state
/// `m`, with at most `fuel` more events after this one: `None` where a read
/// fails, else the state at the end of the document (or when the fuel runs
/// out).
pub open spec fn scan_reads(xml: Seq<u8>, m: ScanModel, k: nat, fuel: nat) -> Option<ScanModel>
    decreases fuel,
{
    match xml_read(xml, k) {
        None => None,
        Some(item) => {
            let m2 = scan_step(m, item);
            if item is Eof || fuel == 0 {
                Some(m2)
            } else {
                scan_reads(xml, m2, k + 1, (fuel - 1) as nat)
            }
        },
    }
}

/// Every bookmark of the document `xml` in document order, `None` where
/// quick-xml fails to read it. Each event before the end of the document
/// takes up at least one byte, so the end comes within `xml.len() + 1`
/// events.
pub open spec fn bookmarks_read(xml: Seq<u8>) -> Option<Seq<BookmarkView>> {
    match scan_reads(xml, scan_start(), 0, xml.len()) {
        Some(m) => Some(m.bookmarks),
        None => None,
    }
}

/// The views of a list of stored bookmarks.
pub open spec fn bookmark_views(v: Seq<StoredBookmark>) -> Seq<BookmarkView> {
    v.map_values(|b: StoredBookmark| b@)
}

/// The reading of all bookmarks of the file, event by event.
pub struct BookmarkScan {
    bookmarks: Vec<StoredBookmark>,
    current: Option<StoredBookmark>,
    in_metadata: bool,
}

impl BookmarkScan {
    /// What has been read so far.
    pub closed spec fn model(&self) -> ScanModel {
        ScanModel {
            bookmarks: bookmark_views(self.bookmarks@),
            current: match self.current {
                Some(b) => Some(b@),
                None => None,
            },
            in_metadata: self.in_metadata,
        }
    }

    /// Nothing read yet.
    pub fn new() -> (res: Self)
        ensures
            res.model() == scan_start(),
    {
        let res = BookmarkScan { bookmarks: Vec::new(), current: None, in_metadata: false };
        assert(bookmark_views(res.bookmarks@) =~= Seq::<BookmarkView>::empty());
        res
    }

    fn on_tag(&mut self, name: &String, attrs: &Vec<Option<(String, String)>>)
        ensures
            final(self).model() == scan_tag(old(self).model(), name@, tag_attrs(attrs@)),
    {
        proof {
            reveal_strlit("bookmark");
            reveal_strlit("mime:mime-type");
            reveal_strlit("bookmark:application");
            reveal_strlit("metadata");
        }
        if text_eq(name.as_str(), "bookmark") {
            let href = or_empty(get_attr(attrs, "href"));
            let added = or_empty(get_attr(attrs, "added"));
            let modified = or_empty(get_attr(attrs, "modified"));
            let visited = or_empty(get_attr(attrs, "visited"));
            self.current = Some(
                StoredBookmark { href, added, modified, visited, mime_type: String::new(), app_count: 1 },
            );
        } else if text_eq(name.as_str(), "mime:mime-type") && self.current.is_some()
            && self.in_metadata {
            let t = or_empty(get_attr(attrs, "type"));
            let mut cur = self.current.take().unwrap();
            cur.mime_type = t;
            self.current = Some(cur);
        } else if text_eq(name.as_str(), "bookmark:application") && self.current.is_some() {
            match get_attr(attrs, "count") {
                Some(c) => {
                    let n = match parse_u32(c.as_str()) {
                        Some(n) => n,
                        None => 1,
                    };
                    let mut cur = self.current.take().unwrap();
                    cur.app_count = n;
                    self.current = Some(cur);
                },
                None => {},
            }
        } else if text_eq(name.as_str(), "metadata") {
            self.in_metadata = true;
        }
    }

    fn on_end(&mut self, name: &String)
        ensures
            final(self).model() == scan_end(old(self).model(), name@),
    {
        proof {
            reveal_strlit("bookmark");
            reveal_strlit("metadata");
        }
        if text_eq(name.as_str(), "bookmark") {
            match self.current.take() {
                Some(b) => {
                    let ghost before = self.bookmarks@;
                    self.bookmarks.push(b);
                    assert(bookmark_views(self.bookmarks@) =~= bookmark_views(before).push(b@));
                },
                None => {},
            }
        } else if text_eq(name.as_str(), "metadata") {
            self.in_metadata = false;
        }
    }

    /// Takes one event into account. Returns whether the end of the
    /// document was reached.
    pub fn feed(&mut self, item: &XmlItem) -> (at_end: bool)
        ensures
            final(self).model() == scan_step(old(self).model(), item@),
            at_end == (item@ is Eof),
    {
        match item {
            XmlItem::Tag { name, attrs } => {
                self.on_tag(name, attrs);
                false
            },
            XmlItem::End { name } => {
                self.on_end(name);
                false
            },
            XmlItem::Eof => true,
            XmlItem::Other => false,
        }
    }

    /// The bookmarks closed so far.
    pub fn finish(self) -> (res: Vec<StoredBookmark>)
        ensures
            bookmark_views(res@) == self.model().bookmarks,
    {
        self.bookmarks
    }
}

fn or_empty(v: Option<String>) -> (res: String)
    ensures
        res@ == text_or_empty(opt_text(v)),
{
    match v {
        Some(s) => s,
        None => String::new(),
    }
}

/// Reads every bookmark of an xbel document, file URIs or not, in document
/// order. A read error of quick-xml is returned as it came.
pub fn read_all_bookmarks(xml: &[u8]) -> (res: Result<Vec<StoredBookmark>, RecentsError>)
    ensures
        match res {
            Ok(v) => bookmarks_read(xml@) == Some(bookmark_views(v@)),
            Err(e) => e is Xml && bookmarks_read(xml@) is None,
        },
{
    let mut reader = xml_reader(xml);
    trim_text(&mut reader);
    let mut scan = BookmarkScan::new();
    let ghost whole = scan_reads(xml@, scan_start(), 0, xml@.len());
    let mut left: usize = xml.len();
    loop
        invariant_except_break
            left <= xml@.len(),
            reader_state(reader) == (xml@, true, (xml@.len() - left) as nat),
            whole == scan_reads(xml@, scan.model(), (xml@.len() - left) as nat, left as nat),
            whole == scan_reads(xml@, scan_start(), 0, xml@.len()),
        ensures
            whole == Some(scan.model()),
        decreases left,
    {
        let ghost k = reader_state(reader).2;
        let ghost m = scan.model();
        let got = read_item(&mut reader);
        assert(xml_read(xml@, k) == read_view(got));
        let item = match got {
            Ok(i) => i,
            Err(e) => {
                return Err(RecentsError::Xml(e));
            },
        };
        let at_end = scan.feed(&item);
        assert(xml_read(xml@, k) == Some(item@));
        if at_end || left == 0 {
            break ;
        }
        left = left - 1;
    }
    let res = scan.finish();
    Ok(res)
}

// ---------------------------------------------------------------------------
// Recent entries (file URIs only, for display)
// ---------------------------------------------------------------------------
/// A recent entry in plain values: path, MIME type, visit and modification
/// times (nanoseconds since the epoch).
pub open spec fn entry_view(e: RecentEntry) -> (Seq<char>, Option<Seq<char>>, int, int) {
    (e.path@, opt_text(e.mime_type), e.visited as int, e.modified as int)
}

/// What has been read of the file so far for the recent entries: the
/// entries of the bookmarks closed, the bookmark open, and whether the
/// reading is inside a `metadata` element.
pub struct LoadModel {
    pub found: Seq<(Seq<char>, Option<Seq<char>>, int, int)>,
    pub current: Option<PartialView>,
    pub in_metadata: bool,
}

/// The state before the first read.
pub open spec fn load_start() -> LoadModel {
    LoadModel { found: Seq::empty(), current: None, in_metadata: false }
}

/// How a read leaves the reading of the file.
#[derive(Debug, Clone, Copy, PartialEq, Eq, Structural)]
pub enum ReadOutcome {
    /// Go on reading.
    More,
    /// The end of the document was reached.
    Done,
    /// The read failed.
    Failed,
}

/// An opening (or self-closing) tag: `bookmark` opens a bookmark with its
/// `href`, `visited` and `modified` attributes; `mime:mime-type` inside
/// metadata sets its MIME type; `metadata` enters the metadata.
pub open spec fn load_tag(m: LoadModel, name: Seq<char>, attrs: Seq<Option<(Seq<char>, Seq<char>)>>) -> LoadModel {
    if name == "bookmark"@ {
        LoadModel {
            current: Some(
                PartialView {
                    href: attr_of(attrs, "href"@),
                    visited: attr_of(attrs, "visited"@),
                    modified: attr_of(attrs, "modified"@),
                    mime_type: None,
                },
            ),
            ..m
        }
    } else if name == "mime:mime-type"@ && m.current is Some && m.in_metadata {
        LoadModel {
            current: Some(PartialView { mime_type: attr_of(attrs, "type"@), ..m.current->0 }),
            ..m
        }
    } else if name == "metadata"@ {
        LoadModel { in_metadata: true, ..m }
    } else {
        m
    }
}

/// A closing tag: `bookmark` closes the open bookmark and keeps its entry
/// when it has one; `metadata` leaves the metadata.
pub open spec fn load_end(m: LoadModel, name: Seq<char>) -> LoadModel {
    if name == "bookmark"@ {
        match m.current {
            Some(b) => match bookmark_entry(b) {
                Some(t) => LoadModel { found: m.found.push(t), current: None, ..m },
                None => LoadModel { current: None, ..m },
            },
            None => m,
        }
    } else if name == "metadata"@ {
        LoadModel { in_metadata: false, ..m }
    } else {
        m
    }
}

/// One read (`None` where it failed) and how the reading goes on.
pub open spec fn load_step(m: LoadModel, read: Option<ItemView>) -> (LoadModel, ReadOutcome) {
    match read {
        None => (m, ReadOutcome::Failed),
        Some(ItemView::Tag { name, attrs }) => (load_tag(m, name, attrs), ReadOutcome::More),
        Some(ItemView::End { name }) => (load_end(m, name), ReadOutcome::More),
        Some(ItemView::Eof) => (m, ReadOutcome::Done),
        Some(ItemView::Other) => (m, ReadOutcome::More),
    }
}

/// The reading of the document `xml` for its recent entries from its
/// `k`-th event on, from state `m`, with at most `fuel` more events after
/// this one: `None` where a read fails, else the state at the end of the
/// document (or when the fuel runs out).
pub open spec fn load_reads(xml: Seq<u8>, m: LoadModel, k: nat, fuel: nat) -> Option<LoadModel>
    decreases fuel,
{
    let (m2, outcome) = load_step(m, xml_read(xml, k));
    match outcome {
        ReadOutcome::Failed => None,
        ReadOutcome::Done => Some(m2),
        ReadOutcome::More => if fuel == 0 {
            Some(m2)
        } else {
            load_reads(xml, m2, k + 1, (fuel - 1) as nat)
        },
    }
}

/// The recent entries of the document `xml` (its `file://` bookmarks in
/// document order), `None` where quick-xml fails to read it.
pub open spec fn entries_read(xml: Seq<u8>) -> Option<Seq<(Seq<char>, Option<Seq<char>>, int, int)>> {
    match load_reads(xml, load_start(), 0, xml.len()) {
        Some(m) => Some(m.found),
        None => None,
    }
}

/// The views of a list of recent entries.
pub open spec fn entry_views(v: Seq<RecentEntry>) -> Seq<(Seq<char>, Option<Seq<char>>, int, int)> {
    v.map_values(|e: RecentEntry| entry_view(e))
}

/// The reading of the recent entries of the file, read by read.
pub struct LoadScan {
    found: Vec<RecentEntry>,
    current: Option<PartialBookmark>,
    in_metadata: bool,
}

impl LoadScan {
    /// What has been read so far.
    pub closed spec fn model(&self) -> LoadModel {
        LoadModel {
            found: entry_views(self.found@),
            current: match self.current {
                Some(b) => Some(b@),
                None => None,
            },
            in_metadata: self.in_metadata,
        }
    }

    /// Nothing read yet.
    pub fn new() -> (res: Self)
        ensures
            res.model() == load_start(),
    {
        let res = LoadScan { found: Vec::new(), current: None, in_metadata: false };
        assert(entry_views(res.found@) =~= Seq::empty());
        res
    }

    fn on_tag(&mut self, name: &String, attrs: &Vec<Option<(String, String)>>)
        ensures
            final(self).model() == load_tag(old(self).model(), name@, tag_attrs(attrs@)),
    {
        proof {
            reveal_strlit("bookmark");
            reveal_strlit("mime:mime-type");
            reveal_strlit("metadata");
        }
        if text_eq(name.as_str(), "bookmark") {
            self.current = Some(
                PartialBookmark {
                    href: get_attr(attrs, "href"),
                    visited: get_attr(attrs, "visited"),
                    modified: get_attr(attrs, "modified"),
                    mime_type: None,
                },
            );
        } else if text_eq(name.as_str(), "mime:mime-type") && self.current.is_some()
            && self.in_metadata {
            let t = get_attr(attrs, "type");
            let mut cur = self.current.take().unwrap();
            cur.mime_type = t;
            self.current = Some(cur);
        } else if text_eq(name.as_str(), "metadata") {
            self.in_metadata = true;
        }
    }

    fn on_end(&mut self, name: &String)
        ensures
            final(self).model() == load_end(old(self).model(), name@),
    {
        proof {
            reveal_strlit("bookmark");
            reveal_strlit("metadata");
        }
        if text_eq(name.as_str(), "bookmark") {
            match self.current.take() {
                Some(b) => {
                    match b.into_entry() {
                        Some(e) => {
                            let ghost before = self.found@;
                            self.found.push(e);
                            assert(entry_views(self.found@) =~= entry_views(before).push(
                                entry_view(e),
                            ));
                        },
                        None => {},
                    }
                },
                None => {},
            }
        } else if text_eq(name.as_str(), "metadata") {
            self.in_metadata = false;
        }
    }

    /// Takes one read into account (`None` where it failed) and tells how the
    /// reading goes on.
    pub fn feed(&mut self, read: Option<&XmlItem>) -> (res: ReadOutcome)
        ensures
            (final(self).model(), res) == load_step(
                old(self).model(),
                match read {
                    Some(i) => Some(i@),
                    None => None,
                },
            ),
    {
        match read {
            None => ReadOutcome::Failed,
            Some(XmlItem::Tag { name, attrs }) => {
                self.on_tag(name, attrs);
                ReadOutcome::More
            },
            Some(XmlItem::End { name }) => {
                self.on_end(name);
                ReadOutcome::More
            },
            Some(XmlItem::Eof) => ReadOutcome::Done,
            Some(XmlItem::Other) => ReadOutcome::More,
        }
    }

    /// The entries found so far.
    pub fn finish(self) -> (res: Vec<RecentEntry>)
        ensures
            entry_views(res@) == self.model().found,
    {
        self.found
    }
}

/// Reads the recent entries of an xbel document: the `file://` bookmarks in
/// document order. A read error of quick-xml is returned as it came.
pub fn read_recent_entries(xml: &[u8]) -> (res: Result<Vec<RecentEntry>, RecentsError>)
    ensures
        match res {
            Ok(v) => entries_read(xml@) == Some(entry_views(v@)),
            Err(e) => e is Xml && entries_read(xml@) is None,
        },
{
    let mut reader = xml_reader(xml);
    trim_text(&mut reader);
    let mut scan = LoadScan::new();
    let ghost whole = load_reads(xml@, load_start(), 0, xml@.len());
    let mut left: usize = xml.len();
    loop
        invariant_except_break
            left <= xml@.len(),
            reader_state(reader) == (xml@, true, (xml@.len() - left) as nat),
            whole == load_reads(xml@, scan.model(), (xml@.len() - left) as nat, left as nat),
            whole == load_reads(xml@, load_start(), 0, xml@.len()),
        ensures
            whole == Some(scan.model()),
        decreases left,
    {
        let ghost k = reader_state(reader).2;
        let got = read_item(&mut reader);
        let outcome = match &got {
            Ok(i) => scan.feed(Some(i)),
            Err(_) => scan.feed(None),
        };
        assert(xml_read(xml@, k) == read_view(got));
        match outcome {
            ReadOutcome::Failed => {
                match got {
                    Err(e) => {
                        return Err(RecentsError::Xml(e));
                    },
                    Ok(_) => {},
                }
            },
            ReadOutcome::Done => {
                break ;
            },
            ReadOutcome::More => {},
        }
        if left == 0 {
            break ;
        }
        left = left - 1;
    }
    let res = scan.finish();
    Ok(res)
}

// ---------------------------------------------------------------------------
// Recording a visit
// ---------------------------------------------------------------------------
/// The index of the first bookmark with the given `href`.
pub open spec fn href_index(v: Seq<BookmarkView>, href: Seq<char>) -> Option<int>
    decreases v.len(),
{
    if v.len() == 0 {
        None
    } else if v[0].href == href {
        Some(0)
    } else {
        match href_index(v.drop_first(), href) {
            Some(i) => Some(i + 1),
            None => None,
        }
    }
}

proof fn lemma_href_index(v: Seq<BookmarkView>, href: Seq<char>, i: int)
    requires
        0 <= i <= v.len(),
        forall|j: int| 0 <= j < i ==> (#[trigger] v[j]).href != href,
    ensures
        i < v.len() && v[i].href == href ==> href_index(v, href) == Some(i),
        i == v.len() ==> href_index(v, href) is None,
    decreases i,
{
    if i > 0 {
        let t = v.drop_first();
        assert forall|j: int| 0 <= j < i - 1 implies (#[trigger] t[j]).href != href by {
            assert(t[j] == v[j + 1]);
        }
        lemma_href_index(t, href, i - 1);
        assert(v[0].href != href);
    }
}

/// The bookmarks after a visit of `uri` at `now`: a bookmark with that
/// `href` gets `now` as visit and modification time and one more use; else a
/// new bookmark with `now` as all its times, the MIME type and one use is
/// added at the end.
pub open spec fn visited_bookmarks(v: Seq<BookmarkView>, uri: Seq<char>, now: Seq<char>, mime: Seq<char>) -> Seq<BookmarkView> {
    match href_index(v, uri) {
        Some(i) => v.update(
            i,
            BookmarkView {
                visited: now,
                modified: now,
                app_count: if v[i].app_count == u32::MAX {
                    0
                } else {
                    (v[i].app_count + 1) as u32
                },
                ..v[i]
            },
        ),
        None => v.push(
            BookmarkView { href: uri, added: now, modified: now, visited: now, mime_type: mime, app_count: 1 },
        ),
    }
}

/// A visit changes only the bookmark of the file visited: every other
/// bookmark, those that other applications wrote among them, stays as it
/// was and where it was, and at most one bookmark is added, at the end.
pub proof fn law_visit_keeps_other_bookmarks(v: Seq<BookmarkView>, uri: Seq<char>, now: Seq<char>, mime: Seq<char>)
    ensures
        visited_bookmarks(v, uri, now, mime).len() == v.len() || visited_bookmarks(v, uri, now, mime).len()
            == v.len() + 1,
        forall|i: int| 0 <= i < v.len() && v[i].href != uri ==> #[trigger] visited_bookmarks(v, uri, now, mime)[i] == v[i],
        exists|i: int| 0 <= i < visited_bookmarks(v, uri, now, mime).len() && (#[trigger] visited_bookmarks(v, uri, now, mime)[i]).href == uri,
{
    lemma_href_index_found(v, uri);
    let r = visited_bookmarks(v, uri, now, mime);
    match href_index(v, uri) {
        Some(i) => {
            assert(r[i].href == uri);
        },
        None => {
            assert(r[v.len() as int].href == uri);
        },
    }
}

proof fn lemma_href_index_found(v: Seq<BookmarkView>, uri: Seq<char>)
    ensures
        href_index(v, uri) matches Some(i) ==> 0 <= i < v.len() && v[i].href == uri,
    decreases v.len(),
{
    if v.len() > 0 {
        lemma_href_index_found(v.drop_first(), uri);
    }
}

/// Records a visit of `uri` at `now` in the bookmarks. The use count wraps
/// around past `u32::MAX`.
pub fn record_visit(bookmarks: &mut Vec<StoredBookmark>, uri: &str, now: &str, mime_type: &str)
    ensures
        bookmark_views(final(bookmarks)@) == visited_bookmarks(
            bookmark_views(old(bookmarks)@),
            uri@,
            now@,
            mime_type@,
        ),
{
    let ghost v = bookmark_views(bookmarks@);
    let mut i: usize = 0;
    while i < bookmarks.len()
        invariant
            i <= bookmarks.len(),
            bookmarks@ == old(bookmarks)@,
            v == bookmark_views(bookmarks@),
            forall|j: int| 0 <= j < i ==> (#[trigger] v[j]).href != uri@,
        decreases bookmarks.len() - i,
    {
        if text_eq(bookmarks[i].href.as_str(), uri) {
            proof {
                lemma_href_index(v, uri@, i as int);
            }
            let mut b = bookmarks.remove(i);
            b.visited = crate::text::copy_string(now);
            b.modified = crate::text::copy_string(now);
            b.app_count = b.app_count.wrapping_add(1);
            bookmarks.insert(i, b);
            proof {
                assert(bookmark_views(bookmarks@) =~= visited_bookmarks(v, uri@, now@, mime_type@));
            }
            return;
        }
        i = i + 1;
    }
    proof {
        lemma_href_index(v, uri@, i as int);
    }
    let ghost before = bookmarks@;
    bookmarks.push(
        StoredBookmark {
            href: crate::text::copy_string(uri),
            added: crate::text::copy_string(now),
            modified: crate::text::copy_string(now),
            visited: crate::text::copy_string(now),
            mime_type: crate::text::copy_string(mime_type),
            app_count: 1,
        },
    );
    assert(bookmark_views(bookmarks@) =~= visited_bookmarks(v, uri@, now@, mime_type@));
}

// ---------------------------------------------------------------------------
// Writing the file
// ---------------------------------------------------------------------------
#[verifier::external_type_specification]
#[verifier::external_body]
#[verifier::reject_recursive_types(W)]
pub struct ExXmlWriter<W>(Writer<W>);

/// An XML event to write.
#[derive(Debug)]
pub enum XmlOut {
    /// The XML declaration.
    Decl { version: String, encoding: String },
    /// An opening tag with its attributes.
    Start { name: String, attrs: Vec<(String, String)> },
    /// A self-closing tag with its attributes.
    Empty { name: String, attrs: Vec<(String, String)> },
    /// A closing tag.
    End { name: String },
}

/// An XML event to write, in plain values.
pub enum OutView {
    Decl(Seq<char>, Seq<char>),
    Start(Seq<char>, Seq<(Seq<char>, Seq<char>)>),
    Empty(Seq<char>, Seq<(Seq<char>, Seq<char>)>),
    End(Seq<char>),
}

/// The attributes in plain values.
pub open spec fn attrs_view(a: Seq<(String, String)>) -> Seq<(Seq<char>, Seq<char>)> {
    a.map_values(|p: (String, String)| (p.0@, p.1@))
}

impl View for XmlOut {
    type V = OutView;

    open spec fn view(&self) -> OutView {
        match self {
            XmlOut::Decl { version, encoding } => OutView::Decl(version@, encoding@),
            XmlOut::Start { name, attrs } => OutView::Start(name@, attrs_view(attrs@)),
            XmlOut::Empty { name, attrs } => OutView::Empty(name@, attrs_view(attrs@)),
            XmlOut::End { name } => OutView::End(name@),
        }
    }
}

/// The events of one bookmark: the element with its four attributes, its
/// info and metadata, the MIME type where there is one, and this
/// application's entry with the use count.
pub open spec fn bookmark_out(b: BookmarkView) -> Seq<OutView> {
    let head = seq![
        OutView::Start(
            "bookmark"@,
            seq![("href"@, b.href), ("added"@, b.added), ("modified"@, b.modified), ("visited"@, b.visited)],
        ),
        OutView::Start("info"@, Seq::empty()),
        OutView::Start("metadata"@, seq![("owner"@, "http://freedesktop.org"@)]),
    ];
    let mime = if b.mime_type.len() > 0 {
        seq![OutView::Empty("mime:mime-type"@, seq![("type"@, b.mime_type)])]
    } else {
        Seq::empty()
    };
    let tail = seq![
        OutView::Start("bookmark:applications"@, Seq::empty()),
        OutView::Empty(
            "bookmark:application"@,
            seq![
                ("name"@, "garfield"@),
                ("exec"@, "garfield %u"@),
                ("modified"@, b.modified),
                ("count"@, decimal(b.app_count as nat)),
            ],
        ),
        OutView::End("bookmark:applications"@),
        OutView::End("metadata"@),
        OutView::End("info"@),
        OutView::End("bookmark"@),
    ];
    head + mime + tail
}

/// The events of the bookmarks, one after the other.
pub open spec fn bookmarks_out(v: Seq<BookmarkView>) -> Seq<OutView>
    decreases v.len(),
{
    if v.len() == 0 {
        Seq::empty()
    } else {
        bookmarks_out(v.drop_last()) + bookmark_out(v.last())
    }
}

/// The events of a whole xbel document: the declaration, the `xbel` root
/// with its version and namespaces, and the bookmarks inside it.
pub open spec fn xbel_out(v: Seq<BookmarkView>) -> Seq<OutView> {
    seq![
        OutView::Decl("1.0"@, "UTF-8"@),
        OutView::Start(
            "xbel"@,
            seq![
                ("version"@, "1.0"@),
                ("xmlns:bookmark"@, "http://www.freedesktop.org/standards/desktop-bookmarks"@),
                ("xmlns:mime"@, "http://www.freedesktop.org/standards/shared-mime-info"@),
            ],
        ),
    ] + bookmarks_out(v) + seq![OutView::End("xbel"@)]
}

/// The views of a list of events to write.
pub open spec fn out_views(v: Seq<XmlOut>) -> Seq<OutView> {
    v.map_values(|e: XmlOut| e@)
}

fn text(s: &str) -> (res: String)
    ensures
        res@ == s@,
{
    crate::text::copy_string(s)
}

fn pair(k: &str, v: &str) -> (res: (String, String))
    ensures
        res.0@ == k@,
        res.1@ == v@,
{
    (text(k), text(v))
}

fn no_attrs() -> (res: Vec<(String, String)>)
    ensures
        attrs_view(res@) == Seq::<(Seq<char>, Seq<char>)>::empty(),
{
    let res: Vec<(String, String)> = Vec::new();
    assert(attrs_view(res@) =~= Seq::empty());
    res
}

fn push_out(out: &mut Vec<XmlOut>, e: XmlOut)
    ensures
        out_views(final(out)@) == out_views(old(out)@).push(e@),
{
    let ghost before = out@;
    out.push(e);
    assert(out_views(out@) =~= out_views(before).push(e@));
}

fn bookmark_events(out: &mut Vec<XmlOut>, b: &StoredBookmark)
    ensures
        out_views(final(out)@) == out_views(old(out)@) + bookmark_out(b@),
{
    let ghost start = out_views(out@);
    let mut a: Vec<(String, String)> = Vec::new();
    a.push(pair("href", b.href.as_str()));
    a.push(pair("added", b.added.as_str()));
    a.push(pair("modified", b.modified.as_str()));
    a.push(pair("visited", b.visited.as_str()));
    proof {
        reveal_strlit("href");
        reveal_strlit("added");
        reveal_strlit("modified");
        reveal_strlit("visited");
    }
    assert(attrs_view(a@) =~= seq![("href"@, b.href@), ("added"@, b.added@), ("modified"@, b.modified@), ("visited"@, b.visited@)]);
    push_out(out, XmlOut::Start { name: text("bookmark"), attrs: a });
    push_out(out, XmlOut::Start { name: text("info"), attrs: no_attrs() });
    let mut m: Vec<(String, String)> = Vec::new();
    m.push(pair("owner", "http://freedesktop.org"));
    assert(attrs_view(m@) =~= seq![("owner"@, "http://freedesktop.org"@)]);
    push_out(out, XmlOut::Start { name: text("metadata"), attrs: m });
    let ghost after_head = out_views(out@);
    if b.mime_type.as_str().unicode_len() > 0 {
        let mut t: Vec<(String, String)> = Vec::new();
        t.push(pair("type", b.mime_type.as_str()));
        assert(attrs_view(t@) =~= seq![("type"@, b.mime_type@)]);
        push_out(out, XmlOut::Empty { name: text("mime:mime-type"), attrs: t });
    }
    let ghost after_mime = out_views(out@);
    push_out(out, XmlOut::Start { name: text("bookmark:applications"), attrs: no_attrs() });
    let mut app: Vec<(String, String)> = Vec::new();
    app.push(pair("name", "garfield"));
    app.push(pair("exec", "garfield %u"));
    app.push(pair("modified", b.modified.as_str()));
    let count = crate::text::decimal_string(b.app_count as u64);
    app.push((text("count"), count));
    assert(attrs_view(app@) =~= seq![("name"@, "garfield"@), ("exec"@, "garfield %u"@), ("modified"@, b.modified@), ("count"@, decimal(b.app_count as nat))]);
    push_out(out, XmlOut::Empty { name: text("bookmark:application"), attrs: app });
    push_out(out, XmlOut::End { name: text("bookmark:applications") });
    push_out(out, XmlOut::End { name: text("metadata") });
    push_out(out, XmlOut::End { name: text("info") });
    push_out(out, XmlOut::End { name: text("bookmark") });
    assert(out_views(out@) =~= start + bookmark_out(b@));
}

/// The events of a whole xbel document holding the bookmarks.
pub fn xbel_events(bookmarks: &Vec<StoredBookmark>) -> (res: Vec<XmlOut>)
    ensures
        out_views(res@) == xbel_out(bookmark_views(bookmarks@)),
{
    let mut out: Vec<XmlOut> = Vec::new();
    assert(out_views(out@) =~= Seq::empty());
    push_out(&mut out, XmlOut::Decl { version: text("1.0"), encoding: text("UTF-8") });
    let mut root: Vec<(String, String)> = Vec::new();
    root.push(pair("version", "1.0"));
    root.push(pair("xmlns:bookmark", "http://www.freedesktop.org/standards/desktop-bookmarks"));
    root.push(pair("xmlns:mime", "http://www.freedesktop.org/standards/shared-mime-info"));
    assert(attrs_view(root@) =~= seq![
        ("version"@, "1.0"@),
        ("xmlns:bookmark"@, "http://www.freedesktop.org/standards/desktop-bookmarks"@),
        ("xmlns:mime"@, "http://www.freedesktop.org/standards/shared-mime-info"@),
    ]);
    push_out(&mut out, XmlOut::Start { name: text("xbel"), attrs: root });
    let ghost head = out_views(out@);
    let ghost v = bookmark_views(bookmarks@);
    let mut i: usize = 0;
    assert(v.take(0) =~= Seq::<BookmarkView>::empty());
    while i < bookmarks.len()
        invariant
            i <= bookmarks.len(),
            v == bookmark_views(bookmarks@),
            out_views(out@) == head + bookmarks_out(v.take(i as int)),
        decreases bookmarks.len() - i,
    {
        bookmark_events(&mut out, &bookmarks[i]);
        assert(v.take(i + 1).drop_last() =~= v.take(i as int));
        assert(v.take(i + 1).last() == bookmarks@[i as int]@);
        assert(head + bookmarks_out(v.take(i as int)) + bookmark_out(bookmarks@[i as int]@) =~= head
            + bookmarks_out(v.take(i + 1)));
        i = i + 1;
    }
    assert(v.take(i as int) =~= v);
    push_out(&mut out, XmlOut::End { name: text("xbel") });
    out
}

/// The bytes a writer over a byte buffer holds (what it has written).
pub uninterp spec fn writer_bytes(w: Writer<Vec<u8>>) -> Seq<u8>;

/// What a writer was made with: its indent byte, and whether it puts a
/// space before the slash of a self-closing tag.
pub uninterp spec fn writer_settings(w: Writer<Vec<u8>>) -> (u8, bool);

/// What quick-xml puts in front of a tag: nothing (the first one), or a
/// line break and copies of the indent byte.
pub open spec fn indent_break(ws: Seq<u8>, c: u8) -> bool {
    ws.len() == 0 || (ws[0] == 10u8 && forall|k: int| 1 <= k < ws.len() ==> ws[k] == c)
}

/// A character of an attribute value as quick-xml writes it: the markup
/// characters and the line-break, return and tab characters as references.
pub open spec fn escaped_char(c: char) -> Seq<char> {
    if c == '<' {
        "&lt;"@
    } else if c == '>' {
        "&gt;"@
    } else if c == '&' {
        "&amp;"@
    } else if c == '\'' {
        "&apos;"@
    } else if c == '"' {
        "&quot;"@
    } else if c == '\r' {
        "&#13;"@
    } else if c == '\n' {
        "&#10;"@
    } else if c == '\t' {
        "&#9;"@
    } else {
        seq![c]
    }
}

/// An attribute value as quick-xml writes it.
pub open spec fn attr_escaped(v: Seq<char>) -> Seq<char>
    decreases v.len(),
{
    if v.len() == 0 {
        Seq::empty()
    } else {
        attr_escaped(v.drop_last()) + escaped_char(v.last())
    }
}

/// The attributes of a tag as quick-xml writes them: each as a space, the
/// key, `="`, the escaped value and `"`.
pub open spec fn attrs_text(a: Seq<(Seq<char>, Seq<char>)>) -> Seq<char>
    decreases a.len(),
{
    if a.len() == 0 {
        Seq::empty()
    } else {
        attrs_text(a.drop_last()) + " "@ + a.last().0 + "=\""@ + attr_escaped(a.last().1) + "\""@
    }
}

/// The text of an event as quick-xml writes it (without what it puts in
/// front), `spaced` telling whether a self-closing tag has a space before
/// its slash.
pub open spec fn event_text(e: OutView, spaced: bool) -> Seq<char> {
    match e {
        OutView::Decl(v, enc) => "<?xml version=\""@ + v + "\" encoding=\""@ + enc + "\"?>"@,
        OutView::Start(n, a) => "<"@ + n + attrs_text(a) + ">"@,
        OutView::Empty(n, a) => "<"@ + n + attrs_text(a) + (if spaced { " />"@ } else { "/>"@ }),
        OutView::End(n) => "</"@ + n + ">"@,
    }
}

/// A writer's bytes after it has written an event: what it held, then a
/// line break and indentation or nothing, then the event's text in UTF-8.
pub open spec fn wrote(before: Writer<Vec<u8>>, after: Writer<Vec<u8>>, e: OutView) -> bool {
    &&& writer_settings(after) == writer_settings(before)
    &&& exists|ws: Seq<u8>|
        indent_break(ws, writer_settings(before).0) && writer_bytes(after) == writer_bytes(before) + ws
            + vstd::utf8::encode_utf8(event_text(e, writer_settings(before).1))
}

/// Events as quick-xml lays them out: each after its line break and
/// indentation (`gaps`, one per event), without a space before the slash
/// of a self-closing tag.
pub open spec fn laid_out(evs: Seq<OutView>, gaps: Seq<Seq<u8>>) -> Seq<u8>
    decreases evs.len(),
{
    if evs.len() == 0 || gaps.len() != evs.len() {
        Seq::empty()
    } else {
        laid_out(evs.drop_last(), gaps.drop_last()) + gaps.last() + vstd::utf8::encode_utf8(
            event_text(evs.last(), false),
        )
    }
}

/// The bytes are the events laid out by quick-xml, indented with spaces.
pub open spec fn xml_document_of(bytes: Seq<u8>, evs: Seq<OutView>) -> bool {
    exists|gaps: Seq<Seq<u8>>|
        gaps.len() == evs.len() && (forall|k: int| 0 <= k < gaps.len() ==> indent_break(#[trigger] gaps[k], 32u8))
            && bytes == laid_out(evs, gaps)
}

/// `Writer::new_with_indent` over an empty byte buffer: nested elements are
/// indented by `indent_size` copies of `indent_char` (an ASCII byte). The
/// buffer is empty, and self-closing tags get no space before the slash.
#[verifier::external_body]
fn xml_writer(indent_char: u8, indent_size: usize) -> (res: Writer<Vec<u8>>)
    requires
        indent_char < 128,
    ensures
        writer_bytes(res) == Seq::<u8>::empty(),
        writer_settings(res) == (indent_char, false),
{
    Writer::new_with_indent(Vec::new(), indent_char, indent_size)
}

/// `Writer::write_event` of an XML declaration (`BytesDecl::new` with the
/// version and encoding, no standalone flag). Writing into a byte buffer
/// does not fail; what is appended is the declaration after a line break
/// and indentation, or nothing, as quick-xml's source shows.
#[verifier::external_body]
fn write_decl(w: &mut Writer<Vec<u8>>, version: &str, encoding: &str) -> (res: Result<(), std::io::Error>)
    requires
        writer_settings(*old(w)).0 < 128,
    ensures
        res is Ok,
        wrote(*old(w), *final(w), OutView::Decl(version@, encoding@)),
{
    w.write_event(Event::Decl(BytesDecl::new(version, Some(encoding), None)))
}

/// `Writer::write_event` of an opening tag (`BytesStart::new` with the
/// attributes added in order; quick-xml escapes their values). Writing into
/// a byte buffer does not fail; the tag is appended as `wrote` says.
#[verifier::external_body]
fn write_start(w: &mut Writer<Vec<u8>>, name: &str, attrs: &Vec<(String, String)>) -> (res: Result<(), std::io::Error>)
    requires
        writer_settings(*old(w)).0 < 128,
    ensures
        res is Ok,
        wrote(*old(w), *final(w), OutView::Start(name@, attrs_view(attrs@))),
{
    w.write_event(Event::Start(BytesStart::new(name).with_attributes(attrs.iter().map(|(k, v)| (k.as_str(), v.as_str())))))
}

/// `Writer::write_event` of a self-closing tag, built as for `write_start`.
/// Writing into a byte buffer does not fail; the tag is appended as `wrote`
/// says.
#[verifier::external_body]
fn write_empty(w: &mut Writer<Vec<u8>>, name: &str, attrs: &Vec<(String, String)>) -> (res: Result<(), std::io::Error>)
    requires
        writer_settings(*old(w)).0 < 128,
    ensures
        res is Ok,
        wrote(*old(w), *final(w), OutView::Empty(name@, attrs_view(attrs@))),
{
    w.write_event(Event::Empty(BytesStart::new(name).with_attributes(attrs.iter().map(|(k, v)| (k.as_str(), v.as_str())))))
}

/// `Writer::write_event` of a closing tag (`BytesEnd::new`). Writing into a
/// byte buffer does not fail; the tag is appended as `wrote` says.
#[verifier::external_body]
fn write_end(w: &mut Writer<Vec<u8>>, name: &str) -> (res: Result<(), std::io::Error>)
    requires
        writer_settings(*old(w)).0 < 128,
    ensures
        res is Ok,
        wrote(*old(w), *final(w), OutView::End(name@)),
{
    w.write_event(Event::End(BytesEnd::new(name)))
}

/// `Writer::into_inner`: the bytes written.
#[verifier::external_body]
fn written_bytes(w: Writer<Vec<u8>>) -> (res: Vec<u8>)
    ensures
        res@ == writer_bytes(w),
{
    w.into_inner()
}

/// The xbel document holding the bookmarks, written by quick-xml with an
/// indent of two spaces: the events `xbel_out` of the bookmarks, in order.
/// Writing into memory does not fail.
pub fn xbel_document(bookmarks: &Vec<StoredBookmark>) -> (res: Result<Vec<u8>, RecentsError>)
    ensures
        res matches Ok(b) && xml_document_of(b@, xbel_out(bookmark_views(bookmarks@))),
{
    let events = xbel_events(bookmarks);
    let ghost evs = out_views(events@);
    let mut w = xml_writer(32, 2);
    let ghost mut gaps: Seq<Seq<u8>> = Seq::empty();
    let mut i: usize = 0;
    proof {
        assert(evs.take(0) =~= Seq::<OutView>::empty());
    }
    while i < events.len()
        invariant
            i <= events@.len(),
            evs == out_views(events@),
            writer_settings(w) == (32u8, false),
            gaps.len() == i,
            forall|k: int| 0 <= k < gaps.len() ==> indent_break(#[trigger] gaps[k], 32u8),
            writer_bytes(w) == laid_out(evs.take(i as int), gaps),
        decreases events@.len() - i,
    {
        let ghost before = w;
        let r = match &events[i] {
            XmlOut::Decl { version, encoding } => write_decl(&mut w, version.as_str(), encoding.as_str()),
            XmlOut::Start { name, attrs } => write_start(&mut w, name.as_str(), attrs),
            XmlOut::Empty { name, attrs } => write_empty(&mut w, name.as_str(), attrs),
            XmlOut::End { name } => write_end(&mut w, name.as_str()),
        };
        proof {
            let e = evs[i as int];
            assert(e == events@[i as int]@);
            assert(wrote(before, w, e));
            let ws = choose|ws: Seq<u8>|
                indent_break(ws, 32u8) && writer_bytes(w) == writer_bytes(before) + ws + vstd::utf8::encode_utf8(
                    event_text(e, false),
                );
            let g2 = gaps.push(ws);
            assert(evs.take(i + 1).drop_last() =~= evs.take(i as int));
            assert(evs.take(i + 1).last() == e);
            assert(g2.drop_last() =~= gaps);
            assert(g2.last() == ws);
            assert(laid_out(evs.take(i + 1), g2) == laid_out(evs.take(i as int), gaps) + ws
                + vstd::utf8::encode_utf8(event_text(e, false)));
            gaps = g2;
        }
        match r {
            Ok(()) => {},
            Err(e) => {
                return Err(RecentsError::Io(e));
            },
        }
        i = i + 1;
    }
    proof {
        assert(evs.take(i as int) =~= evs);
    }
    let b = written_bytes(w);
    proof {
        assert(xml_document_of(b@, evs));
    }
    Ok(b)
}

} // verus!
