use garfield::recents::{parse_iso8601, percent_decode, percent_encode, recents_file_for, RecentsManager, recent_uri_of};
use garfield::xbel::{read_all_bookmarks, read_recent_entries, record_visit, xbel_document, xbel_events, StoredBookmark};

#[test]
fn test_percent_decode() {
    assert_eq!(percent_decode("hello%20world"), "hello world");
    assert_eq!(percent_decode("file%3A%2F%2F"), "file://");
    assert_eq!(percent_decode("no_encoding"), "no_encoding");
}

#[test]
fn test_parse_iso8601() {
    let ts = parse_iso8601("2026-01-12T11:08:52.375556Z");
    assert!(ts.is_some());
}

#[test]
fn test_recents_manager_new() {
    let manager = RecentsManager::new();
    assert!(manager.entries().is_empty());
    assert!(std::path::Path::new(manager.xbel_path()).ends_with("recently-used.xbel"));
}

const XBEL: &str = r#"<?xml version="1.0" encoding="UTF-8"?>
<xbel version="1.0" xmlns:bookmark="http://www.freedesktop.org/standards/desktop-bookmarks" xmlns:mime="http://www.freedesktop.org/standards/shared-mime-info">
  <bookmark href="file:///tmp/a%20b.txt" added="2024-01-01T00:00:00Z" modified="2024-01-02T00:00:00Z" visited="2024-01-03T00:00:00Z">
    <info>
      <metadata owner="http://freedesktop.org">
        <mime:mime-type type="text/plain"/>
        <bookmark:applications>
          <bookmark:application name="x" exec="x %u" modified="2024-01-02T00:00:00Z" count="4"/>
        </bookmark:applications>
      </metadata>
    </info>
  </bookmark>
  <bookmark href="https://example.org/" added="a" modified="b" visited="c">
  </bookmark>
</xbel>
"#;

#[test]
fn read_every_bookmark() {
    let all = read_all_bookmarks(XBEL.as_bytes()).unwrap();
    assert_eq!(all.len(), 2);
    assert_eq!(all[0].href, "file:///tmp/a%20b.txt");
    assert_eq!(all[0].visited, "2024-01-03T00:00:00Z");
    assert_eq!(all[0].mime_type, "text/plain");
    assert_eq!(all[0].app_count, 4);
    assert_eq!(all[1].href, "https://example.org/");
    assert_eq!(all[1].mime_type, "");
    assert_eq!(all[1].app_count, 1);
}

#[test]
fn read_recent_file_entries() {
    let found = read_recent_entries(XBEL.as_bytes()).unwrap();
    assert_eq!(found.len(), 1);
    assert_eq!(found[0].path, "/tmp/a b.txt");
    assert_eq!(found[0].visited, parse_iso8601("2024-01-03T00:00:00Z").unwrap());
    assert!(read_recent_entries(b"<a><b></a>").is_err() || read_recent_entries(b"<a><b></a>").is_ok());
    assert!(read_all_bookmarks(b"<a></b>").is_err());
}

#[test]
fn written_document_reads_back() {
    let mut marks: Vec<StoredBookmark> = Vec::new();
    record_visit(&mut marks, "file:///tmp/x", "2024-05-05T00:00:00.000000Z", "text/plain");
    record_visit(&mut marks, "file:///tmp/y%26", "2024-05-06T00:00:00.000000Z", "");
    record_visit(&mut marks, "file:///tmp/x", "2024-05-07T00:00:00.000000Z", "ignored");
    assert_eq!(marks.len(), 2);
    assert_eq!(marks[0].app_count, 2);
    assert_eq!(marks[0].visited, "2024-05-07T00:00:00.000000Z");
    assert_eq!(marks[0].added, "2024-05-05T00:00:00.000000Z");
    assert_eq!(marks[0].mime_type, "text/plain");
    let events = xbel_events(&marks);
    assert!(events.len() > 20);
    let doc = xbel_document(&marks).unwrap();
    let back = read_all_bookmarks(&doc).unwrap();
    assert_eq!(back.len(), 2);
    assert_eq!(back[0].href, "file:///tmp/x");
    assert_eq!(back[0].app_count, 2);
    assert_eq!(back[0].mime_type, "text/plain");
    assert_eq!(back[1].href, "file:///tmp/y%26");
    assert_eq!(back[1].mime_type, "");
}

#[test]
fn uri_escaping() {
    assert_eq!(recent_uri_of("/tmp/a b&c.txt"), "file:///tmp/a%20b%26c.txt");
    assert_eq!(percent_encode("Ä"), "%C3%84");
    assert_eq!(percent_decode("%zz"), "%zz");
    assert_eq!(percent_decode(&percent_encode("/a b/c?d")), "/a b/c?d");
}

#[test]
fn manager_loads_existing_files_only() {
    let mut m = RecentsManager::new();
    let xml = format!(
        "<xbel><bookmark href=\"file:///\" visited=\"2024-01-01T00:00:00Z\"></bookmark><bookmark href=\"file:///nonexistent-garfield-xyz\" visited=\"2024-02-01T00:00:00Z\"></bookmark></xbel>"
    );
    m.load_xml(xml.as_bytes()).unwrap();
    assert_eq!(m.len(), 1);
    assert_eq!(m.entries()[0].path, "/");
    assert!(m.load_xml(b"<xbel></bookmark>").is_err());
    assert!(m.is_empty());
    m.clear_cache();
    assert!(m.is_empty());
}

#[test]
fn written_document_layout() {
    let marks = vec![StoredBookmark {
        href: String::from("file:///a&b\"c"),
        added: String::from("A"),
        modified: String::from("M"),
        visited: String::from("V"),
        mime_type: String::new(),
        app_count: 1,
    }];
    let doc = String::from_utf8(xbel_document(&marks).unwrap()).unwrap();
    let want = "<?xml version=\"1.0\" encoding=\"UTF-8\"?>\n\
<xbel version=\"1.0\" xmlns:bookmark=\"http://www.freedesktop.org/standards/desktop-bookmarks\" xmlns:mime=\"http://www.freedesktop.org/standards/shared-mime-info\">\n  \
<bookmark href=\"file:///a&amp;b&quot;c\" added=\"A\" modified=\"M\" visited=\"V\">\n    \
<info>\n      \
<metadata owner=\"http://freedesktop.org\">\n        \
<bookmark:applications>\n          \
<bookmark:application name=\"garfield\" exec=\"garfield %u\" modified=\"M\" count=\"1\"/>\n        \
</bookmark:applications>\n      \
</metadata>\n    \
</info>\n  \
</bookmark>\n\
</xbel>";
    assert_eq!(doc, want);
}

#[test]
fn recents_file_location() {
    assert_eq!(recents_file_for(Some("/home/u/.local/share".to_string())), "/home/u/.local/share/recently-used.xbel");
    assert_eq!(recents_file_for(None), "~/.local/share/recently-used.xbel");
}

#[test]
fn visit_keeps_bookmarks_of_other_applications() {
    let m = RecentsManager::new();
    let doc = m.add_entry(Some(XBEL.as_bytes()), "/tmp/c d.txt", "text/plain").unwrap();
    let all = read_all_bookmarks(&doc).unwrap();
    assert_eq!(all.len(), 3);
    assert_eq!(all[0].href, "file:///tmp/a%20b.txt");
    assert_eq!(all[0].app_count, 4);
    assert_eq!(all[1].href, "https://example.org/");
    assert_eq!(all[2].href, "file:///tmp/c%20d.txt");
    assert_eq!(all[2].mime_type, "text/plain");
    assert_eq!(all[2].app_count, 1);
    let again = m.add_entry(Some(&doc), "/tmp/a b.txt", "text/plain").unwrap();
    let all = read_all_bookmarks(&again).unwrap();
    assert_eq!(all.len(), 3);
    assert_eq!(all[0].app_count, 5);
    assert!(m.add_entry(Some(b"<xbel></bookmark>"), "/tmp/x", "text/plain").is_err());
}
