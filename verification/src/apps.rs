//! Installed applications for "Open With": desktop entries and their commands.
use vstd::prelude::*;
use crate::text::{chars_of, copy_string, string_of, text_eq, text_views, trim, trim_chars};
use crate::path::{extension, extension_of, file_name, file_name_of, join, join_path};
use crate::places::data_dir;
use crate::order::{arrangement, stable_text_order, text_before};
use crate::text::{lowercase, to_lowercase};
use freedesktop_entry_parser::Entry;
use freedesktop_entry_parser::low_level::ParseError;

verus! {

/// An installed application entry.
#[derive(Debug)]
pub struct AppEntry {
    /// Display name from .desktop file.
    pub name: String,
    /// Optional description/comment.
    pub description: Option<String>,
    /// Exec command (cleaned of field codes).
    pub command: String,
    /// Icon name (not currently rendered).
    pub icon: Option<String>,
    /// Path to the .desktop file.
    pub desktop_path: String,
}

/// Result of app picker interaction.
#[derive(Debug, PartialEq, Eq)]
pub enum AppPickerResult {
    /// User selected an application.
    Selected(String),
    /// User cancelled.
    Cancelled,
}

/// The field codes that an Exec line may carry after `%`.
pub open spec fn is_field_code(c: char) -> bool {
    c == 'f' || c == 'F' || c == 'u' || c == 'U' || c == 'd' || c == 'D' || c == 'n' || c == 'N'
        || c == 'i' || c == 'c' || c == 'k' || c == 'v' || c == 'm'
}

/// An Exec line with its field codes removed and `%%` turned into `%`.
pub open spec fn strip_field_codes(s: Seq<char>) -> Seq<char>
    decreases s.len(),
{
    if s.len() == 0 {
        Seq::empty()
    } else if s[0] == '%' && s.len() >= 2 && is_field_code(s[1]) {
        strip_field_codes(s.skip(2))
    } else if s[0] == '%' && s.len() >= 2 && s[1] == '%' {
        seq!['%'] + strip_field_codes(s.skip(2))
    } else {
        seq![s[0]] + strip_field_codes(s.drop_first())
    }
}

/// Clean field codes from an Exec command, then trim it.
pub fn clean_exec_command(exec: &str) -> (res: String)
    ensures
        res@ == trim(strip_field_codes(exec@)),
{
    let v = chars_of(exec);
    let n = v.len();
    let mut out: Vec<char> = Vec::new();
    let mut i: usize = 0;
    assert(v@.skip(0) == v@);
    while i < n
        invariant
            n == v.len(),
            i <= n,
            strip_field_codes(v@) == out@ + strip_field_codes(v@.skip(i as int)),
        decreases n - i,
    {
        let ghost t = v@.skip(i as int);
        let c = v[i];
        if c == '%' && i + 1 < n {
            let d = v[i + 1];
            if d == 'f' || d == 'F' || d == 'u' || d == 'U' || d == 'd' || d == 'D' || d == 'n' || d
                == 'N' || d == 'i' || d == 'c' || d == 'k' || d == 'v' || d == 'm' {
                assert(t.skip(2) =~= v@.skip(i + 2));
                i = i + 2;
                continue;
            }
            if d == '%' {
                assert(t.skip(2) =~= v@.skip(i + 2));
                let ghost before = out@;
                out.push('%');
                assert(before + (seq!['%'] + strip_field_codes(v@.skip(i + 2))) =~= out@
                    + strip_field_codes(v@.skip(i + 2)));
                i = i + 2;
                continue;
            }
        }
        assert(t.drop_first() =~= v@.skip(i + 1));
        let ghost before = out@;
        out.push(c);
        assert(before + (seq![c] + strip_field_codes(v@.skip(i + 1))) =~= out@ + strip_field_codes(
            v@.skip(i + 1),
        ));
        i = i + 1;
    }
    assert(v@.skip(n as int) =~= Seq::<char>::empty());
    assert(out@ + Seq::<char>::empty() =~= out@);
    let t = trim_chars(&out);
    string_of(&t)
}

// ---------------------------------------------------------------------------
// Finding the installed applications
// ---------------------------------------------------------------------------
/// The directories searched for desktop entries: the user's
/// `<data dir>/applications` (where there is a data directory), the system
/// and NixOS directories, the Flatpak directories (user, where there is a data
/// directory, then system) and the Snap directory.
pub open spec fn app_directories_spec(data: Option<Seq<char>>) -> Seq<Seq<char>> {
    let user = match data {
        Some(d) => seq![join(d, "applications"@)],
        None => Seq::empty(),
    };
    let flatpak_user = match data {
        Some(d) => seq![join(d, "flatpak/exports/share/applications"@)],
        None => Seq::empty(),
    };
    user + seq!["/usr/share/applications"@, "/usr/local/share/applications"@, "/run/current-system/sw/share/applications"@]
        + flatpak_user + seq!["/var/lib/flatpak/exports/share/applications"@, "/var/lib/snapd/desktop/applications"@]
}

fn push_text(v: &mut Vec<String>, s: String)
    ensures
        final(v)@ == old(v)@.push(s),
        text_views(final(v)@) == text_views(old(v)@).push(s@),
{
    let ghost before = v@;
    v.push(s);
    assert(text_views(v@) =~= text_views(before).push(s@));
}

/// Get XDG application directories to scan.
pub fn app_directories() -> (res: Vec<String>)
    ensures
        exists|data: Option<Seq<char>>| text_views(res@) == #[trigger] app_directories_spec(data),
{
    let data = data_dir();
    let mut dirs: Vec<String> = Vec::new();
    assert(text_views(dirs@) =~= Seq::empty());
    if let Some(d) = &data {
        push_text(&mut dirs, join_path(d.as_str(), "applications"));
    }
    push_text(&mut dirs, copy_string("/usr/share/applications"));
    push_text(&mut dirs, copy_string("/usr/local/share/applications"));
    push_text(&mut dirs, copy_string("/run/current-system/sw/share/applications"));
    if let Some(d) = &data {
        push_text(&mut dirs, join_path(d.as_str(), "flatpak/exports/share/applications"));
    }
    push_text(&mut dirs, copy_string("/var/lib/flatpak/exports/share/applications"));
    push_text(&mut dirs, copy_string("/var/lib/snapd/desktop/applications"));
    let ghost dv = match data {
        Some(d) => Some(d@),
        None => None,
    };
    assert(text_views(dirs@) =~= app_directories_spec(dv));
    dirs
}

/// The name by which desktop files are told apart: the file name of the
/// path, or the empty text where it has none.
pub open spec fn file_key(p: Seq<char>) -> Seq<char> {
    match file_name(p) {
        Some(n) => n,
        None => Seq::empty(),
    }
}

/// The desktop files among the paths found, in the order found: those with
/// the extension `desktop`, each file name taken only the first time.
pub open spec fn desktop_files(found: Seq<Seq<char>>) -> Seq<Seq<char>>
    decreases found.len(),
{
    if found.len() == 0 {
        Seq::empty()
    } else {
        let kept = desktop_files(found.drop_last());
        let p = found.last();
        if extension(p) == Some("desktop"@) && !(exists|k: int| 0 <= k < kept.len() && file_key(#[trigger] kept[k]) == file_key(p)) {
            kept.push(p)
        } else {
            kept
        }
    }
}

fn file_key_of(p: &str) -> (res: String)
    ensures
        res@ == file_key(p@),
{
    match file_name_of(p) {
        Some(n) => n,
        None => String::new(),
    }
}

fn text_in(v: &Vec<String>, t: &str) -> (res: bool)
    ensures
        res == exists|m: int| 0 <= m < v.len() && #[trigger] v@[m]@ == t@,
{
    let mut k: usize = 0;
    while k < v.len()
        invariant
            k <= v.len(),
            forall|m: int| 0 <= m < k ==> v@[m]@ != t@,
        decreases v.len() - k,
    {
        if text_eq(v[k].as_str(), t) {
            return true;
        }
        k = k + 1;
    }
    false
}

/// Picks the desktop files among the paths found under the application
/// directories (in the order found): files with the `desktop` extension,
/// each file name taken only once.
pub fn select_desktop_files(found: &Vec<String>) -> (res: Vec<String>)
    ensures
        text_views(res@) == desktop_files(text_views(found@)),
{
    let ghost f = text_views(found@);
    let mut kept: Vec<String> = Vec::new();
    let mut keys: Vec<String> = Vec::new();
    let mut i: usize = 0;
    assert(f.take(0) =~= Seq::<Seq<char>>::empty());
    assert(text_views(kept@) =~= Seq::empty());
    while i < found.len()
        invariant
            i <= found.len(),
            f == text_views(found@),
            text_views(kept@) == desktop_files(f.take(i as int)),
            keys.len() == kept.len(),
            forall|k: int| 0 <= k < keys.len() ==> #[trigger] keys@[k]@ == file_key(kept@[k]@),
        decreases found.len() - i,
    {
        let p = &found[i];
        assert(f.take(i + 1).drop_last() =~= f.take(i as int));
        assert(f.take(i + 1).last() == p@);
        let ext = extension_of(p.as_str());
        proof {
            reveal_strlit("desktop");
        }
        let is_desktop = match &ext {
            Some(e) => text_eq(e.as_str(), "desktop"),
            None => false,
        };
        if is_desktop {
            let key = file_key_of(p.as_str());
            let seen = text_in(&keys, key.as_str());
            let ghost kv = text_views(kept@);
            proof {
                if seen {
                    let m = choose|m: int| 0 <= m < keys.len() && #[trigger] keys@[m]@ == key@;
                    assert(file_key(kv[m]) == file_key(p@));
                } else {
                    assert forall|m: int| 0 <= m < kv.len() implies file_key(#[trigger] kv[m]) != file_key(p@) by {
                        assert(kv[m] == kept@[m]@);
                        assert(keys@[m]@ == file_key(kept@[m]@));
                    }
                }
            }
            if !seen {
                push_text(&mut kept, copy_string(p.as_str()));
                keys.push(key);
            }
        }
        i = i + 1;
    }
    assert(f.take(i as int) =~= f);
    kept
}

#[verifier::external_type_specification]
#[verifier::external_body]
pub struct ExDesktopParseError(ParseError);

/// The first value of `key` in the section `section` of a desktop entry file
/// whose contents are `content`, as freedesktop_entry_parser reads it:
/// `None` where the contents do not parse, `Some(None)` where the section or
/// the key is missing.
pub uninterp spec fn desktop_value(content: Seq<u8>, section: Seq<char>, key: Seq<char>) -> Option<Option<Seq<char>>>;

/// `Entry::parse` of freedesktop_entry_parser on the contents, then
/// `Entry::get` of the section and key, keeping the first value. The result,
/// a function of the three arguments, is named `desktop_value`.
#[verifier::external_body]
fn desktop_entry_value(content: &[u8], section: &str, key: &str) -> (res: Result<Option<String>, ParseError>)
    ensures
        match res {
            Ok(Some(v)) => desktop_value(content@, section@, key@) == Some(Some(v@)),
            Ok(None) => desktop_value(content@, section@, key@) == Some(None::<Seq<char>>),
            Err(_) => desktop_value(content@, section@, key@) is None,
        },
{
    match Entry::parse(content) {
        Ok(e) => Ok(e.get(section, key).and_then(|v| v.first()).cloned()),
        Err(e) => Err(e),
    }
}

/// An optional text in plain values.
pub open spec fn opt_text(o: Option<String>) -> Option<Seq<char>> {
    match o {
        Some(s) => Some(s@),
        None => None,
    }
}

/// An installed application in plain values.
pub struct AppView {
    pub name: Seq<char>,
    pub description: Option<Seq<char>>,
    pub command: Seq<char>,
    pub icon: Option<Seq<char>>,
    pub desktop_path: Seq<char>,
}

impl View for AppEntry {
    type V = AppView;

    open spec fn view(&self) -> AppView {
        AppView {
            name: self.name@,
            description: opt_text(self.description),
            command: self.command@,
            icon: opt_text(self.icon),
            desktop_path: self.desktop_path@,
        }
    }
}

/// A value of the `Desktop Entry` section.
pub open spec fn entry_value(content: Seq<u8>, key: Seq<char>) -> Option<Option<Seq<char>>> {
    desktop_value(content, "Desktop Entry"@, key)
}

/// The application a desktop entry file describes: none where the file does
/// not parse, is marked `NoDisplay=true` or `Hidden=true`, or lacks a name or
/// a command; the command loses its field codes.
pub open spec fn app_from_desktop(content: Seq<u8>, path: Seq<char>) -> Option<AppView> {
    match (
        entry_value(content, "NoDisplay"@),
        entry_value(content, "Hidden"@),
        entry_value(content, "Name"@),
        entry_value(content, "Exec"@),
        entry_value(content, "Comment"@),
        entry_value(content, "Icon"@),
    ) {
        (Some(nd), Some(h), Some(Some(name)), Some(Some(exec)), Some(comment), Some(icon)) => if nd
            == Some("true"@) || h == Some("true"@) {
            None
        } else {
            Some(
                AppView {
                    name,
                    description: comment,
                    command: trim(strip_field_codes(exec)),
                    icon,
                    desktop_path: path,
                },
            )
        },
        _ => None,
    }
}

fn is_true(v: &Option<String>) -> (res: bool)
    ensures
        res == (opt_text(*v) == Some("true"@)),
{
    proof {
        reveal_strlit("true");
    }
    match v {
        Some(t) => text_eq(t.as_str(), "true"),
        None => false,
    }
}

impl AppEntry {
    /// The application described by a desktop entry file, from its contents
    /// and path.
    pub fn from_desktop(content: &[u8], path: &str) -> (res: Option<AppEntry>)
        ensures
            match res {
                Some(a) => app_from_desktop(content@, path@) == Some(a@),
                None => app_from_desktop(content@, path@) is None,
            },
    {
        let section = "Desktop Entry";
        let no_display = match desktop_entry_value(content, section, "NoDisplay") {
            Ok(v) => v,
            Err(_) => {
                return None;
            },
        };
        if is_true(&no_display) {
            return None;
        }
        let hidden = match desktop_entry_value(content, section, "Hidden") {
            Ok(v) => v,
            Err(_) => {
                return None;
            },
        };
        if is_true(&hidden) {
            return None;
        }
        let name = match desktop_entry_value(content, section, "Name") {
            Ok(Some(v)) => v,
            _ => {
                return None;
            },
        };
        let exec_raw = match desktop_entry_value(content, section, "Exec") {
            Ok(Some(v)) => v,
            _ => {
                return None;
            },
        };
        let description = match desktop_entry_value(content, section, "Comment") {
            Ok(v) => v,
            Err(_) => {
                return None;
            },
        };
        let icon = match desktop_entry_value(content, section, "Icon") {
            Ok(v) => v,
            Err(_) => {
                return None;
            },
        };
        let command = clean_exec_command(exec_raw.as_str());
        Some(AppEntry { name, description, command, icon, desktop_path: copy_string(path) })
    }

    /// A copy of the entry.
    pub fn duplicate(&self) -> (res: AppEntry)
        ensures
            res@ == self@,
    {
        AppEntry {
            name: self.name.clone(),
            description: match &self.description {
                Some(d) => Some(d.clone()),
                None => None,
            },
            command: self.command.clone(),
            icon: match &self.icon {
                Some(i) => Some(i.clone()),
                None => None,
            },
            desktop_path: self.desktop_path.clone(),
        }
    }
}

/// The applications described by the desktop files, in order, leaving out
/// the files that describe none.
pub open spec fn parsed_apps(files: Seq<(String, Vec<u8>)>) -> Seq<AppView>
    decreases files.len(),
{
    if files.len() == 0 {
        Seq::empty()
    } else {
        let rest = parsed_apps(files.drop_last());
        match app_from_desktop(files.last().1@, files.last().0@) {
            Some(a) => rest.push(a),
            None => rest,
        }
    }
}

/// The lower-case names by which applications are sorted.
pub open spec fn sort_keys(apps: Seq<AppView>) -> Seq<Seq<char>> {
    apps.map_values(|a: AppView| lowercase(a.name))
}

/// The applications of the desktop files (each given by its path and
/// contents), sorted by lower-case name; equal names keep their order.
pub fn apps_from_files(files: &Vec<(String, Vec<u8>)>) -> (res: Vec<AppEntry>)
    ensures
        ({
            let parsed = parsed_apps(files@);
            exists|p: Seq<usize>|
                {
                    &&& arrangement(p, parsed.len() as int)
                    &&& res@.len() == parsed.len()
                    &&& forall|k: int| 0 <= k < res@.len() ==> (#[trigger] res@[k])@ == parsed[p[k] as int]
                    &&& forall|k: int, l: int|
                        0 <= k < l < p.len() ==> text_before(sort_keys(parsed), #[trigger] p[k] as int, #[trigger] p[l] as int)
                }
        }),
{
    let mut parsed: Vec<AppEntry> = Vec::new();
    let mut i: usize = 0;
    assert(files@.take(0) =~= Seq::<(String, Vec<u8>)>::empty());
    while i < files.len()
        invariant
            i <= files.len(),
            parsed@.map_values(|a: AppEntry| a@) == parsed_apps(files@.take(i as int)),
        decreases files.len() - i,
    {
        assert(files@.take(i + 1).drop_last() =~= files@.take(i as int));
        assert(files@.take(i + 1).last() == files@[i as int]);
        let (path, content) = &files[i];
        let ghost before = parsed@;
        match AppEntry::from_desktop(content.as_slice(), path.as_str()) {
            Some(a) => {
                parsed.push(a);
                assert(parsed@.map_values(|a: AppEntry| a@) =~= before.map_values(|a: AppEntry| a@).push(a@));
            },
            None => {},
        }
        i = i + 1;
    }
    assert(files@.take(i as int) =~= files@);
    let ghost pv = parsed@.map_values(|a: AppEntry| a@);
    let mut keys: Vec<Vec<char>> = Vec::new();
    let mut m: usize = 0;
    while m < parsed.len()
        invariant
            m <= parsed.len(),
            pv == parsed@.map_values(|a: AppEntry| a@),
            keys.len() == m,
            forall|k: int| 0 <= k < m ==> (#[trigger] keys@[k])@ == lowercase(pv[k].name),
        decreases parsed.len() - m,
    {
        let low = to_lowercase(parsed[m].name.as_str());
        keys.push(chars_of(low.as_str()));
        m = m + 1;
    }
    assert(keys@.map_values(|v: Vec<char>| v@) =~= sort_keys(pv));
    let order = stable_text_order(&keys);
    let mut res: Vec<AppEntry> = Vec::new();
    let mut k: usize = 0;
    while k < order.len()
        invariant
            k <= order.len(),
            order.len() == parsed.len(),
            pv == parsed@.map_values(|a: AppEntry| a@),
            forall|j: int| 0 <= j < order.len() ==> #[trigger] order@[j] < parsed.len(),
            res.len() == k,
            forall|j: int| 0 <= j < k ==> (#[trigger] res@[j])@ == pv[order@[j] as int],
        decreases order.len() - k,
    {
        res.push(parsed[order[k]].duplicate());
        k = k + 1;
    }
    res
}

/// Text without `%` is copied as it is, whatever follows it.
proof fn lemma_strip_plain_prefix(before: Seq<char>, rest: Seq<char>)
    requires
        !before.contains('%'),
    ensures
        strip_field_codes(before + rest) == before + strip_field_codes(rest),
    decreases before.len(),
{
    if before.len() > 0 {
        let s = before + rest;
        assert(s[0] == before[0]);
        assert(s.drop_first() =~= before.drop_first() + rest);
        assert(!before.drop_first().contains('%')) by {
            if before.drop_first().contains('%') {
                let i = choose|i: int| 0 <= i < before.drop_first().len() && before.drop_first()[i] == '%';
                assert(before[i + 1] == '%');
            }
        }
        assert(before[0] != '%') by {
            if before[0] == '%' {
                assert(before.contains('%'));
            }
        }
        lemma_strip_plain_prefix(before.drop_first(), rest);
        assert(before =~= seq![before[0]] + before.drop_first());
    } else {
        assert(before + rest =~= rest);
    }
}

/// Each field code of the desktop entry specification (`%f %F %u %U %d %D
/// %n %N %i %c %k %v %m`) is removed from an Exec line with nothing left in
/// its place, the text before it (up to its first `%`) and the rest read as
/// before: `eog %U` becomes `eog`.
pub proof fn law_field_codes_removed(before: Seq<char>, c: char, after: Seq<char>)
    requires
        c == 'f' || c == 'F' || c == 'u' || c == 'U' || c == 'd' || c == 'D' || c == 'n' || c == 'N'
            || c == 'i' || c == 'c' || c == 'k' || c == 'v' || c == 'm',
        !before.contains('%'),
    ensures
        strip_field_codes(before + seq!['%', c] + after) == before + strip_field_codes(after),
{
    let r = seq!['%', c] + after;
    assert(before + seq!['%', c] + after =~= before + r);
    lemma_strip_plain_prefix(before, r);
    assert(r.skip(2) =~= after);
}

/// `%%` in an Exec line stands for one `%`.
pub proof fn law_double_percent(before: Seq<char>, after: Seq<char>)
    requires
        !before.contains('%'),
    ensures
        strip_field_codes(before + seq!['%', '%'] + after) == before + seq!['%'] + strip_field_codes(after),
{
    let r = seq!['%', '%'] + after;
    assert(before + seq!['%', '%'] + after =~= before + r);
    lemma_strip_plain_prefix(before, r);
    assert(r.skip(2) =~= after);
    assert(before + (seq!['%'] + strip_field_codes(after)) =~= before + seq!['%'] + strip_field_codes(after));
}

/// An Exec line without `%` is only trimmed.
pub proof fn law_plain_exec_line(exec: Seq<char>)
    requires
        !exec.contains('%'),
    ensures
        strip_field_codes(exec) == exec,
{
    lemma_strip_plain_prefix(exec, Seq::empty());
    assert(exec + Seq::<char>::empty() =~= exec);
}

} // verus!
