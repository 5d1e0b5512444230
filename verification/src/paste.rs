//! Pasting files into a folder: finding name conflicts, the conflict dialog's
//! way out of them, and what is reported and recorded afterwards.
use vstd::prelude::*;
use crate::clipboard::ClipboardOperation;
use crate::operations::OperationResult;
use crate::path::{file_name, file_name_of, join, join_path, parent_of, path_eq, path_exists, same_path, std_parent};
use crate::text::{copy_string, decimal, push_decimal, push_str, text_views};
use crate::undo::FileOperation;

verus! {

/// A paste held back by name conflicts, waiting for the user's choice.
#[derive(Debug)]
pub struct PendingPaste {
    /// All files of the paste.
    pub files: Vec<String>,
    /// Copy or move.
    pub operation: ClipboardOperation,
    /// The folder pasted into.
    pub dest_dir: String,
    /// The files whose name is taken in the folder.
    pub conflicts: Vec<String>,
}

/// The path is, as a path, one of the list.
pub open spec fn among(p: Seq<char>, list: Seq<Seq<char>>) -> bool {
    exists|k: int| 0 <= k < list.len() && same_path(p, #[trigger] list[k])
}

/// The files that are not among the conflicts, in order.
pub open spec fn outside(files: Seq<Seq<char>>, conflicts: Seq<Seq<char>>) -> Seq<Seq<char>>
    decreases files.len(),
{
    if files.len() == 0 {
        Seq::empty()
    } else {
        let rest = outside(files.drop_last(), conflicts);
        if among(files.last(), conflicts) {
            rest
        } else {
            rest.push(files.last())
        }
    }
}

/// The files that are among the conflicts, in order.
pub open spec fn inside(files: Seq<Seq<char>>, conflicts: Seq<Seq<char>>) -> Seq<Seq<char>>
    decreases files.len(),
{
    if files.len() == 0 {
        Seq::empty()
    } else {
        let rest = inside(files.drop_last(), conflicts);
        if among(files.last(), conflicts) {
            rest.push(files.last())
        } else {
            rest
        }
    }
}

fn is_among(p: &str, list: &Vec<String>) -> (res: bool)
    ensures
        res == among(p@, text_views(list@)),
{
    let ghost l = text_views(list@);
    let mut k: usize = 0;
    while k < list.len()
        invariant
            k <= list.len(),
            l == text_views(list@),
            forall|m: int| 0 <= m < k ==> !same_path(p@, #[trigger] l[m]),
        decreases list.len() - k,
    {
        if path_eq(p, list[k].as_str()) {
            assert(same_path(p@, l[k as int]));
            return true;
        }
        k = k + 1;
    }
    false
}

fn push_copy(v: &mut Vec<String>, s: &str)
    ensures
        text_views(final(v)@) == text_views(old(v)@).push(s@),
{
    let ghost before = v@;
    v.push(copy_string(s));
    assert(text_views(v@) =~= text_views(before).push(s@));
}

/// Keeps the files that are (`keep_inside`) or are not among the conflicts.
fn sift(files: &Vec<String>, conflicts: &Vec<String>, keep_inside: bool) -> (res: Vec<String>)
    ensures
        keep_inside ==> text_views(res@) == inside(text_views(files@), text_views(conflicts@)),
        !keep_inside ==> text_views(res@) == outside(text_views(files@), text_views(conflicts@)),
{
    let ghost f = text_views(files@);
    let ghost c = text_views(conflicts@);
    let mut res: Vec<String> = Vec::new();
    let mut i: usize = 0;
    assert(f.take(0) =~= Seq::<Seq<char>>::empty());
    assert(text_views(res@) =~= Seq::empty());
    while i < files.len()
        invariant
            i <= files.len(),
            f == text_views(files@),
            c == text_views(conflicts@),
            keep_inside ==> text_views(res@) == inside(f.take(i as int), c),
            !keep_inside ==> text_views(res@) == outside(f.take(i as int), c),
        decreases files.len() - i,
    {
        assert(f.take(i + 1).drop_last() =~= f.take(i as int));
        assert(f.take(i + 1).last() == files@[i as int]@);
        let hit = is_among(files[i].as_str(), conflicts);
        if hit == keep_inside {
            push_copy(&mut res, files[i].as_str());
        }
        i = i + 1;
    }
    assert(f.take(i as int) =~= f);
    res
}

/// The files of the paste that are no conflict: they are pasted first.
pub fn non_conflicting(files: &Vec<String>, conflicts: &Vec<String>) -> (res: Vec<String>)
    ensures
        text_views(res@) == outside(text_views(files@), text_views(conflicts@)),
{
    sift(files, conflicts, false)
}

/// What is left to settle after the first conflict was pasted under a new
/// name, when the choice was not applied to all: the other conflicts, and the
/// files among them. Nothing is left where there was only one conflict.
pub fn remaining_paste(pending: &PendingPaste) -> (res: Option<PendingPaste>)
    ensures
        pending.conflicts@.len() <= 1 ==> res is None,
        pending.conflicts@.len() > 1 ==> (res matches Some(p) && {
            &&& text_views(p.conflicts@) == text_views(pending.conflicts@).drop_first()
            &&& text_views(p.files@) == inside(text_views(pending.files@), text_views(pending.conflicts@).drop_first())
            &&& p.operation == pending.operation
            &&& p.dest_dir@ == pending.dest_dir@
        }),
{
    if pending.conflicts.len() <= 1 {
        return None;
    }
    let mut rest: Vec<String> = Vec::new();
    let mut i: usize = 1;
    assert(text_views(rest@) =~= text_views(pending.conflicts@).subrange(1, 1));
    while i < pending.conflicts.len()
        invariant
            1 <= i <= pending.conflicts.len(),
            text_views(rest@) == text_views(pending.conflicts@).subrange(1, i as int),
        decreases pending.conflicts.len() - i,
    {
        push_copy(&mut rest, pending.conflicts[i].as_str());
        assert(text_views(pending.conflicts@).subrange(1, i + 1) =~= text_views(pending.conflicts@).subrange(1, i as int).push(pending.conflicts@[i as int]@));
        i = i + 1;
    }
    assert(text_views(pending.conflicts@).subrange(1, i as int) =~= text_views(pending.conflicts@).drop_first());
    let files = sift(&pending.files, &rest, true);
    Some(PendingPaste {
        files,
        operation: pending.operation,
        dest_dir: copy_string(pending.dest_dir.as_str()),
        conflicts: rest,
    })
}

/// The files whose name is taken in the folder, given for each file whether
/// something exists at the folder joined with its name: files without a name
/// never conflict.
pub open spec fn taken(files: Seq<Seq<char>>, present: Seq<bool>) -> Seq<Seq<char>>
    decreases files.len(),
{
    if files.len() == 0 {
        Seq::empty()
    } else {
        let n = files.len() - 1;
        let rest = taken(files.take(n), present);
        if file_name(files[n]) is Some && n < present.len() && present[n] {
            rest.push(files[n])
        } else {
            rest
        }
    }
}

/// The files of a paste whose name is taken in the destination folder. Which
/// names are taken depends on the file system.
pub fn find_conflicts(files: &Vec<String>, dest_dir: &str) -> (res: Vec<String>)
    ensures
        exists|present: Seq<bool>| text_views(res@) == #[trigger] taken(text_views(files@), present),
{
    let ghost f = text_views(files@);
    let ghost mut present: Seq<bool> = Seq::empty();
    let mut res: Vec<String> = Vec::new();
    let mut i: usize = 0;
    assert(f.take(0) =~= Seq::<Seq<char>>::empty());
    assert(text_views(res@) =~= Seq::empty());
    while i < files.len()
        invariant
            i <= files.len(),
            f == text_views(files@),
            present.len() == i,
            text_views(res@) == taken(f.take(i as int), present),
        decreases files.len() - i,
    {
        let ghost before = present;
        let hit = match file_name_of(files[i].as_str()) {
            Some(name) => path_exists(join_path(dest_dir, name.as_str()).as_str()),
            None => false,
        };
        proof {
            present = present.push(hit);
            assert(f.take(i + 1).take(i as int) =~= f.take(i as int));
            assert forall|g: Seq<Seq<char>>| g.len() <= i implies taken(g, present) == taken(g, before) by {
                lemma_taken_prefix_flags(g, before, present);
            }
        }
        if hit {
            push_copy(&mut res, files[i].as_str());
        }
        i = i + 1;
    }
    assert(f.take(i as int) =~= f);
    res
}

proof fn lemma_taken_prefix_flags(g: Seq<Seq<char>>, a: Seq<bool>, b: Seq<bool>)
    requires
        g.len() <= a.len(),
        a.len() <= b.len(),
        forall|k: int| 0 <= k < a.len() ==> a[k] == b[k],
    ensures
        taken(g, a) == taken(g, b),
    decreases g.len(),
{
    if g.len() > 0 {
        lemma_taken_prefix_flags(g.take(g.len() - 1), a, b);
    }
}

/// The past tense of the operation: "copied" or "moved".
pub open spec fn action_word(op: ClipboardOperation) -> Seq<char> {
    match op {
        ClipboardOperation::Copy => "copied"@,
        ClipboardOperation::Cut => "moved"@,
    }
}

fn push_action(s: &mut String, op: ClipboardOperation)
    ensures
        final(s)@ == old(s)@ + action_word(op),
{
    match op {
        ClipboardOperation::Copy => push_str(s, "copied"),
        ClipboardOperation::Cut => push_str(s, "moved"),
    }
}

/// "1 item copied" or "N items copied" (or moved).
pub open spec fn done_text(count: nat, op: ClipboardOperation) -> Seq<char> {
    if count == 1 {
        "1 item "@ + action_word(op)
    } else {
        decimal(count) + " items "@ + action_word(op)
    }
}

/// The status message after pasting `count` items.
pub fn done_message(count: usize, op: ClipboardOperation) -> (res: String)
    ensures
        res@ == done_text(count as nat, op),
{
    let mut s = String::new();
    if count == 1 {
        push_str(&mut s, "1 item ");
    } else {
        push_decimal(&mut s, count as u64);
        push_str(&mut s, " items ");
    }
    push_action(&mut s, op);
    proof {
        reveal_strlit("1 item ");
        reveal_strlit(" items ");
    }
    s
}

/// `prefix` followed by the error, or by "unknown error" where there is none.
pub open spec fn failed_text(prefix: Seq<char>, error: Option<String>) -> Seq<char> {
    prefix + match error {
        Some(e) => e@,
        None => "unknown error"@,
    }
}

/// The status message when a paste failed: "Operation failed: <error>".
pub fn paste_failed_message(error: &Option<String>) -> (res: String)
    ensures
        res@ == failed_text("Operation failed: "@, *error),
{
    let mut s = copy_string("Operation failed: ");
    match error {
        Some(e) => push_str(&mut s, e.as_str()),
        None => push_str(&mut s, "unknown error"),
    }
    s
}

/// The status message when a move by dragging failed: "Move failed: <error>".
pub fn move_failed_message(error: &Option<String>) -> (res: String)
    ensures
        res@ == failed_text("Move failed: "@, *error),
{
    let mut s = copy_string("Move failed: ");
    match error {
        Some(e) => push_str(&mut s, e.as_str()),
        None => push_str(&mut s, "unknown error"),
    }
    s
}

/// "N copied (skipped K)" or "N copied (replaced K)" (or moved).
pub open spec fn settled_text(n: nat, op: ClipboardOperation, how: Seq<char>, k: nat) -> Seq<char> {
    decimal(n) + " "@ + action_word(op) + " ("@ + how + " "@ + decimal(k) + ")"@
}

/// The status message after a paste that skipped (`replaced` false) or
/// replaced the conflicting files.
pub fn settled_message(n: usize, op: ClipboardOperation, replaced: bool, k: usize) -> (res: String)
    ensures
        res@ == settled_text(n as nat, op, if replaced { "replaced"@ } else { "skipped"@ }, k as nat),
{
    let mut s = String::new();
    push_decimal(&mut s, n as u64);
    push_str(&mut s, " ");
    push_action(&mut s, op);
    push_str(&mut s, " (");
    if replaced {
        push_str(&mut s, "replaced");
    } else {
        push_str(&mut s, "skipped");
    }
    push_str(&mut s, " ");
    push_decimal(&mut s, k as u64);
    push_str(&mut s, ")");
    s
}

/// The status message where a pasted file got a new name that the rename
/// editor could not be opened on: "Pasted as '<name>' - press F2 to rename".
pub fn pasted_as_message(name: &str) -> (res: String)
    ensures
        res@ == "Pasted as '"@ + name@ + "' - press F2 to rename"@,
{
    let mut s = copy_string("Pasted as '");
    push_str(&mut s, name);
    push_str(&mut s, "' - press F2 to rename");
    s
}

/// The record of a paste for undo: a copy or a move of the sources to the
/// destinations.
pub open spec fn paste_record_spec(op: ClipboardOperation, sources: Seq<Seq<char>>, destinations: Seq<Seq<char>>, r: FileOperation) -> bool {
    match (op, r) {
        (ClipboardOperation::Copy, FileOperation::Copy { sources: s, destinations: d }) => text_views(s@) == sources && text_views(d@) == destinations,
        (ClipboardOperation::Cut, FileOperation::Move { sources: s, destinations: d }) => text_views(s@) == sources && text_views(d@) == destinations,
        _ => false,
    }
}

/// The record of a paste for undo.
pub fn paste_record(op: ClipboardOperation, sources: Vec<String>, destinations: Vec<String>) -> (res: FileOperation)
    ensures
        paste_record_spec(op, text_views(sources@), text_views(destinations@), res),
{
    match op {
        ClipboardOperation::Copy => FileOperation::Copy { sources, destinations },
        ClipboardOperation::Cut => FileOperation::Move { sources, destinations },
    }
}

/// After pasting `count` files (`sources`) with the given result: the status
/// message and the record for undo. A success that processed files reports
/// the count and is recorded; a failure reports its error; a success that
/// processed nothing reports nothing.
pub fn paste_outcome(op: ClipboardOperation, sources: Vec<String>, result: &OperationResult, dragged: bool) -> (res: (Option<String>, Option<FileOperation>))
    ensures
        result.success && result.processed@.len() > 0 ==> (res.0 matches Some(m) && m@ == done_text(sources@.len() as nat, op))
            && (res.1 matches Some(r) && paste_record_spec(op, text_views(sources@), text_views(result.processed@), r)),
        !result.success ==> (res.0 matches Some(m) && m@ == failed_text(
            if dragged { "Move failed: "@ } else { "Operation failed: "@ },
            result.error,
        )) && res.1 is None,
        result.success && result.processed@.len() == 0 ==> res.0 is None && res.1 is None,
{
    if result.success && result.processed.len() > 0 {
        let msg = done_message(sources.len(), op);
        let mut dest: Vec<String> = Vec::new();
        let mut i: usize = 0;
        assert(text_views(dest@) =~= text_views(result.processed@).take(0));
        while i < result.processed.len()
            invariant
                i <= result.processed.len(),
                text_views(dest@) == text_views(result.processed@).take(i as int),
            decreases result.processed.len() - i,
        {
            push_copy(&mut dest, result.processed[i].as_str());
            assert(text_views(result.processed@).take(i + 1) =~= text_views(result.processed@).take(i as int).push(result.processed@[i as int]@));
            i = i + 1;
        }
        assert(text_views(result.processed@).take(i as int) =~= text_views(result.processed@));
        (Some(msg), Some(paste_record(op, sources, dest)))
    } else if !result.success {
        let msg = if dragged {
            move_failed_message(&result.error)
        } else {
            paste_failed_message(&result.error)
        };
        (Some(msg), None)
    } else {
        (None, None)
    }
}

/// The files of a drop that are not already in the folder dropped on: those
/// whose parent is not, as a path, the folder.
pub open spec fn movable(files: Seq<Seq<char>>, dest: Seq<char>) -> Seq<Seq<char>>
    decreases files.len(),
{
    if files.len() == 0 {
        Seq::empty()
    } else {
        let rest = movable(files.drop_last(), dest);
        match std_parent(files.last()) {
            Some(p) => if same_path(p, dest) {
                rest
            } else {
                rest.push(files.last())
            },
            None => rest.push(files.last()),
        }
    }
}

/// The files of a drop that need moving: dropping files into the folder
/// they are in moves nothing.
pub fn movable_files(files: &Vec<String>, dest_dir: &str) -> (res: Vec<String>)
    ensures
        text_views(res@) == movable(text_views(files@), dest_dir@),
{
    let ghost f = text_views(files@);
    let mut res: Vec<String> = Vec::new();
    let mut i: usize = 0;
    assert(f.take(0) =~= Seq::<Seq<char>>::empty());
    assert(text_views(res@) =~= Seq::empty());
    while i < files.len()
        invariant
            i <= files.len(),
            f == text_views(files@),
            text_views(res@) == movable(f.take(i as int), dest_dir@),
        decreases files.len() - i,
    {
        assert(f.take(i + 1).drop_last() =~= f.take(i as int));
        assert(f.take(i + 1).last() == files@[i as int]@);
        let keep = match parent_of(files[i].as_str()) {
            Some(p) => !path_eq(p.as_str(), dest_dir),
            None => true,
        };
        if keep {
            push_copy(&mut res, files[i].as_str());
        }
        i = i + 1;
    }
    assert(f.take(i as int) =~= f);
    res
}

/// How a paste goes on: held back by conflicts (the pending paste and the
/// name shown in the conflict dialog), or free to go.
#[derive(Debug)]
pub enum PastePlan {
    /// Some names are taken: ask the user.
    Conflicts(PendingPaste, String),
    /// No name is taken.
    Proceed,
}

/// Decides whether a paste of `files` into `dest_dir` must ask about name
/// conflicts: where some names are taken, the paste waits with all its files
/// and the conflicting ones, and the dialog names the first conflict.
pub fn plan_paste(files: Vec<String>, operation: ClipboardOperation, dest_dir: &str) -> (res: PastePlan)
    ensures
        exists|present: Seq<bool>| {
            let c = #[trigger] taken(text_views(files@), present);
            &&& c.len() == 0 ==> res is Proceed
            &&& c.len() > 0 ==> (res matches PastePlan::Conflicts(p, name) && {
                &&& p.files == files
                &&& p.operation == operation
                &&& p.dest_dir@ == dest_dir@
                &&& text_views(p.conflicts@) == c
                &&& name@ == match file_name(c[0]) {
                    Some(n) => n,
                    None => Seq::empty(),
                }
            })
        },
{
    let conflicts = find_conflicts(&files, dest_dir);
    if conflicts.len() == 0 {
        return PastePlan::Proceed;
    }
    let name = match file_name_of(conflicts[0].as_str()) {
        Some(n) => n,
        None => String::new(),
    };
    PastePlan::Conflicts(
        PendingPaste { files, operation, dest_dir: copy_string(dest_dir), conflicts },
        name,
    )
}

} // verus!
