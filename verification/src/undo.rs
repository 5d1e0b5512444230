//! Undo/redo stacks for file operations.
use vstd::prelude::*;
use crate::path::{file_name, file_name_of, parent_of, std_parent};
use crate::text::{decimal, decimal_string, push_char, push_str};

verus! {

/// Maximum number of operations to keep in history.
pub const MAX_HISTORY: usize = 100;

/// A file operation that can be undone.
#[derive(Debug, Clone)]
pub enum FileOperation {
    /// Copy files (sources, created destinations).
    Copy { sources: Vec<String>, destinations: Vec<String> },
    /// Move files (sources, destinations).
    Move { sources: Vec<String>, destinations: Vec<String> },
    /// Trash files (original paths, trash entry names).
    Trash { originals: Vec<String>, trash_names: Vec<String> },
    /// Rename file (original path, new path).
    Rename { original: String, renamed: String },
    /// Create directory (path).
    CreateDir { path: String },
}

/// The file name of a path, or the empty text when it has none.
pub open spec fn name_or_empty(p: Seq<char>) -> Seq<char> {
    match file_name(p) {
        Some(n) => n,
        None => Seq::empty(),
    }
}

/// "Verb 'name'" for one path, "Verb N items" for several.
pub open spec fn verb_description(verb: Seq<char>, paths: Seq<String>) -> Seq<char> {
    if paths.len() == 1 {
        verb + " '"@ + name_or_empty(paths[0]@) + "'"@
    } else {
        verb + " "@ + decimal(paths.len()) + " items"@
    }
}

/// The human-readable description of an operation.
pub open spec fn description_spec(op: FileOperation) -> Seq<char> {
    match op {
        FileOperation::Copy { sources, .. } => verb_description("Copy"@, sources@),
        FileOperation::Move { sources, .. } => verb_description("Move"@, sources@),
        FileOperation::Trash { originals, .. } => verb_description("Trash"@, originals@),
        FileOperation::Rename { original, renamed } => "Rename '"@ + name_or_empty(original@)
            + "' to '"@ + name_or_empty(renamed@) + "'"@,
        FileOperation::CreateDir { path } => "Create folder '"@ + name_or_empty(path@) + "'"@,
    }
}

/// Appends the file name of `p` (or nothing when it has none).
fn push_name(s: &mut String, p: &str)
    ensures
        final(s)@ == old(s)@ + name_or_empty(p@),
{
    match file_name_of(p) {
        Some(n) => push_str(s, n.as_str()),
        None => {
            assert(old(s)@ + Seq::<char>::empty() =~= old(s)@);
        },
    }
}

fn verb_description_exec(verb: &str, paths: &Vec<String>) -> (res: String)
    ensures
        res@ == verb_description(verb@, paths@),
{
    let mut s = String::new();
    push_str(&mut s, verb);
    if paths.len() == 1 {
        push_str(&mut s, " '");
        push_name(&mut s, paths[0].as_str());
        push_char(&mut s, '\'');
    } else {
        push_char(&mut s, ' ');
        let n = decimal_string(paths.len() as u64);
        push_str(&mut s, n.as_str());
        push_str(&mut s, " items");
    }
    proof {
        reveal_strlit(" '");
        reveal_strlit("'");
        reveal_strlit(" ");
    }
    assert(s@ =~= verb_description(verb@, paths@));
    s
}

impl FileOperation {
    /// Get a human-readable description of this operation.
    pub fn description(&self) -> (res: String)
        ensures
            res@ == description_spec(*self),
    {
        match self {
            FileOperation::Copy { sources, .. } => verb_description_exec("Copy", sources),
            FileOperation::Move { sources, .. } => verb_description_exec("Move", sources),
            FileOperation::Trash { originals, .. } => verb_description_exec("Trash", originals),
            FileOperation::Rename { original, renamed } => {
                let mut s = String::new();
                push_str(&mut s, "Rename '");
                push_name(&mut s, original.as_str());
                push_str(&mut s, "' to '");
                push_name(&mut s, renamed.as_str());
                push_char(&mut s, '\'');
                proof {
                    reveal_strlit("'");
                }
                assert(s@ =~= description_spec(*self));
                s
            },
            FileOperation::CreateDir { path } => {
                let mut s = String::new();
                push_str(&mut s, "Create folder '");
                push_name(&mut s, path.as_str());
                push_char(&mut s, '\'');
                proof {
                    reveal_strlit("'");
                }
                assert(s@ =~= description_spec(*self));
                s
            },
        }
    }
}

/// Abstract state of the undo/redo stacks (most recent last).
pub struct UndoState {
    /// Operations that can be undone.
    pub undo: Seq<FileOperation>,
    /// Operations that can be redone.
    pub redo: Seq<FileOperation>,
}

/// Recording a new operation: it goes on top of the undo stack (the oldest
/// is dropped past the limit) and the redo stack is emptied.
pub open spec fn push_spec(s: UndoState, op: FileOperation) -> UndoState {
    let u = s.undo.push(op);
    UndoState { undo: if u.len() > MAX_HISTORY { u.drop_first() } else { u }, redo: Seq::empty() }
}

/// Taking the most recent operation off the undo stack.
pub open spec fn pop_undo_spec(s: UndoState) -> (Option<FileOperation>, UndoState) {
    if s.undo.len() == 0 {
        (None, s)
    } else {
        (Some(s.undo.last()), UndoState { undo: s.undo.drop_last(), redo: s.redo })
    }
}

/// Putting an undone operation on the redo stack.
pub open spec fn push_redo_spec(s: UndoState, op: FileOperation) -> UndoState {
    UndoState { undo: s.undo, redo: s.redo.push(op) }
}

/// Taking the most recent operation off the redo stack.
pub open spec fn pop_redo_spec(s: UndoState) -> (Option<FileOperation>, UndoState) {
    if s.redo.len() == 0 {
        (None, s)
    } else {
        (Some(s.redo.last()), UndoState { undo: s.undo, redo: s.redo.drop_last() })
    }
}

/// Manages undo/redo stacks for file operations.
#[derive(Debug)]
pub struct UndoStack {
    /// Operations that can be undone (most recent last).
    undo_stack: Vec<FileOperation>,
    /// Operations that can be redone (most recent last).
    redo_stack: Vec<FileOperation>,
}

impl UndoStack {
    /// The abstract state.
    pub closed spec fn state(&self) -> UndoState {
        UndoState { undo: self.undo_stack@, redo: self.redo_stack@ }
    }

    /// Create a new undo stack.
    pub fn new() -> (res: Self)
        ensures
            res.state() == (UndoState { undo: Seq::empty(), redo: Seq::empty() }),
    {
        UndoStack { undo_stack: Vec::new(), redo_stack: Vec::new() }
    }

    /// Push an operation onto the undo stack.
    /// Clears the redo stack since the history has diverged.
    pub fn push(&mut self, op: FileOperation)
        ensures
            final(self).state() == push_spec(old(self).state(), op),
    {
        self.undo_stack.push(op);
        self.redo_stack.clear();
        if self.undo_stack.len() > MAX_HISTORY {
            self.undo_stack.remove(0);
        }
        assert(self.undo_stack@ =~= push_spec(old(self).state(), op).undo);
    }

    /// Check if undo is available.
    pub fn can_undo(&self) -> (res: bool)
        ensures
            res == (self.state().undo.len() > 0),
    {
        !self.undo_stack.is_empty()
    }

    /// Check if redo is available.
    pub fn can_redo(&self) -> (res: bool)
        ensures
            res == (self.state().redo.len() > 0),
    {
        !self.redo_stack.is_empty()
    }

    /// Pop an operation from the undo stack for undoing.
    /// The operation should be performed, then moved to redo.
    pub fn pop_undo(&mut self) -> (res: Option<FileOperation>)
        ensures
            (res, final(self).state()) == pop_undo_spec(old(self).state()),
    {
        self.undo_stack.pop()
    }

    /// Push an operation onto the redo stack (after undoing).
    pub fn push_redo(&mut self, op: FileOperation)
        ensures
            final(self).state() == push_redo_spec(old(self).state(), op),
    {
        self.redo_stack.push(op);
    }

    /// Pop an operation from the redo stack for redoing.
    pub fn pop_redo(&mut self) -> (res: Option<FileOperation>)
        ensures
            (res, final(self).state()) == pop_redo_spec(old(self).state()),
    {
        self.redo_stack.pop()
    }

    /// Get description of the next undo operation.
    pub fn undo_description(&self) -> (res: Option<String>)
        ensures
            res matches Some(d) ==> self.state().undo.len() > 0 && d@ == description_spec(
                self.state().undo.last(),
            ),
            res is None ==> self.state().undo.len() == 0,
    {
        let n = self.undo_stack.len();
        if n == 0 {
            None
        } else {
            Some(self.undo_stack[n - 1].description())
        }
    }

    /// Get description of the next redo operation.
    pub fn redo_description(&self) -> (res: Option<String>)
        ensures
            res matches Some(d) ==> self.state().redo.len() > 0 && d@ == description_spec(
                self.state().redo.last(),
            ),
            res is None ==> self.state().redo.len() == 0,
    {
        let n = self.redo_stack.len();
        if n == 0 {
            None
        } else {
            Some(self.redo_stack[n - 1].description())
        }
    }

    /// Clear all history.
    pub fn clear(&mut self)
        ensures
            final(self).state() == (UndoState { undo: Seq::empty(), redo: Seq::empty() }),
    {
        self.undo_stack.clear();
        self.redo_stack.clear();
    }
}

/// The operation just recorded is the one undo hands back, and recording
/// leaves nothing to redo.
pub proof fn law_push_then_undo(s: UndoState, op: FileOperation)
    ensures
        pop_undo_spec(push_spec(s, op)).0 == Some(op),
        push_spec(s, op).redo.len() == 0,
{
}

/// An operation moved to the redo stack after undoing is the one redo hands
/// back, and redoing leaves the undo stack as it was.
pub proof fn law_undo_then_redo(s: UndoState)
    requires
        s.undo.len() > 0,
    ensures
        ({
            let (op, s1) = pop_undo_spec(s);
            let s2 = push_redo_spec(s1, op->0);
            &&& pop_redo_spec(s2).0 == Some(s.undo.last())
            &&& pop_redo_spec(s2).1 == s1
        }),
{
    let (op, s1) = pop_undo_spec(s);
    let s2 = push_redo_spec(s1, op->0);
    assert(pop_redo_spec(s2).1.redo =~= s1.redo);
}

/// The undo stack never holds more than `MAX_HISTORY` operations once it
/// has been filled by `push`.
pub proof fn law_undo_bounded(s: UndoState, op: FileOperation)
    requires
        s.undo.len() <= MAX_HISTORY,
    ensures
        push_spec(s, op).undo.len() <= MAX_HISTORY,
{
}

/// The state after recording each of `ops` in turn.
pub open spec fn pushes(s: UndoState, ops: Seq<FileOperation>) -> UndoState
    decreases ops.len(),
{
    if ops.len() == 0 {
        s
    } else {
        push_spec(pushes(s, ops.drop_last()), ops.last())
    }
}

/// The newest `MAX_HISTORY` operations of `q` (all of them where there are
/// no more).
pub open spec fn newest(q: Seq<FileOperation>) -> Seq<FileOperation> {
    if q.len() > MAX_HISTORY {
        q.skip(q.len() - MAX_HISTORY)
    } else {
        q
    }
}

/// However many operations are recorded, the undo stack keeps the newest
/// `MAX_HISTORY` of them, in order, the oldest dropped first: after 101
/// operations on an empty history, undo hands back the last 100, newest
/// first.
pub proof fn law_pushes_keep_newest(s: UndoState, ops: Seq<FileOperation>)
    requires
        s.undo.len() <= MAX_HISTORY,
    ensures
        pushes(s, ops).undo == newest(s.undo + ops),
    decreases ops.len(),
{
    if ops.len() > 0 {
        let init = ops.drop_last();
        law_pushes_keep_newest(s, init);
        let q = s.undo + init;
        let q2 = s.undo + ops;
        assert(q2 =~= q.push(ops.last()));
        let u = newest(q).push(ops.last());
        if q.len() > MAX_HISTORY {
            assert(u.drop_first() =~= q2.skip(q2.len() - MAX_HISTORY));
        } else if u.len() > MAX_HISTORY {
            assert(u.drop_first() =~= q2.skip(q2.len() - MAX_HISTORY));
        } else {
            assert(u =~= q2);
        }
    }
}

// -- undoing and redoing on disk ---------------------------------------------------

/// One step of undoing or redoing an operation on disk. Steps are taken in
/// order, and the first that fails stops the rest (trashing excepted).
#[derive(Debug, Clone, PartialEq, Eq)]
pub enum FileStep {
    /// Delete `path`, where something is there.
    DeleteIfExists(String),
    /// Move `path` into the directory `dir`, where something is there.
    MoveIfExists { path: String, dir: String },
    /// Copy `path` into the directory `dir`, where something is there.
    CopyIfExists { path: String, dir: String },
    /// Restore the trash entry named so.
    Restore(String),
    /// Rename `path` to `name`, where something is there.
    RenameIfExists { path: String, name: String },
    /// Remove the directory `path` (it must be empty), where it is a
    /// directory.
    RemoveDirIfDir(String),
    /// Move `path` to the trash; a failure does not stop the other steps.
    Trash(String),
    /// Create the directory `path`.
    CreateDir(String),
}

/// A step as a kind (in the order of the variants) and its texts.
pub open spec fn step_text(s: FileStep) -> (u8, Seq<char>, Seq<char>) {
    match s {
        FileStep::DeleteIfExists(p) => (0u8, p@, Seq::empty()),
        FileStep::MoveIfExists { path, dir } => (1u8, path@, dir@),
        FileStep::CopyIfExists { path, dir } => (2u8, path@, dir@),
        FileStep::Restore(n) => (3u8, n@, Seq::empty()),
        FileStep::RenameIfExists { path, name } => (4u8, path@, name@),
        FileStep::RemoveDirIfDir(p) => (5u8, p@, Seq::empty()),
        FileStep::Trash(p) => (6u8, p@, Seq::empty()),
        FileStep::CreateDir(p) => (7u8, p@, Seq::empty()),
    }
}

/// The steps for pairs of paths, the first `n` of them: for each pair
/// whose `parent_of_second` (or, else, first) path has a parent, a step of
/// `kind` on one of them into the other's parent directory.
pub open spec fn pair_steps(kind: u8, a: Seq<String>, b: Seq<String>, n: int, into_parent_of_a: bool) -> Seq<(u8, Seq<char>, Seq<char>)>
    decreases n,
{
    if n <= 0 {
        Seq::empty()
    } else {
        let rest = pair_steps(kind, a, b, n - 1, into_parent_of_a);
        let (moved, anchor) = if into_parent_of_a { (b[n - 1]@, a[n - 1]@) } else { (a[n - 1]@, b[n - 1]@) };
        match std_parent(anchor) {
            Some(q) => rest.push((kind, moved, q)),
            None => rest,
        }
    }
}

/// The steps that undo an operation: copies are deleted; moved entries go
/// back to the directories they came from; trashed entries are restored;
/// a renamed entry gets its old name back; a created directory is removed.
pub open spec fn undo_steps_spec(op: FileOperation) -> Seq<(u8, Seq<char>, Seq<char>)> {
    match op {
        FileOperation::Copy { destinations, .. } => destinations@.map_values(|d: String| (0u8, d@, Seq::<char>::empty())),
        FileOperation::Move { sources, destinations } => {
            let n = if sources.len() <= destinations.len() { sources.len() } else { destinations.len() };
            pair_steps(1u8, sources@, destinations@, n as int, true)
        },
        FileOperation::Trash { trash_names, .. } => trash_names@.map_values(|t: String| (3u8, t@, Seq::<char>::empty())),
        FileOperation::Rename { original, renamed } => match file_name(original@) {
            Some(n) => seq![(4u8, renamed@, n)],
            None => Seq::empty(),
        },
        FileOperation::CreateDir { path } => seq![(5u8, path@, Seq::<char>::empty())],
    }
}

/// The steps that redo an operation: the sources are copied, or moved,
/// again into the destinations' directories; the originals are trashed
/// again; the entry is renamed again; the directory is created again.
pub open spec fn redo_steps_spec(op: FileOperation) -> Seq<(u8, Seq<char>, Seq<char>)> {
    match op {
        FileOperation::Copy { sources, destinations } => {
            let n = if sources.len() <= destinations.len() { sources.len() } else { destinations.len() };
            pair_steps(2u8, sources@, destinations@, n as int, false)
        },
        FileOperation::Move { sources, destinations } => {
            let n = if sources.len() <= destinations.len() { sources.len() } else { destinations.len() };
            pair_steps(1u8, sources@, destinations@, n as int, false)
        },
        FileOperation::Trash { originals, .. } => originals@.map_values(|t: String| (6u8, t@, Seq::<char>::empty())),
        FileOperation::Rename { original, renamed } => match file_name(renamed@) {
            Some(n) => seq![(4u8, original@, n)],
            None => Seq::empty(),
        },
        FileOperation::CreateDir { path } => seq![(7u8, path@, Seq::<char>::empty())],
    }
}

/// The steps' texts.
pub open spec fn steps_text(v: Seq<FileStep>) -> Seq<(u8, Seq<char>, Seq<char>)> {
    v.map_values(|s: FileStep| step_text(s))
}

/// A step of `kind` for each pair of paths (up to the shorter list), taking
/// one of them into the other's parent directory, where it has one.
fn pair_steps_exec(kind: u8, a: &Vec<String>, b: &Vec<String>, into_parent_of_a: bool) -> (res: Vec<FileStep>)
    requires
        kind == 1 || kind == 2,
    ensures
        steps_text(res@) == pair_steps(
            kind,
            a@,
            b@,
            if a@.len() <= b@.len() { a@.len() as int } else { b@.len() as int },
            into_parent_of_a,
        ),
{
    let n = if a.len() <= b.len() {
        a.len()
    } else {
        b.len()
    };
    let mut out: Vec<FileStep> = Vec::new();
    let mut i: usize = 0;
    while i < n
        invariant
            kind == 1 || kind == 2,
            i <= n,
            n <= a@.len(),
            n <= b@.len(),
            steps_text(out@) == pair_steps(kind, a@, b@, i as int, into_parent_of_a),
        decreases n - i,
    {
        let (moved, anchor) = if into_parent_of_a {
            (&b[i], &a[i])
        } else {
            (&a[i], &b[i])
        };
        match parent_of(anchor) {
            Some(q) => {
                let step = if kind == 1 {
                    FileStep::MoveIfExists { path: moved.clone(), dir: q }
                } else {
                    FileStep::CopyIfExists { path: moved.clone(), dir: q }
                };
                let ghost before = out@;
                out.push(step);
                proof {
                    assert(out@ =~= before.push(step));
                    assert(steps_text(out@) =~= steps_text(before).push(step_text(step)));
                }
            },
            None => {},
        }
        i = i + 1;
    }
    out
}

/// One step of `kind` for each path.
fn each_step(kind: u8, v: &Vec<String>) -> (res: Vec<FileStep>)
    requires
        kind == 0 || kind == 3 || kind == 6,
    ensures
        steps_text(res@) == v@.map_values(|t: String| (kind, t@, Seq::<char>::empty())),
{
    let mut out: Vec<FileStep> = Vec::new();
    let mut i: usize = 0;
    while i < v.len()
        invariant
            kind == 0 || kind == 3 || kind == 6,
            i <= v@.len(),
            steps_text(out@) == v@.take(i as int).map_values(|t: String| (kind, t@, Seq::<char>::empty())),
        decreases v@.len() - i,
    {
        let p = v[i].clone();
        let step = if kind == 0 {
            FileStep::DeleteIfExists(p)
        } else if kind == 3 {
            FileStep::Restore(p)
        } else {
            FileStep::Trash(p)
        };
        let ghost before = out@;
        out.push(step);
        proof {
            assert(out@ =~= before.push(step));
            assert(steps_text(out@) =~= steps_text(before).push(step_text(step)));
            assert(step_text(step) == (kind, v@[i as int]@, Seq::<char>::empty()));
            assert(v@.take(i + 1) =~= v@.take(i as int).push(v@[i as int]));
            assert(steps_text(out@) =~= v@.take(i + 1).map_values(|t: String| (kind, t@, Seq::<char>::empty())));
        }
        i = i + 1;
    }
    proof {
        assert(v@.take(i as int) =~= v@);
    }
    out
}

impl FileOperation {
    /// The steps that undo this operation on disk (see `undo_steps_spec`).
    pub fn undo_steps(&self) -> (res: Vec<FileStep>)
        ensures
            steps_text(res@) == undo_steps_spec(*self),
    {
        match self {
            FileOperation::Copy { destinations, .. } => each_step(0, destinations),
            FileOperation::Move { sources, destinations } => pair_steps_exec(1, sources, destinations, true),
            FileOperation::Trash { trash_names, .. } => each_step(3, trash_names),
            FileOperation::Rename { original, renamed } => match file_name_of(original) {
                Some(n) => {
                    let v = vec![FileStep::RenameIfExists { path: renamed.clone(), name: n }];
                    assert(steps_text(v@) =~= undo_steps_spec(*self));
                    v
                },
                None => {
                    let v: Vec<FileStep> = Vec::new();
                    assert(steps_text(v@) =~= undo_steps_spec(*self));
                    v
                },
            },
            FileOperation::CreateDir { path } => {
                let v = vec![FileStep::RemoveDirIfDir(path.clone())];
                assert(steps_text(v@) =~= undo_steps_spec(*self));
                v
            },
        }
    }

    /// The steps that redo this operation on disk (see `redo_steps_spec`).
    pub fn redo_steps(&self) -> (res: Vec<FileStep>)
        ensures
            steps_text(res@) == redo_steps_spec(*self),
    {
        match self {
            FileOperation::Copy { sources, destinations } => pair_steps_exec(2, sources, destinations, false),
            FileOperation::Move { sources, destinations } => pair_steps_exec(1, sources, destinations, false),
            FileOperation::Trash { originals, .. } => each_step(6, originals),
            FileOperation::Rename { original, renamed } => match file_name_of(renamed) {
                Some(n) => {
                    let v = vec![FileStep::RenameIfExists { path: original.clone(), name: n }];
                    assert(steps_text(v@) =~= redo_steps_spec(*self));
                    v
                },
                None => {
                    let v: Vec<FileStep> = Vec::new();
                    assert(steps_text(v@) =~= redo_steps_spec(*self));
                    v
                },
            },
            FileOperation::CreateDir { path } => {
                let v = vec![FileStep::CreateDir(path.clone())];
                assert(steps_text(v@) =~= redo_steps_spec(*self));
                v
            },
        }
    }
}

/// What is reported once an operation is undone.
pub open spec fn undo_message_spec(op: FileOperation) -> Seq<char> {
    match op {
        FileOperation::Copy { destinations, .. } => "Deleted "@ + decimal(destinations.len() as nat) + " copied item(s)"@,
        FileOperation::Move { sources, .. } => "Moved "@ + decimal(sources.len() as nat) + " item(s) back"@,
        FileOperation::Trash { trash_names, .. } => "Restored "@ + decimal(trash_names.len() as nat) + " item(s) from trash"@,
        FileOperation::Rename { .. } => "Renamed back"@,
        FileOperation::CreateDir { .. } => "Deleted folder"@,
    }
}

/// What is reported once an operation is redone (`trashed` entries moved
/// to the trash again).
pub open spec fn redo_message_spec(op: FileOperation, trashed: nat) -> Seq<char> {
    match op {
        FileOperation::Copy { sources, .. } => "Copied "@ + decimal(sources.len() as nat) + " item(s)"@,
        FileOperation::Move { sources, .. } => "Moved "@ + decimal(sources.len() as nat) + " item(s)"@,
        FileOperation::Trash { .. } => "Trashed "@ + decimal(trashed) + " item(s)"@,
        FileOperation::Rename { .. } => "Renamed"@,
        FileOperation::CreateDir { .. } => "Created folder"@,
    }
}

/// `head`, the number, `tail`.
fn counted(head: &str, n: usize, tail: &str) -> (res: String)
    ensures
        res@ == head@ + decimal(n as nat) + tail@,
{
    let mut s = String::new();
    push_str(&mut s, head);
    let d = decimal_string(n as u64);
    push_str(&mut s, d.as_str());
    push_str(&mut s, tail);
    s
}

impl FileOperation {
    /// What is reported once the operation is undone.
    pub fn undo_message(&self) -> (res: String)
        ensures
            res@ == undo_message_spec(*self),
    {
        match self {
            FileOperation::Copy { destinations, .. } => counted("Deleted ", destinations.len(), " copied item(s)"),
            FileOperation::Move { sources, .. } => counted("Moved ", sources.len(), " item(s) back"),
            FileOperation::Trash { trash_names, .. } => counted("Restored ", trash_names.len(), " item(s) from trash"),
            FileOperation::Rename { .. } => crate::text::copy_string("Renamed back"),
            FileOperation::CreateDir { .. } => crate::text::copy_string("Deleted folder"),
        }
    }

    /// What is reported once the operation is redone (`trashed` entries
    /// moved to the trash again).
    pub fn redo_message(&self, trashed: usize) -> (res: String)
        ensures
            res@ == redo_message_spec(*self, trashed as nat),
    {
        match self {
            FileOperation::Copy { sources, .. } => counted("Copied ", sources.len(), " item(s)"),
            FileOperation::Move { sources, .. } => counted("Moved ", sources.len(), " item(s)"),
            FileOperation::Trash { .. } => counted("Trashed ", trashed, " item(s)"),
            FileOperation::Rename { .. } => crate::text::copy_string("Renamed"),
            FileOperation::CreateDir { .. } => crate::text::copy_string("Created folder"),
        }
    }
}

} // verus!
