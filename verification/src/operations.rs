//! Results of file operations and collision-free names.
use vstd::prelude::*;
use crate::path::{join, join_path, parent_of, path_exists, std_parent};
use crate::text::{chars_of, decimal, push_char, push_chars, push_decimal, push_str, slice_chars};

verus! {

/// Result of a file operation.
#[derive(Debug)]
pub struct OperationResult {
    /// Whether the operation succeeded.
    pub success: bool,
    /// Error message if failed.
    pub error: Option<String>,
    /// Files that were processed.
    pub processed: Vec<String>,
    /// Files that failed.
    pub failed: Vec<(String, String)>,
}

/// The summary error text for `n` failures.
pub open spec fn failed_text(n: nat) -> Seq<char> {
    decimal(n) + " files failed"@
}

impl OperationResult {
    /// Create a successful result.
    pub fn success(processed: Vec<String>) -> (res: Self)
        ensures
            res.success,
            res.error is None,
            res.processed == processed,
            res.failed@.len() == 0,
    {
        OperationResult { success: true, error: None, processed, failed: Vec::new() }
    }

    /// Create a failed result.
    pub fn failure(error: String) -> (res: Self)
        ensures
            !res.success,
            res.error == Some(error),
            res.processed@.len() == 0,
            res.failed@.len() == 0,
    {
        OperationResult { success: false, error: Some(error), processed: Vec::new(), failed: Vec::new() }
    }

    /// Create a partial result: successful exactly when nothing failed.
    pub fn partial(processed: Vec<String>, failed: Vec<(String, String)>) -> (res: Self)
        ensures
            res.success == (failed@.len() == 0),
            failed@.len() == 0 ==> res.error is None,
            failed@.len() > 0 ==> (res.error matches Some(e) && e@ == failed_text(failed@.len())),
            res.processed == processed,
            res.failed == failed,
    {
        let n = failed.len();
        let error = if n == 0 {
            None
        } else {
            let mut s = String::new();
            push_decimal(&mut s, n as u64);
            push_str(&mut s, " files failed");
            Some(s)
        };
        OperationResult { success: n == 0, error, processed, failed }
    }
}

/// The paths of the successful outcomes, in order.
pub open spec fn done_paths(outcomes: Seq<Result<String, String>>) -> Seq<String>
    decreases outcomes.len(),
{
    if outcomes.len() == 0 {
        Seq::empty()
    } else {
        let rest = done_paths(outcomes.drop_last());
        match outcomes.last() {
            Ok(p) => rest.push(p),
            Err(_) => rest,
        }
    }
}

/// The sources of the failed outcomes with their messages, in order.
pub open spec fn failures<T>(sources: Seq<String>, outcomes: Seq<Result<T, String>>) -> Seq<
    (String, String),
>
    decreases outcomes.len(),
{
    if outcomes.len() == 0 {
        Seq::empty()
    } else {
        let n = outcomes.len() - 1;
        let rest = failures(sources.take(n), outcomes.drop_last());
        match outcomes.last() {
            Ok(_) => rest,
            Err(e) => rest.push((sources[n], e)),
        }
    }
}

/// The sources whose outcome succeeded, in order.
pub open spec fn done_sources(sources: Seq<String>, outcomes: Seq<Result<(), String>>) -> Seq<String>
    decreases outcomes.len(),
{
    if outcomes.len() == 0 {
        Seq::empty()
    } else {
        let n = outcomes.len() - 1;
        let rest = done_sources(sources.take(n), outcomes.drop_last());
        match outcomes.last() {
            Ok(_) => rest.push(sources[n]),
            Err(_) => rest,
        }
    }
}

/// Collects per-file outcomes (the destination created, or an error message)
/// into an operation result.
fn collect_moves(sources: &[String], outcomes: Vec<Result<String, String>>) -> (res: OperationResult)
    requires
        sources@.len() == outcomes@.len(),
    ensures
        res.processed@ == done_paths(outcomes@),
        res.failed@ == failures(sources@, outcomes@),
        res.success == (failures(sources@, outcomes@).len() == 0),
{
    let mut processed: Vec<String> = Vec::new();
    let mut failed: Vec<(String, String)> = Vec::new();
    let n = outcomes.len();
    let mut i: usize = 0;
    while i < n
        invariant
            n == sources@.len(),
            n == outcomes@.len(),
            i <= n,
            processed@ == done_paths(outcomes@.take(i as int)),
            failed@ == failures(sources@.take(i as int), outcomes@.take(i as int)),
        decreases n - i,
    {
        assert(outcomes@.take(i + 1).drop_last() == outcomes@.take(i as int));
        assert(sources@.take(i + 1).take(i as int) == sources@.take(i as int));
        match &outcomes[i] {
            Ok(p) => processed.push(p.clone()),
            Err(e) => failed.push((sources[i].clone(), e.clone())),
        }
        i = i + 1;
    }
    assert(outcomes@.take(n as int) == outcomes@);
    assert(sources@.take(n as int) == sources@);
    OperationResult::partial(processed, failed)
}

/// Copy multiple files to a destination: builds the result from the outcome
/// of copying each source (the path created, or the error message).
pub fn copy_files(sources: &[String], outcomes: Vec<Result<String, String>>) -> (res:
    OperationResult)
    requires
        sources@.len() == outcomes@.len(),
    ensures
        res.processed@ == done_paths(outcomes@),
        res.failed@ == failures(sources@, outcomes@),
        res.success == (failures(sources@, outcomes@).len() == 0),
{
    collect_moves(sources, outcomes)
}

/// Move multiple files to a destination: builds the result from the outcome
/// of moving each source (the new path, or the error message).
pub fn move_files(sources: &[String], outcomes: Vec<Result<String, String>>) -> (res:
    OperationResult)
    requires
        sources@.len() == outcomes@.len(),
    ensures
        res.processed@ == done_paths(outcomes@),
        res.failed@ == failures(sources@, outcomes@),
        res.success == (failures(sources@, outcomes@).len() == 0),
{
    collect_moves(sources, outcomes)
}

/// Delete multiple files permanently: builds the result from the outcome of
/// deleting each path.
pub fn delete_files(paths: &[String], outcomes: Vec<Result<(), String>>) -> (res: OperationResult)
    requires
        paths@.len() == outcomes@.len(),
    ensures
        res.processed@ == done_sources(paths@, outcomes@),
        res.failed@ == failures(paths@, outcomes@),
        res.success == (failures(paths@, outcomes@).len() == 0),
{
    let mut processed: Vec<String> = Vec::new();
    let mut failed: Vec<(String, String)> = Vec::new();
    let n = outcomes.len();
    let mut i: usize = 0;
    while i < n
        invariant
            n == paths@.len(),
            n == outcomes@.len(),
            i <= n,
            processed@ == done_sources(paths@.take(i as int), outcomes@.take(i as int)),
            failed@ == failures(paths@.take(i as int), outcomes@.take(i as int)),
        decreases n - i,
    {
        assert(outcomes@.take(i + 1).drop_last() == outcomes@.take(i as int));
        assert(paths@.take(i + 1).take(i as int) == paths@.take(i as int));
        match &outcomes[i] {
            Ok(()) => processed.push(paths[i].clone()),
            Err(e) => failed.push((paths[i].clone(), e.clone())),
        }
        i = i + 1;
    }
    assert(outcomes@.take(n as int) == outcomes@);
    assert(paths@.take(n as int) == paths@);
    OperationResult::partial(processed, failed)
}

// ---------------------------------------------------------------------------
// Unique names
// ---------------------------------------------------------------------------
/// Index of the last `.` in a name, or -1.
pub open spec fn last_dot_index(s: Seq<char>) -> int
    decreases s.len(),
{
    if s.len() == 0 {
        -1
    } else if s.last() == '.' {
        s.len() - 1
    } else {
        last_dot_index(s.drop_last())
    }
}

/// A name cut before its last `.`: the stem and the extension with its dot.
pub open spec fn stem_ext(name: Seq<char>) -> (Seq<char>, Seq<char>) {
    let k = last_dot_index(name);
    if k < 0 {
        (name, Seq::empty())
    } else {
        (name.take(k), name.skip(k))
    }
}

/// "stem (i).ext": the `i`-th alternative for a name that is taken.
pub open spec fn numbered_name(name: Seq<char>, i: nat) -> Seq<char> {
    stem_ext(name).0 + " ("@ + decimal(i) + ")"@ + stem_ext(name).1
}

/// "stem_t.ext": the last-resort alternative, stamped with a time.
pub open spec fn stamped_name(name: Seq<char>, t: nat) -> Seq<char> {
    stem_ext(name).0 + seq!['_'] + decimal(t) + stem_ext(name).1
}

proof fn lemma_last_dot_index_is(p: Seq<char>, k: int)
    requires
        -1 <= k < p.len(),
        k >= 0 ==> p[k] == '.',
        forall|j: int| k < j < p.len() ==> p[j] != '.',
    ensures
        last_dot_index(p) == k,
    decreases p.len(),
{
    if p.len() > 0 && p.last() != '.' {
        lemma_last_dot_index_is(p.drop_last(), k);
    }
}

/// Splits a name into stem and extension (with its dot).
pub fn split_stem_ext(name: &str) -> (res: (Vec<char>, Vec<char>))
    ensures
        res.0@ == stem_ext(name@).0,
        res.1@ == stem_ext(name@).1,
{
    let v = chars_of(name);
    let n = v.len();
    let mut i: usize = n;
    while i > 0 && v[i - 1] != '.'
        invariant
            i <= n == v.len(),
            forall|j: int| i <= j < n ==> v@[j] != '.',
        decreases i,
    {
        i = i - 1;
    }
    proof {
        lemma_last_dot_index_is(v@, i - 1);
    }
    if i == 0 {
        (v, Vec::new())
    } else {
        (slice_chars(&v, 0, i - 1), slice_chars(&v, i - 1, n))
    }
}

/// The `i`-th alternative name: "stem (i).ext".
pub fn numbered(name: &str, i: u64) -> (res: String)
    ensures
        res@ == numbered_name(name@, i as nat),
{
    let (stem, ext) = split_stem_ext(name);
    let mut s = String::new();
    push_chars(&mut s, &stem);
    push_str(&mut s, " (");
    push_decimal(&mut s, i);
    push_char(&mut s, ')');
    push_chars(&mut s, &ext);
    proof {
        reveal_strlit(")");
    }
    assert(s@ =~= numbered_name(name@, i as nat));
    s
}

/// The time-stamped alternative name: "stem_t.ext".
pub fn stamped(name: &str, t: u64) -> (res: String)
    ensures
        res@ == stamped_name(name@, t as nat),
{
    let (stem, ext) = split_stem_ext(name);
    let mut s = String::new();
    push_chars(&mut s, &stem);
    push_char(&mut s, '_');
    push_decimal(&mut s, t);
    push_chars(&mut s, &ext);
    assert(s@ =~= stamped_name(name@, t as nat));
    s
}

/// Seconds since the Unix epoch. Calls std's `SystemTime::now` and
/// `duration_since(UNIX_EPOCH)` (0 when the clock is before the epoch); the
/// value depends on the clock, so nothing is stated of it.
#[verifier::external_body]
pub(crate) fn unix_secs_now() -> u64 {
    std::time::SystemTime::now().duration_since(std::time::UNIX_EPOCH).map(|d| d.as_secs()).unwrap_or(0)
}

/// The first position from `i` on, below `n` and within `taken`, whose
/// answer is "free".
pub open spec fn first_free(taken: Seq<bool>, i: nat, n: nat) -> Option<nat>
    decreases n - i,
{
    if i >= n || i >= taken.len() {
        None
    } else if !taken[i as int] {
        Some(i)
    } else {
        first_free(taken, i + 1, n)
    }
}

/// How many names are tried before falling back to a time stamp: the name
/// itself and "stem (i).ext" for 1 <= i < 1000.
pub const NAME_TRIES: usize = 1000;

/// The name chosen for `name` where `taken[k]` says whether the `k`-th
/// candidate exists (candidate 0 is the name itself, candidate `i` is
/// "stem (i).ext"): the first free candidate, else the name stamped with
/// `stamp`.
pub open spec fn unique_name_spec(name: Seq<char>, taken: Seq<bool>, stamp: nat) -> Seq<char> {
    match first_free(taken, 0, NAME_TRIES as nat) {
        Some(k) => if k == 0 {
            name
        } else {
            numbered_name(name, k)
        },
        None => stamped_name(name, stamp),
    }
}

/// The unique name for `name` given which candidates exist.
pub fn pick_unique_name(name: &str, taken: &Vec<bool>, stamp: u64) -> (res: String)
    ensures
        res@ == unique_name_spec(name@, taken@, stamp as nat),
{
    let mut i: usize = 0;
    while i < NAME_TRIES && i < taken.len()
        invariant
            i <= NAME_TRIES,
            first_free(taken@, 0, NAME_TRIES as nat) == first_free(taken@, i as nat, NAME_TRIES as nat),
        decreases NAME_TRIES - i,
    {
        if !taken[i] {
            if i == 0 {
                return crate::text::copy_string(name);
            }
            return numbered(name, i as u64);
        }
        i = i + 1;
    }
    stamped(name, stamp)
}

/// Answers to "does the `k`-th of `n` candidates exist?", asked in order
/// until one is free: all say "taken" but the last, which is "free" unless
/// all `n` were asked.
pub open spec fn looked_up(taken: Seq<bool>, n: nat) -> bool {
    &&& 0 < taken.len() <= n
    &&& forall|k: int| 0 <= k < taken.len() - 1 ==> #[trigger] taken[k]
    &&& (taken.len() < n ==> !taken.last())
}

/// Generate a unique name if the target already exists: the name itself, or
/// the first "stem (i).ext" (1 <= i < 1000) not present in `dest_dir`, or
/// failing that a time-stamped name. The candidates are looked up in
/// `dest_dir` in order until one is free; what is found there, and the
/// time, come from outside, and `pick_unique_name` chooses from them.
pub fn make_unique_name(dest_dir: &str, name: &str) -> (res: String)
    ensures
        exists|taken: Seq<bool>, t: u64|
            {
                &&& looked_up(taken, NAME_TRIES as nat)
                &&& res@ == unique_name_spec(name@, taken, t as nat)
            },
{
    let mut taken: Vec<bool> = Vec::new();
    let mut i: usize = 0;
    let mut all_taken = true;
    while i < NAME_TRIES
        invariant_except_break
            i <= NAME_TRIES,
            taken@.len() == i,
            all_taken,
            forall|k: int| 0 <= k < i ==> #[trigger] taken@[k],
        ensures
            looked_up(taken@, NAME_TRIES as nat),
            all_taken == taken@.last(),
        decreases NAME_TRIES - i,
    {
        let candidate = if i == 0 {
            crate::text::copy_string(name)
        } else {
            numbered(name, i as u64)
        };
        let p = join_path(dest_dir, candidate.as_str());
        let exists = path_exists(p.as_str());
        taken.push(exists);
        if !exists {
            all_taken = false;
            break;
        }
        i = i + 1;
    }
    let stamp = if all_taken {
        unix_secs_now()
    } else {
        0
    };
    let res = pick_unique_name(name, &taken, stamp);
    assert(res@ == unique_name_spec(name@, taken@, stamp as nat));
    res
}

/// Where an entry renamed to `new_name` goes: beside it, in its parent
/// directory; `None` for a path without a parent.
pub fn rename_target(path: &str, new_name: &str) -> (res: Option<String>)
    ensures
        match std_parent(path@) {
            Some(q) => res matches Some(t) && t@ == join(q, new_name@),
            None => res is None,
        },
{
    match parent_of(path) {
        Some(q) => Some(join_path(&q, new_name)),
        None => None,
    }
}

/// The name tried for a new folder: "New Folder", then "New Folder (1)",
/// "New Folder (2)" and so on while the names are taken.
pub open spec fn new_folder_text(counter: nat) -> Seq<char> {
    if counter == 0 {
        "New Folder"@
    } else {
        "New Folder ("@ + decimal(counter) + ")"@
    }
}

/// The name tried for a new folder at the `counter`th try (from 0).
pub fn new_folder_name(counter: u64) -> (res: String)
    ensures
        res@ == new_folder_text(counter as nat),
{
    if counter == 0 {
        return crate::text::copy_string("New Folder");
    }
    let mut s = crate::text::copy_string("New Folder (");
    push_decimal(&mut s, counter);
    push_str(&mut s, ")");
    s
}

/// The status message after duplicating: "Duplicated as 'name'" for one
/// item, "Duplicated N items" for several, a failure for none.
pub open spec fn duplicated_text(count: nat, last_name: Seq<char>) -> Seq<char> {
    if count == 0 {
        "Failed to duplicate items"@
    } else if count == 1 {
        "Duplicated as '"@ + last_name + "'"@
    } else {
        "Duplicated "@ + decimal(count) + " items"@
    }
}

/// The status message after duplicating `count` items, the last one
/// created as `last_name`.
pub fn duplicated_message(count: usize, last_name: &str) -> (res: String)
    ensures
        res@ == duplicated_text(count as nat, last_name@),
{
    if count == 0 {
        return crate::text::copy_string("Failed to duplicate items");
    }
    if count == 1 {
        let mut s = crate::text::copy_string("Duplicated as '");
        push_str(&mut s, last_name);
        push_str(&mut s, "'");
        return s;
    }
    let mut s = crate::text::copy_string("Duplicated ");
    push_decimal(&mut s, count as u64);
    push_str(&mut s, " items");
    s
}

} // verus!
