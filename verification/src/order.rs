//! Three-way comparison of keys used when sorting.
use vstd::prelude::*;

verus! {

/// Result of a three-way comparison.
#[derive(Debug, Clone, Copy, PartialEq, Eq, Structural)]
pub enum Comparison {
    /// The first value orders before the second.
    Less,
    /// The values order the same.
    Equal,
    /// The first value orders after the second.
    Greater,
}

/// The comparison seen from the other side.
pub open spec fn flip(c: Comparison) -> Comparison {
    match c {
        Comparison::Less => Comparison::Greater,
        Comparison::Equal => Comparison::Equal,
        Comparison::Greater => Comparison::Less,
    }
}

/// Compares two integers.
pub open spec fn int_compare(a: int, b: int) -> Comparison {
    if a < b {
        Comparison::Less
    } else if a == b {
        Comparison::Equal
    } else {
        Comparison::Greater
    }
}

/// Compares two texts character by character (code point order), a proper
/// prefix ordering first. This is the order of `str`'s `cmp`, since UTF-8
/// byte order follows code point order.
pub open spec fn text_compare(a: Seq<char>, b: Seq<char>) -> Comparison
    decreases a.len(),
{
    if a.len() == 0 {
        if b.len() == 0 {
            Comparison::Equal
        } else {
            Comparison::Less
        }
    } else if b.len() == 0 {
        Comparison::Greater
    } else if (a[0] as u32) < (b[0] as u32) {
        Comparison::Less
    } else if (a[0] as u32) > (b[0] as u32) {
        Comparison::Greater
    } else {
        text_compare(a.drop_first(), b.drop_first())
    }
}

/// Compares optional integers, absent first.
pub open spec fn opt_int_compare(a: Option<int>, b: Option<int>) -> Comparison {
    match (a, b) {
        (None, None) => Comparison::Equal,
        (None, Some(_)) => Comparison::Less,
        (Some(_), None) => Comparison::Greater,
        (Some(x), Some(y)) => int_compare(x, y),
    }
}

/// Compares optional texts, absent first.
pub open spec fn opt_text_compare(a: Option<Seq<char>>, b: Option<Seq<char>>) -> Comparison {
    match (a, b) {
        (None, None) => Comparison::Equal,
        (None, Some(_)) => Comparison::Less,
        (Some(_), None) => Comparison::Greater,
        (Some(x), Some(y)) => text_compare(x, y),
    }
}

/// `c1` followed by `c2` allows concluding `c` for the outer pair: the
/// composition rule of a total preorder.
pub open spec fn chains(c1: Comparison, c2: Comparison, c: Comparison) -> bool {
    &&& (c1 != Comparison::Greater && c2 != Comparison::Greater) ==> c != Comparison::Greater
    &&& (c1 == Comparison::Less && c2 != Comparison::Greater) ==> c == Comparison::Less
    &&& (c1 != Comparison::Greater && c2 == Comparison::Less) ==> c == Comparison::Less
}

/// Distinct characters have distinct code points.
pub proof fn lemma_char_code_injective(a: char, b: char)
    ensures
        ((a as u32) == (b as u32)) == (a == b),
{
    vstd::utf8::char_u32_cast(a, a as u32);
    vstd::utf8::char_u32_cast(b, b as u32);
}

/// `text_compare` is antisymmetric and says `Equal` exactly for equal texts.
pub proof fn lemma_text_compare_flip(a: Seq<char>, b: Seq<char>)
    ensures
        text_compare(a, b) == flip(text_compare(b, a)),
        (text_compare(a, b) == Comparison::Equal) == (a == b),
    decreases a.len(),
{
    if a.len() > 0 && b.len() > 0 && a[0] == b[0] {
        lemma_text_compare_flip(a.drop_first(), b.drop_first());
        lemma_char_code_injective(a[0], b[0]);
        if a.drop_first() == b.drop_first() {
            assert(a =~= seq![a[0]] + a.drop_first());
            assert(b =~= seq![b[0]] + b.drop_first());
        }
        if a == b {
            assert(a.drop_first() == b.drop_first());
        }
    } else if a.len() > 0 && b.len() > 0 {
        lemma_char_code_injective(a[0], b[0]);
    } else if a.len() == 0 && b.len() == 0 {
        assert(a =~= b);
    }
}

/// `text_compare` composes as a total order.
pub proof fn lemma_text_compare_trans(a: Seq<char>, b: Seq<char>, c: Seq<char>)
    ensures
        chains(text_compare(a, b), text_compare(b, c), text_compare(a, c)),
    decreases a.len(),
{
    if a.len() > 0 && b.len() > 0 && c.len() > 0 && a[0] == b[0] && b[0] == c[0] {
        lemma_text_compare_trans(a.drop_first(), b.drop_first(), c.drop_first());
    } else if a.len() > 0 && b.len() > 0 && c.len() > 0 {
        lemma_char_code_injective(a[0], b[0]);
        lemma_char_code_injective(c[0], b[0]);
    }
}

/// `opt_text_compare` is antisymmetric.
pub proof fn lemma_opt_text_compare_flip(a: Option<Seq<char>>, b: Option<Seq<char>>)
    ensures
        opt_text_compare(a, b) == flip(opt_text_compare(b, a)),
{
    if a is Some && b is Some {
        lemma_text_compare_flip(a->0, b->0);
    }
}

/// `opt_text_compare` composes as a total order.
pub proof fn lemma_opt_text_compare_trans(a: Option<Seq<char>>, b: Option<Seq<char>>, c: Option<Seq<char>>)
    ensures
        chains(opt_text_compare(a, b), opt_text_compare(b, c), opt_text_compare(a, c)),
{
    if a is Some && b is Some && c is Some {
        lemma_text_compare_trans(a->0, b->0, c->0);
    }
}

/// Compares two character buffers.
pub fn text_compare_exec(a: &Vec<char>, b: &Vec<char>) -> (res: Comparison)
    ensures
        res == text_compare(a@, b@),
{
    let mut i: usize = 0;
    assert(a@.skip(0) == a@);
    assert(b@.skip(0) == b@);
    while i < a.len() && i < b.len() && a[i] == b[i]
        invariant
            i <= a.len(),
            i <= b.len(),
            text_compare(a@, b@) == text_compare(a@.skip(i as int), b@.skip(i as int)),
        decreases a.len() - i,
    {
        proof {
            lemma_char_code_injective(a@[i as int], b@[i as int]);
        }
        assert(a@.skip(i as int).drop_first() =~= a@.skip(i + 1));
        assert(b@.skip(i as int).drop_first() =~= b@.skip(i + 1));
        i = i + 1;
    }
    proof {
        if i < a.len() && i < b.len() {
            lemma_char_code_injective(a@[i as int], b@[i as int]);
        }
    }
    if i == a.len() {
        if i == b.len() {
            Comparison::Equal
        } else {
            Comparison::Less
        }
    } else if i == b.len() {
        Comparison::Greater
    } else if (a[i] as u32) < (b[i] as u32) {
        Comparison::Less
    } else {
        Comparison::Greater
    }
}

/// Compares two integers.
pub fn u64_compare(a: u64, b: u64) -> (res: Comparison)
    ensures
        res == int_compare(a as int, b as int),
{
    if a < b {
        Comparison::Less
    } else if a == b {
        Comparison::Equal
    } else {
        Comparison::Greater
    }
}

/// Compares two optional timestamps, absent first.
pub fn opt_i128_compare(a: Option<i128>, b: Option<i128>) -> (res: Comparison)
    ensures
        res == opt_int_compare(
            match a {
                Some(x) => Some(x as int),
                None => None,
            },
            match b {
                Some(x) => Some(x as int),
                None => None,
            },
        ),
{
    match (a, b) {
        (None, None) => Comparison::Equal,
        (None, Some(_)) => Comparison::Less,
        (Some(_), None) => Comparison::Greater,
        (Some(x), Some(y)) => if x < y {
            Comparison::Less
        } else if x == y {
            Comparison::Equal
        } else {
            Comparison::Greater
        },
    }
}

/// Compares two optional character buffers, absent first.
pub fn opt_text_compare_exec(a: &Option<Vec<char>>, b: &Option<Vec<char>>) -> (res: Comparison)
    ensures
        res == opt_text_compare(
            match a {
                Some(x) => Some(x@),
                None => None,
            },
            match b {
                Some(x) => Some(x@),
                None => None,
            },
        ),
{
    match (a, b) {
        (None, None) => Comparison::Equal,
        (None, Some(_)) => Comparison::Less,
        (Some(_), None) => Comparison::Greater,
        (Some(x), Some(y)) => text_compare_exec(x, y),
    }
}

// ---------------------------------------------------------------------------
// Stable orderings of positions
// ---------------------------------------------------------------------------
/// `p` lists each position below `n` exactly once.
pub open spec fn arrangement(p: Seq<usize>, n: int) -> bool {
    &&& p.len() == n
    &&& forall|k: int| 0 <= k < p.len() ==> #[trigger] p[k] < n
    &&& forall|k: int, l: int| 0 <= k < l < p.len() ==> p[k] != p[l]
}

/// Position `a` comes before position `b` when ordering by text, ties
/// keeping the original order.
pub open spec fn text_before(keys: Seq<Seq<char>>, a: int, b: int) -> bool {
    let c = text_compare(keys[a], keys[b]);
    c == Comparison::Less || (c == Comparison::Equal && a < b)
}

/// Position `a` comes before position `b` when ordering by score, highest
/// first, ties keeping the original order.
pub open spec fn score_before(scores: Seq<u32>, a: int, b: int) -> bool {
    scores[a] > scores[b] || (scores[a] == scores[b] && a < b)
}

fn identity_positions(n: usize) -> (res: Vec<usize>)
    ensures
        res.len() == n,
        forall|k: int| 0 <= k < n ==> #[trigger] res@[k] == k,
{
    let mut idx: Vec<usize> = Vec::new();
    let mut m: usize = 0;
    while m < n
        invariant
            m <= n,
            idx.len() == m,
            forall|k: int| 0 <= k < m ==> #[trigger] idx@[k] == k,
        decreases n - m,
    {
        idx.push(m);
        m = m + 1;
    }
    idx
}

proof fn lemma_move_into_place(before: Seq<usize>, after: Seq<usize>, i: int, j: int, x: usize)
    requires
        0 <= j <= i < before.len(),
        x == before[i],
        after == before.remove(i).insert(j, x),
    ensures
        after.len() == before.len(),
        forall|k: int| 0 <= k < after.len() ==> #[trigger] after[k] == if k < j {
            before[k]
        } else if k == j {
            x
        } else if k <= i {
            before[k - 1]
        } else {
            before[k]
        },
{
}

fn text_before_exec(keys: &Vec<Vec<char>>, x: usize, y: usize) -> (res: bool)
    requires
        x < keys.len(),
        y < keys.len(),
    ensures
        res == text_before(keys@.map_values(|v: Vec<char>| v@), x as int, y as int),
{
    let c = text_compare_exec(&keys[x], &keys[y]);
    c == Comparison::Less || (c == Comparison::Equal && x < y)
}

/// The positions of `keys` ordered by text (code point order), equal texts
/// keeping their order: the order a stable sort by these keys gives.
pub fn stable_text_order(keys: &Vec<Vec<char>>) -> (res: Vec<usize>)
    ensures
        arrangement(res@, keys.len() as int),
        forall|k: int, l: int|
            #![trigger res@[k], res@[l]]
            0 <= k < l < res.len() ==> text_before(keys@.map_values(|v: Vec<char>| v@), res@[k] as int, res@[l] as int),
{
    let ghost ks = keys@.map_values(|v: Vec<char>| v@);
    let n = keys.len();
    let mut idx = identity_positions(n);
    let mut i: usize = 0;
    while i < n
        invariant
            n == keys.len(),
            ks == keys@.map_values(|v: Vec<char>| v@),
            i <= n,
            idx.len() == n,
            forall|k: int| 0 <= k < n ==> #[trigger] idx@[k] < n,
            forall|k: int, l: int| 0 <= k < l < n ==> idx@[k] != idx@[l],
            forall|k: int| i <= k < n ==> #[trigger] idx@[k] == k,
            forall|k: int, l: int|
                #![trigger idx@[k], idx@[l]]
                0 <= k < l < i ==> text_before(ks, idx@[k] as int, idx@[l] as int),
        decreases n - i,
    {
        let x = idx[i];
        let mut j: usize = i;
        while j > 0 && text_before_exec(keys, x, idx[j - 1])
            invariant
                n == keys.len(),
                ks == keys@.map_values(|v: Vec<char>| v@),
                i < n,
                j <= i,
                idx.len() == n,
                x == idx@[i as int],
                forall|k: int| 0 <= k < n ==> #[trigger] idx@[k] < n,
                forall|m: int| j <= m < i ==> text_before(ks, x as int, #[trigger] idx@[m] as int),
            decreases j,
        {
            j = j - 1;
        }
        let ghost before = idx@;
        proof {
            if j > 0 {
                let y = before[j - 1] as int;
                lemma_text_compare_flip(ks[x as int], ks[y]);
                assert(text_before(ks, y, x as int));
                assert forall|m: int| 0 <= m < j implies text_before(ks, #[trigger] before[m] as int, x as int) by {
                    if m < j - 1 {
                        let z = before[m] as int;
                        assert(text_before(ks, z, y));
                        lemma_text_compare_trans(ks[z], ks[y], ks[x as int]);
                        lemma_text_compare_flip(ks[z], ks[x as int]);
                        lemma_text_compare_flip(ks[z], ks[y]);
                        lemma_text_compare_flip(ks[y], ks[x as int]);
                    }
                }
            }
        }
        idx.remove(i);
        idx.insert(j, x);
        proof {
            lemma_move_into_place(before, idx@, i as int, j as int, x);
        }
        i = i + 1;
    }
    idx
}

/// The positions of `scores` ordered by score, highest first, equal scores
/// keeping their order: the order a stable sort by descending score gives.
pub fn stable_score_order(scores: &Vec<u32>) -> (res: Vec<usize>)
    ensures
        arrangement(res@, scores.len() as int),
        forall|k: int, l: int|
            #![trigger res@[k], res@[l]]
            0 <= k < l < res.len() ==> score_before(scores@, res@[k] as int, res@[l] as int),
{
    let n = scores.len();
    let mut idx = identity_positions(n);
    let mut i: usize = 0;
    while i < n
        invariant
            n == scores.len(),
            i <= n,
            idx.len() == n,
            forall|k: int| 0 <= k < n ==> #[trigger] idx@[k] < n,
            forall|k: int, l: int| 0 <= k < l < n ==> idx@[k] != idx@[l],
            forall|k: int| i <= k < n ==> #[trigger] idx@[k] == k,
            forall|k: int, l: int|
                #![trigger idx@[k], idx@[l]]
                0 <= k < l < i ==> score_before(scores@, idx@[k] as int, idx@[l] as int),
        decreases n - i,
    {
        let x = idx[i];
        let mut j: usize = i;
        while j > 0 && (scores[x] > scores[idx[j - 1]] || (scores[x] == scores[idx[j - 1]] && x
            < idx[j - 1]))
            invariant
                n == scores.len(),
                i < n,
                j <= i,
                idx.len() == n,
                x == idx@[i as int],
                forall|k: int| 0 <= k < n ==> #[trigger] idx@[k] < n,
                forall|m: int| j <= m < i ==> score_before(scores@, x as int, #[trigger] idx@[m] as int),
            decreases j,
        {
            j = j - 1;
        }
        let ghost before = idx@;
        proof {
            if j > 0 {
                assert forall|m: int| 0 <= m < j implies score_before(scores@, #[trigger] before[m] as int, x as int) by {
                    if m < j - 1 {
                        assert(score_before(scores@, before[m] as int, before[j - 1] as int));
                    }
                }
            }
        }
        idx.remove(i);
        idx.insert(j, x);
        proof {
            lemma_move_into_place(before, idx@, i as int, j as int, x);
        }
        i = i + 1;
    }
    idx
}

} // verus!
