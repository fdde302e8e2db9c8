//! Edit distance and "did you mean" suggestions for mistyped commands.
use vstd::prelude::*;

use crate::text::{chars_of, concat3};

verus! {

/// The smallest of three naturals.
pub open spec fn min3(x: nat, y: nat, z: nat) -> nat {
    if x <= y && x <= z {
        x
    } else if y <= z {
        y
    } else {
        z
    }
}

/// The Levenshtein distance between two texts: the least number of
/// single-character insertions, deletions and substitutions that turn `a`
/// into `b`, in its usual recursive form on prefixes.
pub open spec fn lev(a: Seq<char>, b: Seq<char>) -> nat
    decreases a.len() + b.len(),
{
    if a.len() == 0 {
        b.len()
    } else if b.len() == 0 {
        a.len()
    } else {
        min3(
            lev(a.drop_last(), b) + 1,
            lev(a, b.drop_last()) + 1,
            lev(a.drop_last(), b.drop_last()) + if a.last() == b.last() {
                0nat
            } else {
                1nat
            },
        )
    }
}

/// The larger of two naturals.
pub open spec fn max_nat(x: nat, y: nat) -> nat {
    if x >= y {
        x
    } else {
        y
    }
}

/// The distance is never more than the length of the longer text.
pub proof fn lemma_lev_upper_bound(a: Seq<char>, b: Seq<char>)
    ensures
        lev(a, b) <= max_nat(a.len(), b.len()),
    decreases a.len() + b.len(),
{
    if a.len() > 0 && b.len() > 0 {
        lemma_lev_upper_bound(a.drop_last(), b.drop_last());
    }
}

/// The distance is never less than the difference of the lengths.
pub proof fn lemma_lev_lower_bound(a: Seq<char>, b: Seq<char>)
    ensures
        lev(a, b) >= a.len() - b.len(),
        lev(a, b) >= b.len() - a.len(),
    decreases a.len() + b.len(),
{
    if a.len() > 0 && b.len() > 0 {
        lemma_lev_lower_bound(a.drop_last(), b);
        lemma_lev_lower_bound(a, b.drop_last());
        lemma_lev_lower_bound(a.drop_last(), b.drop_last());
    }
}

/// A text is at distance zero from itself.
pub proof fn lemma_lev_identity(a: Seq<char>)
    ensures
        lev(a, a) == 0,
    decreases a.len(),
{
    if a.len() > 0 {
        lemma_lev_identity(a.drop_last());
    }
}

/// Distance zero means the texts are equal.
pub proof fn lemma_lev_zero_means_equal(a: Seq<char>, b: Seq<char>)
    requires
        lev(a, b) == 0,
    ensures
        a == b,
    decreases a.len() + b.len(),
{
    if a.len() > 0 && b.len() > 0 {
        lemma_lev_zero_means_equal(a.drop_last(), b.drop_last());
        assert(a =~= a.drop_last().push(a.last()));
        assert(b =~= b.drop_last().push(b.last()));
    } else {
        assert(a.len() == 0 && b.len() == 0);
        assert(a =~= b);
    }
}

/// The distance from `a` to `b` is the distance from `b` to `a`.
pub proof fn lemma_lev_symmetric(a: Seq<char>, b: Seq<char>)
    ensures
        lev(a, b) == lev(b, a),
    decreases a.len() + b.len(),
{
    if a.len() > 0 && b.len() > 0 {
        lemma_lev_symmetric(a.drop_last(), b);
        lemma_lev_symmetric(a, b.drop_last());
        lemma_lev_symmetric(a.drop_last(), b.drop_last());
    }
}

/// One step of the table: the distance between two non-empty prefixes,
/// written over the three shorter ones.
proof fn lemma_lev_step(a: Seq<char>, b: Seq<char>, i: int, j: int)
    requires
        0 <= i < a.len(),
        0 <= j < b.len(),
    ensures
        lev(a.take(i + 1), b.take(j + 1)) == min3(
            lev(a.take(i), b.take(j + 1)) + 1,
            lev(a.take(i + 1), b.take(j)) + 1,
            lev(a.take(i), b.take(j)) + if a[i] == b[j] {
                0nat
            } else {
                1nat
            },
        ),
{
    assert(a.take(i + 1).drop_last() =~= a.take(i));
    assert(b.take(j + 1).drop_last() =~= b.take(j));
    assert(a.take(i + 1).last() == a[i]);
    assert(b.take(j + 1).last() == b[j]);
}

/// Levenshtein distance between two strings, counted in characters.
///
/// # Examples
///
/// `levenshtein_distance("list", "lst")` is 1; identical strings are at
/// distance 0.
pub fn levenshtein_distance(a: &str, b: &str) -> (d: usize)
    ensures
        d == lev(a@, b@),
{
    let av = chars_of(a);
    let bv = chars_of(b);
    let n = av.len();
    let m = bv.len();
    // prev[j] is the distance between the first i characters of `a` and the
    // first j characters of `b`.
    let mut prev: Vec<usize> = Vec::new();
    assert(av@.take(0).len() == 0);
    assert(bv@.take(0).len() == 0);
    prev.push(0);
    for j in 0..m
        invariant
            m == bv.len(),
            prev@.len() == j + 1,
            forall|k: int| 0 <= k <= j ==> prev@[k] == lev(av@.take(0), bv@.take(k)),
    {
        assert(av@.take(0).len() == 0);
        assert(bv@.take(j + 1).len() == j + 1);
        prev.push(j + 1);
    }
    for i in 0..n
        invariant
            n == av.len(),
            m == bv.len(),
            prev@.len() == m + 1,
            forall|k: int| 0 <= k <= m ==> prev@[k] == lev(av@.take(i as int), bv@.take(k)),
    {
        let mut cur: Vec<usize> = Vec::new();
        proof {
            assert(bv@.take(0).len() == 0);
            assert(av@.take(i + 1).len() == i + 1);
        }
        cur.push(i + 1);
        for j in 0..m
            invariant
                n == av.len(),
                m == bv.len(),
                i < n,
                prev@.len() == m + 1,
                forall|k: int|
                    0 <= k <= m ==> prev@[k] == lev(av@.take(i as int), bv@.take(k)),
                cur@.len() == j + 1,
                forall|k: int|
                    0 <= k <= j ==> cur@[k] == lev(av@.take(i + 1), bv@.take(k)),
        {
            let deletion = prev[j + 1];
            let insertion = cur[j];
            let diagonal = prev[j];
            let cost: usize = if av[i] == bv[j] {
                0
            } else {
                1
            };
            proof {
                lemma_lev_step(av@, bv@, i as int, j as int);
                lemma_lev_upper_bound(av@.take(i + 1), bv@.take(j + 1));
            }
            let smaller = if deletion < insertion {
                deletion
            } else {
                insertion
            };
            let value = if smaller < diagonal {
                smaller + 1
            } else {
                diagonal + cost
            };
            cur.push(value);
        }
        prev = cur;
    }
    assert(av@.take(n as int) =~= av@);
    assert(bv@.take(m as int) =~= bv@);
    prev[m]
}

/// The commands that a typo is held against, in the order they are tried.
pub open spec fn command_name(k: int) -> Seq<char> {
    if k == 0 {
        "list"@
    } else if k == 1 {
        "details"@
    } else if k == 2 {
        "kill"@
    } else if k == 3 {
        "clean"@
    } else if k == 4 {
        "ps"@
    } else if k == 5 {
        "watch"@
    } else {
        "config"@
    }
}

/// How many commands there are.
pub open spec fn command_count() -> int {
    7
}

fn command_at(k: usize) -> (s: &'static str)
    requires
        k < 7,
    ensures
        s@ == command_name(k as int),
{
    if k == 0 {
        "list"
    } else if k == 1 {
        "details"
    } else if k == 2 {
        "kill"
    } else if k == 3 {
        "clean"
    } else if k == 4 {
        "ps"
    } else if k == 5 {
        "watch"
    } else {
        "config"
    }
}

/// Command `k` is a near miss for the typo: one or two edits away, but
/// not the command itself.
pub open spec fn is_near(typo: Seq<char>, k: int) -> bool {
    0 < lev(typo, command_name(k)) <= 2
}

/// Command `k` is the one to suggest: a near miss at the least distance
/// among the near misses, and the first such command in the list.
pub open spec fn is_suggested(typo: Seq<char>, k: int) -> bool {
    &&& 0 <= k < command_count()
    &&& is_near(typo, k)
    &&& forall|j: int|
        0 <= j < command_count() && is_near(typo, j) ==> lev(typo, command_name(k)) <= lev(
            typo,
            command_name(j),
        )
    &&& forall|j: int|
        0 <= j < k && is_near(typo, j) ==> lev(typo, command_name(j)) > lev(
            typo,
            command_name(k),
        )
}

/// The message that suggests a command.
pub open spec fn suggestion_message(cmd: Seq<char>) -> Seq<char> {
    "Did you mean '"@ + cmd + "'?"@
}

/// Suggests a command for a typo: "Did you mean 'X'?" for the closest
/// command at distance one or two, and `None` for an exact command or when
/// no command is that close.
pub fn suggest_command(typo: &str) -> (r: Option<String>)
    ensures
        match r {
            Some(s) => exists|k: int|
                is_suggested(typo@, k) && s@ == suggestion_message(command_name(k)),
            None => forall|k: int| 0 <= k < command_count() ==> !is_near(typo@, k),
        },
{
    let mut best: Option<usize> = None;
    let mut best_distance: usize = usize::MAX;
    for k in 0..7
        invariant
            best is None ==> best_distance == usize::MAX,
            best is None ==> forall|j: int| 0 <= j < k ==> !is_near(typo@, j),
            best matches Some(b) ==> {
                &&& b < k
                &&& is_near(typo@, b as int)
                &&& best_distance == lev(typo@, command_name(b as int))
                &&& forall|j: int|
                    0 <= j < k && is_near(typo@, j) ==> best_distance <= lev(
                        typo@,
                        command_name(j),
                    )
                &&& forall|j: int|
                    0 <= j < b && is_near(typo@, j) ==> lev(typo@, command_name(j))
                        > best_distance
            },
    {
        let cmd = command_at(k);
        let distance = levenshtein_distance(typo, cmd);
        if distance < best_distance && distance <= 2 && distance > 0 {
            best_distance = distance;
            best = Some(k);
        }
    }
    match best {
        Some(b) => {
            let msg = concat3("Did you mean '", command_at(b), "'?");
            assert(is_suggested(typo@, b as int));
            Some(msg)
        },
        None => None,
    }
}

} // verus!
