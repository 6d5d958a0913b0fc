//! The integer bookkeeping of the Monte Carlo tree search: how many workers run,
//! how many iterations each may make, the settings that switch tree sharing and
//! background tree disposal, where a shared node keeps the child of a move pair,
//! and how the visit counts of the workers' trees add up.

use vstd::prelude::*;
use crate::state::MoveChoice;

verus! {

/// The most iterations a search makes, over all its trees.
pub const MCTS_MAX_ITERATIONS_PER_TREE: u32 = 10_000_000;

/// The most workers used when the number of workers is not set.
pub const DEFAULT_MAX_ROOT_PARALLELISM: usize = 8;

/// The number of workers: the requested number when it is set and positive,
/// capped by the machine's parallelism; otherwise the machine's parallelism
/// capped at the default; and never fewer than one.
pub open spec fn worker_count_for(requested: Option<usize>, available_parallelism: usize) -> int {
    let chosen = match requested {
        Some(n) if n > 0 => if n <= available_parallelism {
            n as int
        } else {
            available_parallelism as int
        },
        _ => if available_parallelism <= DEFAULT_MAX_ROOT_PARALLELISM {
            available_parallelism as int
        } else {
            DEFAULT_MAX_ROOT_PARALLELISM as int
        },
    };
    if chosen >= 1 {
        chosen
    } else {
        1
    }
}

/// The number of workers for a requested number (if any) and the machine's parallelism.
pub fn resolve_mcts_worker_count(requested: Option<usize>, available_parallelism: usize) -> (r:
    usize)
    ensures
        r == worker_count_for(requested, available_parallelism),
        r >= 1,
{
    let chosen = match requested {
        Some(n) if n > 0 => if n <= available_parallelism {
            n
        } else {
            available_parallelism
        },
        _ => if available_parallelism <= DEFAULT_MAX_ROOT_PARALLELISM {
            available_parallelism
        } else {
            DEFAULT_MAX_ROOT_PARALLELISM
        },
    };
    if chosen >= 1 {
        chosen
    } else {
        1
    }
}

/// Whether a character is an ASCII decimal digit.
pub open spec fn is_decimal_digit(c: char) -> bool {
    '0' as int <= c as int <= '9' as int
}

/// The value of a sequence of decimal digits, most significant first.
pub open spec fn digits_value(digits: Seq<char>) -> int
    decreases digits.len(),
{
    if digits.len() == 0 {
        0
    } else {
        digits_value(digits.drop_last()) * 10 + (digits.last() as int - '0' as int)
    }
}

/// What parsing a text as a `usize` gives: after an optional leading `+`, one or
/// more ASCII digits whose value is at most `usize::MAX`; anything else is no number.
pub open spec fn parsed_usize(text: Seq<char>) -> Option<usize> {
    let digits = if text.len() > 0 && text[0] == '+' {
        text.drop_first()
    } else {
        text
    };
    if digits.len() > 0 && (forall|i: int| 0 <= i < digits.len() ==> is_decimal_digit(
        #[trigger] digits[i],
    )) && digits_value(digits) <= usize::MAX {
        Some(digits_value(digits) as usize)
    } else {
        None
    }
}

/// Parses a text as a `usize` with the standard library's `str::parse`, `None`
/// when it is not one: an optional `+`, then decimal digits, without overflow.
#[verifier::external_body]
fn parse_usize(text: &str) -> (r: Option<usize>)
    ensures
        r == parsed_usize(text@),
{
    text.parse::<usize>().ok()
}

/// The number of workers for the text of the worker-count setting (if it is set)
/// and the machine's parallelism: a text that does not parse counts as unset.
pub fn mcts_worker_count_from_setting(setting: Option<&str>, available_parallelism: usize) -> (r:
    usize)
    ensures
        r == worker_count_for(
            match setting {
                Some(text) => parsed_usize(text@),
                None => None,
            },
            available_parallelism,
        ),
        r >= 1,
{
    let requested = match setting {
        Some(text) => parse_usize(text),
        None => None,
    };
    resolve_mcts_worker_count(requested, available_parallelism)
}

/// Whether two texts are the same, character by character.
pub fn same_text(a: &str, b: &str) -> (r: bool)
    ensures
        r == (a@ == b@),
{
    let n = a.unicode_len();
    if n != b.unicode_len() {
        return false;
    }
    let mut i: usize = 0;
    while i < n
        invariant
            n == a@.len(),
            n == b@.len(),
            i <= n,
            forall|j: int| 0 <= j < i ==> a@[j] == b@[j],
        decreases n - i,
    {
        if a.get_char(i) != b.get_char(i) {
            return false;
        }
        i = i + 1;
    }
    assert(a@ =~= b@);
    true
}

/// Whether a finished tree is handed to a background thread to be freed: yes,
/// unless the synchronous-disposal setting reads "1", "true" or "TRUE".
pub fn should_drop_finished_tree_async(setting: Option<&str>) -> (r: bool)
    ensures
        r == match setting {
            Some(text) => !(text@ == "1"@ || text@ == "true"@ || text@ == "TRUE"@),
            None => true,
        },
{
    match setting {
        Some(text) => !(same_text(text, "1") || same_text(text, "true") || same_text(
            text,
            "TRUE",
        )),
        None => true,
    }
}

/// Whether the workers share one search tree: yes, unless the tree-sharing
/// setting reads "0", "false", "FALSE", "no", "NO", "off" or "OFF".
pub fn should_use_shared_tree_mcts(setting: Option<&str>) -> (r: bool)
    ensures
        r == match setting {
            Some(text) => !(text@ == "0"@ || text@ == "false"@ || text@ == "FALSE"@ || text@
                == "no"@ || text@ == "NO"@ || text@ == "off"@ || text@ == "OFF"@),
            None => true,
        },
{
    match setting {
        Some(text) => !(same_text(text, "0") || same_text(text, "false") || same_text(
            text,
            "FALSE",
        ) || same_text(text, "no") || same_text(text, "NO") || same_text(text, "off")
            || same_text(text, "OFF")),
        None => true,
    }
}

/// The iteration budget of each worker's tree: the search's budget shared out
/// among the workers, rounded up.
pub fn max_iterations_per_worker(worker_count: u32) -> (r: u32)
    requires
        worker_count > 0,
    ensures
        r == (MCTS_MAX_ITERATIONS_PER_TREE + worker_count - 1) / (worker_count as int),
        r as int * worker_count >= MCTS_MAX_ITERATIONS_PER_TREE,
{
    let r = (MCTS_MAX_ITERATIONS_PER_TREE - 1) / worker_count + 1;
    let ghost w = worker_count as int;
    let ghost m = MCTS_MAX_ITERATIONS_PER_TREE as int;
    assert(r == (m + w - 1) / w) by (nonlinear_arith)
        requires
            r == (m - 1) / w + 1,
            w >= 1,
            m >= 1,
    ;
    assert(r * w >= m) by (nonlinear_arith)
        requires
            r == (m - 1) / w + 1,
            w >= 1,
            m >= 1,
    ;
    r
}

/// How many child slots a shared node has: one per move pair, saturating at the
/// largest `usize`.
pub fn shared_children_slot_count(s1_len: usize, s2_len: usize) -> (r: usize)
    ensures
        r == if s1_len * s2_len <= usize::MAX {
            s1_len * s2_len
        } else {
            usize::MAX as int
        },
{
    match s1_len.checked_mul(s2_len) {
        Some(n) => n,
        None => usize::MAX,
    }
}

/// Where a shared node keeps the child of a move pair: row by row, side one's
/// move choosing the row and side two's the column.
pub fn shared_children_slot(s1_index: usize, s2_index: usize, s2_len: usize) -> (r: usize)
    requires
        s1_index * s2_len + s2_index <= usize::MAX,
    ensures
        r == s1_index * s2_len + s2_index,
{
    s1_index * s2_len + s2_index
}

/// Distinct move pairs get distinct child slots, all within the slot count.
pub proof fn lemma_shared_children_slots_distinct(
    s1_len: int,
    s2_len: int,
    a1: int,
    a2: int,
    b1: int,
    b2: int,
)
    requires
        0 <= a1 < s1_len,
        0 <= b1 < s1_len,
        0 <= a2 < s2_len,
        0 <= b2 < s2_len,
        (a1, a2) != (b1, b2),
    ensures
        a1 * s2_len + a2 != b1 * s2_len + b2,
        0 <= a1 * s2_len + a2 < s1_len * s2_len,
{
    assert(a1 * s2_len + a2 != b1 * s2_len + b2) by (nonlinear_arith)
        requires
            0 <= a2 < s2_len,
            0 <= b2 < s2_len,
            a1 != b1 || a2 != b2,
    ;
    assert(0 <= a1 * s2_len + a2 < s1_len * s2_len) by (nonlinear_arith)
        requires
            0 <= a1 < s1_len,
            0 <= a2 < s2_len,
    ;
}


/// How often a worker's tree visited one of the root's moves.
#[derive(Debug, PartialEq, Eq, Clone, Copy, Structural)]
pub struct MctsSideVisits {
    pub move_choice: MoveChoice,
    pub visits: u32,
}

/// The visit counts of one search tree: per root move of each side, and the
/// number of iterations the tree ran.
#[derive(Debug, Clone)]
pub struct MctsVisits {
    pub s1: Vec<MctsSideVisits>,
    pub s2: Vec<MctsSideVisits>,
    pub iteration_count: u32,
}

/// The iterations of all the given trees together.
pub open spec fn total_iterations(results: Seq<MctsVisits>) -> int
    decreases results.len(),
{
    if results.len() == 0 {
        0
    } else {
        total_iterations(results.drop_last()) + results.last().iteration_count
    }
}

/// The visits of all the given trees to side one's `i`-th move (or side two's,
/// when `side_two` holds).
pub open spec fn total_visits(results: Seq<MctsVisits>, side_two: bool, i: int) -> int
    decreases results.len(),
{
    if results.len() == 0 {
        0
    } else {
        total_visits(results.drop_last(), side_two, i) + if side_two {
            results.last().s2@[i].visits as int
        } else {
            results.last().s1@[i].visits as int
        }
    }
}

/// Visit totals are never negative.
proof fn lemma_total_visits_nonnegative(results: Seq<MctsVisits>, side_two: bool, i: int)
    ensures
        total_visits(results, side_two, i) >= 0,
    decreases results.len(),
{
    if results.len() > 0 {
        lemma_total_visits_nonnegative(results.drop_last(), side_two, i);
    }
}

/// Iteration totals are never negative.
proof fn lemma_total_iterations_nonnegative(results: Seq<MctsVisits>)
    ensures
        total_iterations(results) >= 0,
    decreases results.len(),
{
    if results.len() > 0 {
        lemma_total_iterations_nonnegative(results.drop_last());
    }
}

/// The iterations of the first trees are at most those of all of them.
proof fn lemma_total_iterations_prefix(results: Seq<MctsVisits>, w: int)
    requires
        0 <= w <= results.len(),
    ensures
        total_iterations(results.take(w)) <= total_iterations(results),
    decreases results.len(),
{
    if w < results.len() {
        assert(results.drop_last().take(w) =~= results.take(w));
        lemma_total_iterations_prefix(results.drop_last(), w);
    } else {
        assert(results.take(w) =~= results);
    }
}

/// The visits of the first trees are at most those of all of them.
proof fn lemma_total_visits_prefix(results: Seq<MctsVisits>, side_two: bool, i: int, w: int)
    requires
        0 <= w <= results.len(),
    ensures
        total_visits(results.take(w), side_two, i) <= total_visits(results, side_two, i),
    decreases results.len(),
{
    if w < results.len() {
        assert(results.drop_last().take(w) =~= results.take(w));
        lemma_total_visits_prefix(results.drop_last(), side_two, i, w);
    } else {
        assert(results.take(w) =~= results);
    }
}

/// The side results a merge starts from: each option with no visits.
fn zero_visits(options: &Vec<MoveChoice>) -> (r: Vec<MctsSideVisits>)
    ensures
        r@.len() == options@.len(),
        forall|i: int|
            0 <= i < options@.len() ==> #[trigger] r@[i] == (MctsSideVisits {
                move_choice: options@[i],
                visits: 0,
            }),
{
    let mut r: Vec<MctsSideVisits> = Vec::new();
    let mut i: usize = 0;
    while i < options.len()
        invariant
            i <= options@.len(),
            r@.len() == i,
            forall|j: int|
                0 <= j < i ==> #[trigger] r@[j] == (MctsSideVisits {
                    move_choice: options@[j],
                    visits: 0,
                }),
        decreases options@.len() - i,
    {
        r.push(MctsSideVisits { move_choice: options[i], visits: 0 });
        i = i + 1;
    }
    r
}

/// Adds one tree's visits to the running totals of one side.
fn add_side_visits(
    totals: &mut Vec<MctsSideVisits>,
    worker: &Vec<MctsSideVisits>,
    results: Ghost<Seq<MctsVisits>>,
    side_two: Ghost<bool>,
    w: Ghost<int>,
)
    requires
        0 <= w@ < results@.len(),
        old(totals)@.len() == worker@.len(),
        forall|i: int|
            0 <= i < worker@.len() ==> (#[trigger] worker@[i]).visits == if side_two@ {
                results@[w@].s2@[i].visits
            } else {
                results@[w@].s1@[i].visits
            },
        forall|i: int|
            0 <= i < worker@.len() ==> (#[trigger] old(totals)@[i]).visits == total_visits(
                results@.take(w@),
                side_two@,
                i,
            ),
        forall|i: int|
            0 <= i < worker@.len() ==> total_visits(results@, side_two@, i) <= u32::MAX,
    ensures
        final(totals)@.len() == old(totals)@.len(),
        forall|i: int|
            0 <= i < worker@.len() ==> #[trigger] final(totals)@[i] == (MctsSideVisits {
                move_choice: old(totals)@[i].move_choice,
                visits: total_visits(results@.take(w@ + 1), side_two@, i) as u32,
            }),
{
    let ghost before = totals@;
    let ghost next = results@.take(w@ + 1);
    assert(next.drop_last() =~= results@.take(w@));
    assert(next.last() == results@[w@]);
    let mut i: usize = 0;
    while i < worker.len()
        invariant
            i <= worker@.len(),
            totals@.len() == before.len(),
            before.len() == worker@.len(),
            next == results@.take(w@ + 1),
            next.drop_last() == results@.take(w@),
            next.last() == results@[w@],
            0 <= w@ < results@.len(),
            forall|j: int|
                0 <= j < worker@.len() ==> (#[trigger] worker@[j]).visits == if side_two@ {
                    results@[w@].s2@[j].visits
                } else {
                    results@[w@].s1@[j].visits
                },
            forall|j: int|
                0 <= j < worker@.len() ==> (#[trigger] before[j]).visits == total_visits(
                    results@.take(w@),
                    side_two@,
                    j,
                ),
            forall|j: int|
                0 <= j < worker@.len() ==> total_visits(results@, side_two@, j) <= u32::MAX,
            forall|j: int|
                0 <= j < i ==> #[trigger] totals@[j] == (MctsSideVisits {
                    move_choice: before[j].move_choice,
                    visits: total_visits(next, side_two@, j) as u32,
                }),
            forall|j: int| i <= j < worker@.len() ==> #[trigger] totals@[j] == before[j],
        decreases worker@.len() - i,
    {
        proof {
            lemma_total_visits_prefix(results@, side_two@, i as int, w@ + 1);
            lemma_total_visits_nonnegative(results@.take(w@), side_two@, i as int);
            lemma_total_visits_nonnegative(next, side_two@, i as int);
        }
        let old_entry = totals[i];
        let sum = old_entry.visits + worker[i].visits;
        totals.set(i, MctsSideVisits { move_choice: old_entry.move_choice, visits: sum });
        i = i + 1;
    }
}

/// Merges the visit counts of the workers' trees: per move of each side, in the
/// order of the given options, the visits of all trees added up, and the
/// iterations of all trees added up.
pub fn merge_mcts_visits(
    results: &Vec<MctsVisits>,
    side_one_options: &Vec<MoveChoice>,
    side_two_options: &Vec<MoveChoice>,
) -> (r: MctsVisits)
    requires
        forall|w: int|
            0 <= w < results@.len() ==> (#[trigger] results@[w]).s1@.len()
                == side_one_options@.len() && results@[w].s2@.len() == side_two_options@.len(),
        total_iterations(results@) <= u32::MAX,
        forall|i: int|
            0 <= i < side_one_options@.len() ==> total_visits(results@, false, i) <= u32::MAX,
        forall|i: int|
            0 <= i < side_two_options@.len() ==> total_visits(results@, true, i) <= u32::MAX,
    ensures
        r.iteration_count == total_iterations(results@),
        r.s1@.len() == side_one_options@.len(),
        r.s2@.len() == side_two_options@.len(),
        forall|i: int|
            0 <= i < side_one_options@.len() ==> #[trigger] r.s1@[i] == (MctsSideVisits {
                move_choice: side_one_options@[i],
                visits: total_visits(results@, false, i) as u32,
            }),
        forall|i: int|
            0 <= i < side_two_options@.len() ==> #[trigger] r.s2@[i] == (MctsSideVisits {
                move_choice: side_two_options@[i],
                visits: total_visits(results@, true, i) as u32,
            }),
{
    let mut s1 = zero_visits(side_one_options);
    let mut s2 = zero_visits(side_two_options);
    let mut iteration_count: u32 = 0;
    let mut w: usize = 0;
    assert(results@.take(0) =~= Seq::<MctsVisits>::empty());
    while w < results.len()
        invariant
            w <= results@.len(),
            forall|v: int|
                0 <= v < results@.len() ==> (#[trigger] results@[v]).s1@.len()
                    == side_one_options@.len() && results@[v].s2@.len()
                    == side_two_options@.len(),
            total_iterations(results@) <= u32::MAX,
            forall|i: int|
                0 <= i < side_one_options@.len() ==> total_visits(results@, false, i) <= u32::MAX,
            forall|i: int|
                0 <= i < side_two_options@.len() ==> total_visits(results@, true, i) <= u32::MAX,
            iteration_count == total_iterations(results@.take(w as int)),
            s1@.len() == side_one_options@.len(),
            s2@.len() == side_two_options@.len(),
            forall|i: int|
                0 <= i < side_one_options@.len() ==> #[trigger] s1@[i] == (MctsSideVisits {
                    move_choice: side_one_options@[i],
                    visits: total_visits(results@.take(w as int), false, i) as u32,
                }),
            forall|i: int|
                0 <= i < side_two_options@.len() ==> #[trigger] s2@[i] == (MctsSideVisits {
                    move_choice: side_two_options@[i],
                    visits: total_visits(results@.take(w as int), true, i) as u32,
                }),
        decreases results@.len() - w,
    {
        let result = &results[w];
        proof {
            assert(result.s1@.len() == side_one_options@.len());
            assert(result.s2@.len() == side_two_options@.len());
            lemma_total_iterations_prefix(results@, w + 1);
            lemma_total_iterations_nonnegative(results@.take(w as int));
            let next = results@.take(w + 1);
            assert(next.drop_last() =~= results@.take(w as int));
            assert(next.last() == results@[w as int]);
            assert forall|i: int| 0 <= i < side_one_options@.len() implies (#[trigger] s1@[i]).visits
                == total_visits(results@.take(w as int), false, i) by {
                lemma_total_visits_prefix(results@, false, i, w as int);
                lemma_total_visits_nonnegative(results@.take(w as int), false, i);
            }
            assert forall|i: int| 0 <= i < side_two_options@.len() implies (#[trigger] s2@[i]).visits
                == total_visits(results@.take(w as int), true, i) by {
                lemma_total_visits_prefix(results@, true, i, w as int);
                lemma_total_visits_nonnegative(results@.take(w as int), true, i);
            }
        }
        iteration_count = iteration_count + result.iteration_count;
        add_side_visits(&mut s1, &result.s1, Ghost(results@), Ghost(false), Ghost(w as int));
        add_side_visits(&mut s2, &result.s2, Ghost(results@), Ghost(true), Ghost(w as int));
        w = w + 1;
    }
    assert(results@.take(results@.len() as int) =~= results@);
    MctsVisits { s1, s2, iteration_count }
}

} // verus!
