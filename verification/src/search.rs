//! The integer planning of the expectiminimax root search: when the root is
//! searched in parallel, how its rows are split into contiguous chunks for the
//! workers, and how the rows the workers return are put back in row order.

use vstd::prelude::*;

verus! {

broadcast use Seq::lemma_flatten_push;

/// How many workers search the root: no more than there are side-one moves.
pub fn root_search_worker_count(available_workers: usize, num_s1_moves: usize) -> (r: usize)
    ensures
        r == if available_workers <= num_s1_moves {
            available_workers
        } else {
            num_s1_moves
        },
{
    if available_workers <= num_s1_moves {
        available_workers
    } else {
        num_s1_moves
    }
}

/// Whether the root is searched in parallel: there are at least two workers, the
/// search goes deeper than one ply, and every worker gets at least two move pairs.
pub open spec fn root_is_searched_in_parallel(
    worker_count: int,
    depth: int,
    num_s1_moves: int,
    num_s2_moves: int,
) -> bool {
    !(worker_count <= 1 || depth <= 1 || num_s1_moves * num_s2_moves < worker_count * 2)
}

/// Decides between the sequential and the parallel root search.
pub fn search_root_in_parallel(
    worker_count: usize,
    depth: i8,
    num_s1_moves: usize,
    num_s2_moves: usize,
) -> (r: bool)
    requires
        num_s1_moves * num_s2_moves <= usize::MAX,
        worker_count * 2 <= usize::MAX,
    ensures
        r == root_is_searched_in_parallel(
            worker_count as int,
            depth as int,
            num_s1_moves as int,
            num_s2_moves as int,
        ),
{
    let num_move_pairs = num_s1_moves * num_s2_moves;
    !(worker_count <= 1 || depth <= 1 || num_move_pairs < worker_count * 2)
}

/// The number of rows each worker takes: the rows shared out evenly, rounded up.
pub open spec fn chunk_size(num_rows: int, worker_count: int) -> int {
    (num_rows + worker_count - 1) / worker_count
}

/// The chunk ranges of rows `start..end` for the given number of workers: ranges
/// of `chunk_size` rows from `start` on, the last one cut at `end`.
pub open spec fn is_chunking(ranges: Seq<(usize, usize)>, start: int, end: int, chunk: int) -> bool {
    &&& ranges.len() > 0
    &&& forall|k: int|
        0 <= k < ranges.len() ==> {
            &&& (#[trigger] ranges[k]).0 == start + k * chunk
            &&& ranges[k].1 == if start + (k + 1) * chunk <= end {
                start + (k + 1) * chunk
            } else {
                end
            }
            &&& ranges[k].0 < ranges[k].1
        }
    &&& ranges.last().1 == end
}

/// Splits the rows `start..end` into contiguous chunks, one per worker at most,
/// each of `chunk_size` rows but the last, which may be shorter.
pub fn root_chunk_ranges(start: usize, end: usize, worker_count: usize) -> (r: Vec<(usize, usize)>)
    requires
        start < end,
        worker_count > 0,
        end - start + worker_count - 1 <= usize::MAX,
    ensures
        is_chunking(r@, start as int, end as int, chunk_size(end - start, worker_count as int)),
        chunk_size(end - start, worker_count as int) >= 1,
        r@.len() <= worker_count,
{
    let chunk = (end - start + (worker_count - 1)) / worker_count;
    let ghost c = chunk as int;
    let ghost len = (end - start) as int;
    let ghost w = worker_count as int;
    assert(c >= 1) by (nonlinear_arith)
        requires
            c == (len + w - 1) / w,
            len >= 1,
            w >= 1,
    ;
    assert(c * w >= len) by (nonlinear_arith)
        requires
            c == (len + w - 1) / w,
            len >= 1,
            w >= 1,
    ;
    let mut ranges: Vec<(usize, usize)> = Vec::new();
    let mut s = start;
    while s < end
        invariant
            start <= s <= end,
            c == chunk,
            c >= 1,
            c * w >= len,
            len == end - start,
            s == start + ranges@.len() * c || s == end,
            s < end ==> s == start + ranges@.len() * c,
            ranges@.len() > 0 ==> ranges@.last().1 == s,
            ranges@.len() == 0 ==> s == start,
            (ranges@.len() as int - 1) * c < len,
            forall|k: int|
                0 <= k < ranges@.len() ==> {
                    &&& (#[trigger] ranges@[k]).0 == start + k * c
                    &&& ranges@[k].1 == if start + (k + 1) * c <= end {
                        start + (k + 1) * c
                    } else {
                        end as int
                    }
                    &&& ranges@[k].0 < ranges@[k].1
                },
        decreases end - s,
    {
        let e = if chunk <= end - s {
            s + chunk
        } else {
            end
        };
        let ghost k = ranges@.len() as int;
        assert(s == start + k * c);
        assert((k + 1) * c == k * c + c) by (nonlinear_arith);
        ranges.push((s, e));
        s = e;
        proof {
            if s < end {
                assert(s == start + ranges@.len() * c) by (nonlinear_arith)
                    requires
                        s == start + k * c + c,
                        ranges@.len() == k + 1,
                ;
            }
            assert((ranges@.len() as int - 1) * c < len) by (nonlinear_arith)
                requires
                    ranges@.len() == k + 1,
                    start + k * c < end,
                    len == end - start,
            ;
        }
    }
    proof {
        let n = ranges@.len() as int;
        assert(n <= w) by (nonlinear_arith)
            requires
                (n - 1) * c < len,
                c * w >= len,
                c >= 1,
        ;
    }
    ranges
}

/// Every row of `start..end` lies in exactly one of the chunk ranges: the workers
/// between them compute each row once.
pub proof fn lemma_chunks_cover_each_row_once(
    ranges: Seq<(usize, usize)>,
    start: int,
    end: int,
    chunk: int,
    row: int,
)
    requires
        is_chunking(ranges, start, end, chunk),
        chunk >= 1,
        start <= row < end,
    ensures
        exists|k: int| 0 <= k < ranges.len() && (#[trigger] ranges[k]).0 <= row < ranges[k].1,
        forall|k1: int, k2: int|
            0 <= k1 < ranges.len() && 0 <= k2 < ranges.len() && (#[trigger] ranges[k1]).0 <= row
                < ranges[k1].1 && (#[trigger] ranges[k2]).0 <= row < ranges[k2].1 ==> k1 == k2,
{
    let k = (row - start) / chunk;
    assert(k * chunk <= row - start < (k + 1) * chunk) by (nonlinear_arith)
        requires
            k == (row - start) / chunk,
            chunk >= 1,
            row >= start,
    ;
    assert(0 <= k) by (nonlinear_arith)
        requires
            k == (row - start) / chunk,
            chunk >= 1,
            row >= start,
    ;
    let n = ranges.len() as int;
    if k >= n {
        let last = ranges[n - 1];
        assert(last.1 <= start + n * chunk);
        assert(n * chunk <= k * chunk) by (nonlinear_arith)
            requires
                n <= k,
                chunk >= 1,
        ;
        assert(false);
    }
    assert(ranges[k].0 <= row < ranges[k].1);
    assert forall|k1: int, k2: int|
        0 <= k1 < ranges.len() && 0 <= k2 < ranges.len() && (#[trigger] ranges[k1]).0 <= row
            < ranges[k1].1 && (#[trigger] ranges[k2]).0 <= row < ranges[k2].1 implies k1 == k2 by {
        if k1 < k2 {
            assert(ranges[k1].1 <= start + (k1 + 1) * chunk);
            assert((k1 + 1) * chunk <= k2 * chunk) by (nonlinear_arith)
                requires
                    k1 + 1 <= k2,
                    chunk >= 1,
            ;
        } else if k2 < k1 {
            assert(ranges[k2].1 <= start + (k2 + 1) * chunk);
            assert((k2 + 1) * chunk <= k1 * chunk) by (nonlinear_arith)
                requires
                    k2 + 1 <= k1,
                    chunk >= 1,
            ;
        }
    }
}


/// Whether one of the workers' rows has the given row index.
pub open spec fn has_row<T>(rows: Seq<(usize, Vec<T>)>, i: int) -> bool {
    exists|k: int| 0 <= k < rows.len() && (#[trigger] rows[k]).0 == i
}

/// Whether the workers' rows hold every row index `0..num_rows` exactly once.
pub open spec fn rows_cover_each_index_once<T>(rows: Seq<(usize, Vec<T>)>, num_rows: int) -> bool {
    &&& rows.len() == num_rows
    &&& forall|k: int| 0 <= k < rows.len() ==> (#[trigger] rows[k]).0 < num_rows
    &&& forall|i: int| 0 <= i < num_rows ==> #[trigger] has_row(rows, i)
    &&& forall|k1: int, k2: int|
        0 <= k1 < rows.len() && 0 <= k2 < rows.len() && k1 != k2 ==> (#[trigger] rows[k1]).0
            != (#[trigger] rows[k2]).0
}

/// The position among the workers' rows of the row with the given index.
pub open spec fn position_of_row<T>(rows: Seq<(usize, Vec<T>)>, i: int) -> int {
    choose|k: int| 0 <= k < rows.len() && (#[trigger] rows[k]).0 == i
}

/// The workers' rows, put in row-index order.
pub open spec fn rows_in_index_order<T>(rows: Seq<(usize, Vec<T>)>, num_rows: int) -> Seq<Seq<T>> {
    Seq::new(num_rows as nat, |i: int| rows[position_of_row(rows, i)].1@)
}

/// Puts the rows that the workers computed back in row order and lays them end to
/// end: the score table of the whole root, row after row.
pub fn assemble_root_rows<T: Copy>(rows: &Vec<(usize, Vec<T>)>, num_rows: usize) -> (r: Vec<T>)
    requires
        rows_cover_each_index_once(rows@, num_rows as int),
    ensures
        r@ == rows_in_index_order(rows@, num_rows as int).flatten(),
{
    let mut order: Vec<usize> = Vec::new();
    let mut i: usize = 0;
    while i < num_rows
        invariant
            i <= num_rows,
            order@.len() == i,
        decreases num_rows - i,
    {
        order.push(0);
        i = i + 1;
    }
    let mut k: usize = 0;
    while k < num_rows
        invariant
            rows_cover_each_index_once(rows@, num_rows as int),
            k <= num_rows,
            order@.len() == num_rows,
            forall|k2: int| 0 <= k2 < k ==> order@[(#[trigger] rows@[k2]).0 as int] == k2,
        decreases num_rows - k,
    {
        let idx = rows[k].0;
        order.set(idx, k);
        proof {
            assert forall|k2: int| 0 <= k2 < k + 1 implies order@[(#[trigger] rows@[k2]).0 as int]
                == k2 by {
                if k2 < k {
                    assert(rows@[k2].0 != rows@[k as int].0);
                }
            }
        }
        k = k + 1;
    }
    let ghost ordered = rows_in_index_order(rows@, num_rows as int);
    proof {
        assert forall|i2: int| 0 <= i2 < num_rows implies order@[i2] == position_of_row(rows@, i2)
            && 0 <= order@[i2] < num_rows by {
            assert(has_row(rows@, i2));
            let p = position_of_row(rows@, i2);
            assert(rows@[p].0 == i2);
            assert(order@[rows@[p].0 as int] == p);
        }
    }
    let mut result: Vec<T> = Vec::new();
    let mut i: usize = 0;
    while i < num_rows
        invariant
            rows_cover_each_index_once(rows@, num_rows as int),
            i <= num_rows,
            order@.len() == num_rows,
            ordered == rows_in_index_order(rows@, num_rows as int),
            forall|i2: int|
                0 <= i2 < num_rows ==> order@[i2] == position_of_row(rows@, i2) && 0 <= order@[i2]
                    < num_rows,
            result@ == ordered.take(i as int).flatten(),
        decreases num_rows - i,
    {
        let p = order[i];
        let row = &rows[p].1;
        let ghost before = result@;
        let mut j: usize = 0;
        while j < row.len()
            invariant
                j <= row@.len(),
                result@ == before + row@.take(j as int),
            decreases row@.len() - j,
        {
            result.push(row[j]);
            proof {
                assert(row@.take(j + 1) == row@.take(j as int).push(row@[j as int]));
            }
            j = j + 1;
        }
        proof {
            assert(row@.take(j as int) == row@);
            assert(ordered[i as int] == row@);
            assert(ordered.take(i + 1) == ordered.take(i as int).push(ordered[i as int]));
        }
        i = i + 1;
    }
    proof {
        assert(ordered.take(num_rows as int) == ordered);
    }
    result
}


/// When the workers hand their rows back already in row order, as they do when
/// each chunk keeps its rows in order and the chunks are joined in order, the
/// assembled table is those rows laid end to end: the same table a sequential
/// search of the root builds.
pub proof fn lemma_rows_in_order_assemble_sequentially<T>(rows: Seq<(usize, Vec<T>)>)
    requires
        forall|k: int| 0 <= k < rows.len() ==> (#[trigger] rows[k]).0 == k,
    ensures
        rows_cover_each_index_once(rows, rows.len() as int),
        rows_in_index_order(rows, rows.len() as int) == Seq::new(rows.len(), |k: int| rows[k].1@),
{
    assert forall|i: int| 0 <= i < rows.len() implies #[trigger] has_row(rows, i) by {
        assert(rows[i].0 == i);
    }
    assert forall|i: int| 0 <= i < rows.len() implies position_of_row(rows, i) == i by {
        assert(has_row(rows, i));
        assert(rows[i].0 == i);
    }
    assert(rows_in_index_order(rows, rows.len() as int) =~= Seq::new(
        rows.len(),
        |k: int| rows[k].1@,
    ));
}


/// The rows of one chunk, in the order its worker computes them.
pub open spec fn range_rows(range: (usize, usize)) -> Seq<int> {
    Seq::new((range.1 - range.0) as nat, |j: int| range.0 + j)
}

/// The rows of all chunks, in the order the workers' results are joined.
pub open spec fn chunk_row_order(ranges: Seq<(usize, usize)>) -> Seq<int> {
    Seq::new(ranges.len(), |k: int| range_rows(ranges[k])).flatten()
}

/// The rows of the first `m` chunks, joined, are the rows from `start` up to where
/// the `m`-th chunk ends.
proof fn lemma_chunk_prefix_rows(ranges: Seq<(usize, usize)>, start: int, end: int, chunk: int, m: int)
    requires
        is_chunking(ranges, start, end, chunk),
        chunk >= 1,
        1 <= m <= ranges.len(),
    ensures
        Seq::new(m as nat, |k: int| range_rows(ranges[k])).flatten() == Seq::new(
            (ranges[m - 1].1 - start) as nat,
            |k: int| start + k,
        ),
    decreases m,
{
    let g = |k: int| range_rows(ranges[k]);
    let cur = ranges[m - 1];
    assert(Seq::new(m as nat, g) =~= Seq::new((m - 1) as nat, g).push(g(m - 1)));
    if m > 1 {
        lemma_chunk_prefix_rows(ranges, start, end, chunk, m - 1);
        let prev = ranges[m - 2];
        assert(prev.1 == cur.0) by {
            assert(cur.0 == start + (m - 1) * chunk);
            assert(cur.0 < cur.1 <= end);
            assert((m - 2 + 1) * chunk == (m - 1) * chunk);
        }
        assert(Seq::new((prev.1 - start) as nat, |k: int| start + k) + range_rows(cur) =~= Seq::new(
            (cur.1 - start) as nat,
            |k: int| start + k,
        ));
    } else {
        assert(Seq::new(0, g).flatten() =~= Seq::<int>::empty());
        assert(cur.0 == start);
        assert(Seq::<int>::empty() + range_rows(cur) =~= Seq::new(
            (cur.1 - start) as nat,
            |k: int| start + k,
        ));
    }
}

/// Joining the chunks' rows in chunk order gives the rows in plain order, so the
/// workers hand their rows back in row order and the assembled table is the one a
/// sequential search builds.
pub proof fn lemma_chunk_rows_come_in_order(
    ranges: Seq<(usize, usize)>,
    start: int,
    end: int,
    chunk: int,
)
    requires
        is_chunking(ranges, start, end, chunk),
        chunk >= 1,
    ensures
        chunk_row_order(ranges) == Seq::new((end - start) as nat, |k: int| start + k),
{
    lemma_chunk_prefix_rows(ranges, start, end, chunk, ranges.len() as int);
}

} // verus!
