//! Repair of self-intersecting outlines.
//!
//! Two edges of an outline that cross form a "bowtie". Reversing the run of
//! vertices between the two edges untangles it. The repair scans the pairs
//! of edges in a fixed order, untangles the first crossing it finds, and
//! starts over, until a scan finds none or the iteration cap is reached.

use crate::geometry::{next_index, segments_intersect, spec_segments_intersect, Point};
use vstd::prelude::*;

verus! {

/// The edges that start at the vertices `i` and `j` are compared by the
/// scan: `i` comes at least two before `j`, the pair is not the last edge
/// with the first (which are neighbours too), and the edges share no
/// endpoint.
pub open spec fn is_scanned_pair(s: Seq<Point>, i: int, j: int) -> bool {
    let n = s.len() as int;
    &&& 0 <= i
    &&& i + 2 <= j < n
    &&& !(i == 0 && j == n - 1)
    &&& s[i] != s[j]
    &&& s[i] != s[next_index(j, n)]
    &&& s[next_index(i, n)] != s[j]
    &&& s[next_index(i, n)] != s[next_index(j, n)]
}

/// The scan finds a crossing at the pair of edges that start at `i` and `j`.
pub open spec fn edges_cross(s: Seq<Point>, i: int, j: int) -> bool {
    let n = s.len() as int;
    &&& is_scanned_pair(s, i, j)
    &&& spec_segments_intersect(s[i], s[next_index(i, n)], s[j], s[next_index(j, n)])
}

/// The pair `(a, b)` comes before the pair `(i, j)` in the order of the scan.
pub open spec fn scanned_before(a: int, b: int, i: int, j: int) -> bool {
    a < i || (a == i && b < j)
}

/// `(i, j)` is the first crossing in the order of the scan.
pub open spec fn is_first_crossing(s: Seq<Point>, i: int, j: int) -> bool {
    &&& edges_cross(s, i, j)
    &&& forall|a: int, b: int| scanned_before(a, b, i, j) ==> !#[trigger] edges_cross(s, a, b)
}

/// A scan of the outline finds a crossing. An outline of fewer than four
/// vertices has none.
pub open spec fn has_crossing(s: Seq<Point>) -> bool {
    exists|i: int, j: int| #[trigger] edges_cross(s, i, j)
}

/// The outline `s` with the vertices `lo..=hi` in reverse order.
pub open spec fn reverse_range(s: Seq<Point>, lo: int, hi: int) -> Seq<Point> {
    Seq::new(
        s.len(),
        |k: int|
            if lo <= k <= hi {
                s[lo + hi - k]
            } else {
                s[k]
            },
    )
}

/// One iteration of the repair: the vertices strictly between the two edges
/// of the first crossing are reversed; an outline without a crossing stays.
pub open spec fn repair_step(s: Seq<Point>) -> Seq<Point> {
    if has_crossing(s) {
        let (i, j) = choose|i: int, j: int| is_first_crossing(s, i, j);
        reverse_range(s, i + 1, j)
    } else {
        s
    }
}

/// The outline after at most `fuel` iterations of the repair.
pub open spec fn repair(s: Seq<Point>, fuel: nat) -> Seq<Point>
    decreases fuel,
{
    if fuel == 0 || !has_crossing(s) {
        s
    } else {
        repair(repair_step(s), (fuel - 1) as nat)
    }
}

/// The iteration cap for an outline of `n` vertices.
pub open spec fn repair_cap(n: nat) -> nat {
    n * n
}

/// The first crossing is unique, so [`repair_step`] reverses at `(i, j)`.
pub proof fn lemma_first_crossing_unique(s: Seq<Point>, i: int, j: int)
    requires
        is_first_crossing(s, i, j),
    ensures
        has_crossing(s),
        repair_step(s) == reverse_range(s, i + 1, j),
{
    assert(edges_cross(s, i, j));
    let (a, b) = choose|a: int, b: int| is_first_crossing(s, a, b);
    assert(is_first_crossing(s, a, b));
    if scanned_before(a, b, i, j) {
        assert(!edges_cross(s, a, b));
    }
    if scanned_before(i, j, a, b) {
        assert(!edges_cross(s, i, j));
    }
    assert(a == i && b == j);
}

/// An outline with a crossing has a first crossing.
pub proof fn lemma_first_crossing_exists(s: Seq<Point>)
    requires
        has_crossing(s),
    ensures
        exists|i: int, j: int| is_first_crossing(s, i, j),
{
    let (a, b) = choose|a: int, b: int| #[trigger] edges_cross(s, a, b);
    lemma_first_crossing_before(s, a, b, a * s.len() + b);
}

proof fn lemma_first_crossing_before(s: Seq<Point>, a: int, b: int, rank: int)
    requires
        edges_cross(s, a, b),
        rank == a * s.len() + b,
    ensures
        exists|i: int, j: int| is_first_crossing(s, i, j),
    decreases rank,
{
    if exists|c: int, d: int| scanned_before(c, d, a, b) && #[trigger] edges_cross(s, c, d) {
        let (c, d) = choose|c: int, d: int|
            scanned_before(c, d, a, b) && #[trigger] edges_cross(s, c, d);
        let n = s.len() as int;
        assert(c * n + d < a * n + b) by (nonlinear_arith)
            requires
                0 <= c,
                0 <= d < n,
                0 <= b < n,
                c < a || (c == a && d < b),
        ;
        assert(c * n + d >= 0) by (nonlinear_arith)
            requires
                0 <= c,
                0 <= d,
                0 <= n,
        ;
        lemma_first_crossing_before(s, c, d, c * n + d);
    } else {
        assert(is_first_crossing(s, a, b));
    }
}

/// The number of iterations that the repair of `s` makes with `fuel`
/// iterations allowed.
pub open spec fn repair_iterations(s: Seq<Point>, fuel: nat) -> nat
    decreases fuel,
{
    if fuel == 0 || !has_crossing(s) {
        0
    } else {
        1 + repair_iterations(repair_step(s), (fuel - 1) as nat)
    }
}

/// The repair leaves an outline without a crossing as it is: a second run
/// on a repaired outline changes nothing.
pub proof fn lemma_repair_of_simple_outline(s: Seq<Point>, fuel: nat)
    requires
        !has_crossing(s),
    ensures
        repair(s, fuel) == s,
        repair_iterations(s, fuel) == 0,
{
}

/// The repair ends with an outline on which a scan finds no crossing,
/// unless it has used up the iterations that it was allowed.
pub proof fn lemma_repair_ends_simple(s: Seq<Point>, fuel: nat)
    ensures
        !has_crossing(repair(s, fuel)) || repair_iterations(s, fuel) == fuel,
        repair_iterations(s, fuel) <= fuel,
    decreases fuel,
{
    if fuel > 0 && has_crossing(s) {
        lemma_repair_ends_simple(repair_step(s), (fuel - 1) as nat);
    }
}

/// The repair keeps the number of vertices.
pub proof fn lemma_repair_keeps_length(s: Seq<Point>, fuel: nat)
    ensures
        repair(s, fuel).len() == s.len(),
    decreases fuel,
{
    if fuel > 0 && has_crossing(s) {
        lemma_first_crossing_exists(s);
        let (i, j) = choose|i: int, j: int| is_first_crossing(s, i, j);
        assert(repair_step(s) == reverse_range(s, i + 1, j));
        lemma_repair_keeps_length(repair_step(s), (fuel - 1) as nat);
    }
}

/// Reversing a run of vertices keeps the vertices: each occurs as often
/// as before.
pub proof fn lemma_reverse_range_permutes(s: Seq<Point>, lo: int, hi: int)
    requires
        0 <= lo <= hi < s.len(),
    ensures
        reverse_range(s, lo, hi).to_multiset() == s.to_multiset(),
{
    let head = s.subrange(0, lo);
    let middle = s.subrange(lo, hi + 1);
    let tail = s.subrange(hi + 1, s.len() as int);
    assert(s =~= head + middle + tail);
    assert(reverse_range(s, lo, hi) =~= head + middle.reverse() + tail);
    middle.lemma_reverse_to_multiset();
    vstd::seq_lib::lemma_multiset_commutative(head, middle);
    vstd::seq_lib::lemma_multiset_commutative(head + middle, tail);
    vstd::seq_lib::lemma_multiset_commutative(head, middle.reverse());
    vstd::seq_lib::lemma_multiset_commutative(head + middle.reverse(), tail);
}

/// The repair keeps the vertices of the outline: it only changes their
/// order.
pub proof fn lemma_repair_permutes(s: Seq<Point>, fuel: nat)
    ensures
        repair(s, fuel).to_multiset() == s.to_multiset(),
    decreases fuel,
{
    if fuel > 0 && has_crossing(s) {
        lemma_first_crossing_exists(s);
        let (i, j) = choose|i: int, j: int| is_first_crossing(s, i, j);
        assert(repair_step(s) == reverse_range(s, i + 1, j));
        lemma_reverse_range_permutes(s, i + 1, j);
        lemma_repair_permutes(repair_step(s), (fuel - 1) as nat);
    }
}

proof fn lemma_cap_fits(n: usize)
    ensures
        repair_cap(n as nat) == n * n,
        n * n <= u128::MAX,
        n >= 1 ==> n * n >= 1,
{
    assert(n * n <= 0xffff_ffff_ffff_ffff * 0xffff_ffff_ffff_ffff) by (nonlinear_arith)
        requires
            0 <= n <= 0xffff_ffff_ffff_ffff,
    ;
    assert(0xffff_ffff_ffff_ffffint * 0xffff_ffff_ffff_ffffint <= u128::MAX) by (nonlinear_arith);
    assert(n >= 1 ==> n * n >= 1) by (nonlinear_arith);
}

/// Finds the first pair of edges that cross, in the order of the scan: by
/// the first edge, then by the second.
pub fn find_first_crossing(points: &Vec<Point>) -> (found: Option<(usize, usize)>)
    ensures
        found.is_some() == has_crossing(points@),
        found matches Some((i, j)) ==> is_first_crossing(points@, i as int, j as int),
{
    let count: usize = points.len();
    if count < 4 {
        assert forall|a: int, b: int| !#[trigger] edges_cross(points@, a, b) by {}
        return None;
    }
    let mut i: usize = 0;
    while i + 2 < count
        invariant
            count == points@.len(),
            count >= 4,
            i + 2 <= count,
            forall|a: int, b: int| a < i ==> !#[trigger] edges_cross(points@, a, b),
        decreases count - i,
    {
        let a1: Point = points[i];
        let a2: Point = points[i + 1];
        let mut j: usize = i + 2;
        while j < count
            invariant
                count == points@.len(),
                count >= 4,
                i + 2 <= j <= count,
                a1 == points@[i as int],
                a2 == points@[next_index(i as int, count as int)],
                forall|a: int, b: int|
                    scanned_before(a, b, i as int, j as int) ==> !#[trigger] edges_cross(
                        points@,
                        a,
                        b,
                    ),
            decreases count - j,
        {
            if !(i == 0 && j == count - 1) {
                let b1: Point = points[j];
                let b2: Point = points[if j + 1 == count { 0 } else { j + 1 }];
                if !(a1 == b1 || a1 == b2 || a2 == b1 || a2 == b2) {
                    if segments_intersect(&a1, &a2, &b1, &b2) {
                        assert(edges_cross(points@, i as int, j as int));
                        return Some((i, j));
                    }
                }
            }
            assert(!edges_cross(points@, i as int, j as int));
            j = j + 1;
        }
        i = i + 1;
    }
    assert forall|a: int, b: int| !#[trigger] edges_cross(points@, a, b) by {
        if a < i {
        } else {
            assert(!is_scanned_pair(points@, a, b));
        }
    }
    None
}

/// Reverses the vertices `lo..=hi` in place.
pub fn reverse_vertices(points: &mut Vec<Point>, lo: usize, hi: usize)
    requires
        lo <= hi < old(points)@.len(),
    ensures
        final(points)@ == reverse_range(old(points)@, lo as int, hi as int),
{
    let mut a: usize = lo;
    let mut b: usize = hi;
    while a < b
        invariant
            lo <= a,
            b <= hi,
            a + b == lo + hi,
            a <= b + 1,
            hi < points@.len(),
            points@.len() == old(points)@.len(),
            forall|k: int|
                0 <= k < points@.len() ==> #[trigger] points@[k] == if (lo <= k < a) || (b < k
                    <= hi) {
                    old(points)@[lo + hi - k]
                } else {
                    old(points)@[k]
                },
        decreases b + 1 - a,
    {
        let first: Point = points[a];
        let second: Point = points[b];
        points[a] = second;
        points[b] = first;
        a = a + 1;
        b = b - 1;
    }
    assert(points@ =~= reverse_range(old(points)@, lo as int, hi as int));
}

/// Untangles the self-intersections of the outline `points`.
///
/// Each iteration scans the pairs of edges, reverses the vertices between
/// the two edges of the first crossing found, and starts over. The repair
/// ends when a scan finds no crossing, or after as many iterations as the
/// square of the number of vertices; the outline may then still cross
/// itself. Returns whether the outline was changed.
pub fn fix_self_intersections(points: &mut Vec<Point>) -> (updated: bool)
    ensures
        final(points)@ == repair(old(points)@, repair_cap(old(points)@.len())),
        updated == has_crossing(old(points)@),
        final(points)@.len() == old(points)@.len(),
{
    if points.len() < 4 {
        proof {
            let s = old(points)@;
            assert forall|a: int, b: int| !#[trigger] edges_cross(s, a, b) by {}
        }
        return false;
    }
    let count: usize = points.len();
    proof {
        lemma_cap_fits(count);
    }
    let max_iterations: u128 = (count as u128) * (count as u128);
    let mut iterations: u128 = 0;
    let mut updated: bool = false;
    while iterations < max_iterations
        invariant
            iterations <= max_iterations,
            points@.len() == old(points)@.len(),
            count == points@.len(),
            max_iterations >= 1,
            repair(old(points)@, max_iterations as nat) == repair(
                points@,
                (max_iterations - iterations) as nat,
            ),
            updated ==> has_crossing(old(points)@),
            !updated ==> points@ == old(points)@ && iterations == 0,
        ensures
            final(points)@ == repair(old(points)@, max_iterations as nat),
            updated == has_crossing(old(points)@),
            points@.len() == old(points)@.len(),
        decreases max_iterations - iterations,
    {
        match find_first_crossing(points) {
            None => {
                break ;
            },
            Some((i, j)) => {
                proof {
                    lemma_first_crossing_unique(points@, i as int, j as int);
                }
                reverse_vertices(points, i + 1, j);
                updated = true;
                iterations = iterations + 1;
            },
        }
    }
    updated
}

} // verus!
