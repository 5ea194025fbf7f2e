use vstd::prelude::*;
use vstd::arithmetic::div_mod::lemma_fundamental_div_mod_converse;

verus! {

/// The layout of a rotating multi-beam LiDAR: `num_lasers` lasers stacked
/// vertically, each fired at `num_steps` horizontal angles. The angles are
/// `f32` bit patterns, in radians: laser `i` points at
/// `min_vertical_angle + i * step_vertical_angle`, and firing step `j` at
/// `min_horizontal_angle + j * step_horizontal_angle`.
pub struct Rt3DLidarConfiguration {
    pub num_lasers: usize,
    pub min_vertical_angle: u32,
    pub max_vertical_angle: u32,
    pub step_vertical_angle: u32,
    pub min_horizontal_angle: u32,
    pub max_horizontal_angle: u32,
    pub step_horizontal_angle: u32,
    pub num_steps: usize,
}

/// A LiDAR configuration with the given counts and angles.
pub fn new_lidar_config(
    num_lasers: usize,
    num_steps: usize,
    min_vertical_angle: u32,
    max_vertical_angle: u32,
    step_vertical_angle: u32,
    min_horizontal_angle: u32,
    max_horizontal_angle: u32,
    step_horizontal_angle: u32,
) -> (c: Rt3DLidarConfiguration)
    ensures
        c == (Rt3DLidarConfiguration {
            num_lasers,
            min_vertical_angle,
            max_vertical_angle,
            step_vertical_angle,
            min_horizontal_angle,
            max_horizontal_angle,
            step_horizontal_angle,
            num_steps,
        }),
{
    Rt3DLidarConfiguration {
        num_lasers,
        min_vertical_angle,
        max_vertical_angle,
        step_vertical_angle,
        min_horizontal_angle,
        max_horizontal_angle,
        step_horizontal_angle,
        num_steps,
    }
}

impl Rt3DLidarConfiguration {
    /// The `(laser, step)` pair of every beam, in the order in which the
    /// beam directions are laid out: laser by laser, and within a laser
    /// step by step. Beam number `k` is laser `k / num_steps` at step
    /// `k % num_steps`.
    pub fn beam_indices(&self) -> (r: Vec<(usize, usize)>)
        requires
            self.num_lasers * self.num_steps <= usize::MAX,
        ensures
            r@.len() == self.num_lasers * self.num_steps,
            forall|k: int|
                0 <= k < r@.len() ==> #[trigger] r@[k] == (
                    (k / self.num_steps as int) as usize,
                    (k % self.num_steps as int) as usize,
                ),
    {
        let n = self.num_lasers;
        let m = self.num_steps;
        let mut r: Vec<(usize, usize)> = Vec::new();
        for i in 0..n
            invariant
                n == self.num_lasers,
                m == self.num_steps,
                r@.len() == i * m,
                forall|k: int|
                    0 <= k < r@.len() ==> #[trigger] r@[k] == (
                        (k / m as int) as usize,
                        (k % m as int) as usize,
                    ),
        {
            for j in 0..m
                invariant
                    n == self.num_lasers,
                    m == self.num_steps,
                    i < n,
                    r@.len() == i * m + j,
                    forall|k: int|
                        0 <= k < r@.len() ==> #[trigger] r@[k] == (
                            (k / m as int) as usize,
                            (k % m as int) as usize,
                        ),
            {
                proof {
                    lemma_fundamental_div_mod_converse(i * m + j, m as int, i as int, j as int);
                }
                r.push((i, j));
            }
            assert((i + 1) * m == i * m + m) by (nonlinear_arith);
        }
        r
    }
}

/// The number of `true` entries of `hits`.
pub open spec fn hit_count(hits: Seq<bool>) -> nat
    decreases hits.len(),
{
    if hits.len() == 0 {
        0
    } else {
        hit_count(hits.drop_last()) + if hits.last() {
            1nat
        } else {
            0nat
        }
    }
}

/// The points of `values` (consecutive groups of four entries: point `k`
/// is `values[4k .. 4k + 4]`) for which `hits` says there was a return,
/// concatenated in their original order.
pub open spec fn kept_points<T>(values: Seq<T>, hits: Seq<bool>) -> Seq<T>
    decreases hits.len(),
{
    if hits.len() == 0 {
        Seq::empty()
    } else {
        let k = hits.len() - 1;
        kept_points(values, hits.drop_last()) + if hits.last() {
            values.subrange(4 * k, 4 * k + 4)
        } else {
            Seq::empty()
        }
    }
}

/// Keeps the points of a LiDAR point cloud that hit something. `values`
/// holds four entries per beam (x, y, z, and the range, which is at least
/// the no-hit constant where the beam hit nothing); `hits[k]` says whether
/// beam `k` hit something. The kept points are returned flattened, in
/// their original order.
pub fn hit_points<T: Copy>(values: &[T], hits: &[bool]) -> (r: Vec<T>)
    requires
        values@.len() == 4 * hits@.len(),
    ensures
        r@ == kept_points(values@, hits@),
        r@.len() == 4 * hit_count(hits@),
        forall|k: int, d: int|
            0 <= k < hits@.len() && hits@[k] && 0 <= d < 4 ==> r@[4 * hit_count(hits@.take(k)) + d]
                == #[trigger] values@[4 * k + d],
{
    let mut r: Vec<T> = Vec::new();
    let total = values.len();
    for i in 0..hits.len()
        invariant
            total == values@.len(),
            values@.len() == 4 * hits@.len(),
            r@ == kept_points(values@, hits@.take(i as int)),
    {
        assert(4 * i + 3 < values@.len());
        if hits[i] {
            r.push(values[4 * i]);
            r.push(values[4 * i + 1]);
            r.push(values[4 * i + 2]);
            r.push(values[4 * i + 3]);
        }
        assert(hits@.take(i + 1).drop_last() =~= hits@.take(i as int));
        assert(r@ =~= kept_points(values@, hits@.take(i + 1)));
    }
    assert(hits@.take(hits@.len() as int) =~= hits@);
    proof {
        lemma_hit_points_placement(values@, hits@);
    }
    r
}

/// Law: the kept points are exactly four entries for each beam that hit
/// something; when every beam hit, all of `values` is kept, and when none
/// did, nothing is.
pub proof fn lemma_kept_points_size<T>(values: Seq<T>, hits: Seq<bool>)
    requires
        values.len() == 4 * hits.len(),
    ensures
        kept_points(values, hits).len() == 4 * hit_count(hits),
        (forall|k: int| 0 <= k < hits.len() ==> #[trigger] hits[k]) ==> kept_points(values, hits)
            == values,
        (forall|k: int| 0 <= k < hits.len() ==> !#[trigger] hits[k]) ==> kept_points(values, hits)
            == Seq::<T>::empty(),
    decreases hits.len(),
{
    if hits.len() > 0 {
        let k = hits.len() - 1;
        let front = values.subrange(0, 4 * k);
        lemma_kept_points_prefix(values, hits.drop_last());
        lemma_kept_points_size(front, hits.drop_last());
        assert(kept_points(values, hits.drop_last()) == kept_points(front, hits.drop_last()));
        if forall|k: int| 0 <= k < hits.len() ==> #[trigger] hits[k] {
            assert forall|j: int| 0 <= j < hits.drop_last().len() implies #[trigger] hits.drop_last()[j] by {
                assert(hits[j]);
            }
            assert(values =~= front + values.subrange(4 * k, 4 * k + 4));
        }
        if forall|k: int| 0 <= k < hits.len() ==> !#[trigger] hits[k] {
            assert forall|j: int| 0 <= j < hits.drop_last().len() implies !#[trigger] hits.drop_last()[j] by {
                assert(!hits[j]);
            }
            assert(!hits[k]);
        }
    }
}

/// The kept points of a prefix of the beams only read the entries of those
/// beams.
proof fn lemma_kept_points_prefix<T>(values: Seq<T>, hits: Seq<bool>)
    requires
        values.len() >= 4 * hits.len(),
    ensures
        kept_points(values, hits) == kept_points(values.subrange(0, 4 * hits.len() as int), hits),
    decreases hits.len(),
{
    if hits.len() > 0 {
        let k = hits.len() - 1;
        let front = values.subrange(0, 4 * hits.len() as int);
        lemma_kept_points_prefix(values, hits.drop_last());
        lemma_kept_points_prefix(front, hits.drop_last());
        assert(front.subrange(0, 4 * k) =~= values.subrange(0, 4 * k));
        assert(front.subrange(4 * k, 4 * k + 4) =~= values.subrange(4 * k, 4 * k + 4));
    }
}

/// A prefix of the beams has no more hits than all of them, and a hit
/// beam has strictly fewer hits before it than the whole list has.
proof fn lemma_hit_count_prefix(hits: Seq<bool>, k: int)
    requires
        0 <= k <= hits.len(),
    ensures
        hit_count(hits.take(k)) <= hit_count(hits),
        k < hits.len() && hits[k] ==> hit_count(hits.take(k)) + 1 <= hit_count(hits),
    decreases hits.len(),
{
    if k == hits.len() {
        assert(hits.take(k) =~= hits);
    } else {
        let front = hits.drop_last();
        assert(hits.take(k) =~= front.take(k));
        lemma_hit_count_prefix(front, k);
        if k == front.len() {
            assert(front.take(k) =~= front);
        }
    }
}

/// `hit_count` is the number of beams that hit, as `Seq::filter` counts it.
proof fn lemma_hit_count_is_filter_len(hits: Seq<bool>)
    ensures
        hit_count(hits) == hits.filter(|b: bool| b).len(),
    decreases hits.len(),
{
    reveal(Seq::filter);
    if hits.len() > 0 {
        lemma_hit_count_is_filter_len(hits.drop_last());
    }
}

proof fn lemma_kept_points_placement_prefix<T>(values: Seq<T>, hits: Seq<bool>)
    requires
        values.len() >= 4 * hits.len(),
    ensures
        kept_points(values, hits).len() == 4 * hit_count(hits),
        forall|k: int, d: int|
            0 <= k < hits.len() && hits[k] && 0 <= d < 4 ==> kept_points(values, hits)[4
                * hit_count(hits.take(k)) + d] == #[trigger] values[4 * k + d],
    decreases hits.len(),
{
    if hits.len() > 0 {
        let front = hits.drop_last();
        let n = front.len() as int;
        lemma_kept_points_placement_prefix(values, front);
        assert forall|k: int, d: int|
            0 <= k < hits.len() && hits[k] && 0 <= d < 4 implies kept_points(values, hits)[4
                * hit_count(hits.take(k)) + d] == #[trigger] values[4 * k + d] by {
            if k < n {
                assert(hits.take(k) =~= front.take(k));
                assert(front[k] == hits[k]);
                lemma_hit_count_prefix(front, k);
            } else {
                assert(hits.take(k) =~= front);
            }
        }
    }
}

/// Law: the kept points hold, for every beam `k` that hit, the four entries
/// `values[4k .. 4k + 4]` of that beam at positions `4c .. 4c + 4`, where
/// `c` is the number of hit beams before `k`; there is room for exactly one
/// point per hit beam, and the slots of two hit beams come in beam order.
/// So the result is the points of the hit beams, each whole, in beam order,
/// and nothing else.
pub proof fn lemma_hit_points_placement<T>(values: Seq<T>, hits: Seq<bool>)
    requires
        values.len() == 4 * hits.len(),
    ensures
        kept_points(values, hits).len() == 4 * hits.filter(|b: bool| b).len(),
        kept_points(values, hits).len() == 4 * hit_count(hits),
        forall|k: int, d: int|
            0 <= k < hits.len() && hits[k] && 0 <= d < 4 ==> kept_points(values, hits)[4
                * hit_count(hits.take(k)) + d] == #[trigger] values[4 * k + d],
        forall|k1: int, k2: int|
            0 <= k1 < k2 < hits.len() && hits[k1] ==> hit_count(#[trigger] hits.take(k1)) + 1
                <= hit_count(#[trigger] hits.take(k2)),
{
    lemma_kept_points_placement_prefix(values, hits);
    lemma_hit_count_is_filter_len(hits);
    assert forall|k1: int, k2: int|
        0 <= k1 < k2 < hits.len() && hits[k1] implies hit_count(#[trigger] hits.take(k1)) + 1
            <= hit_count(#[trigger] hits.take(k2)) by {
        lemma_hit_count_prefix(hits.take(k2), k1);
        assert(hits.take(k2).take(k1) =~= hits.take(k1));
    }
}

/// Law: beam `i * num_steps + j` of the layout is laser `i` at step `j`,
/// for every laser `i` and every step `j`.
pub proof fn lemma_beam_position(num_lasers: int, num_steps: int, i: int, j: int)
    requires
        0 <= i < num_lasers,
        0 <= j < num_steps,
    ensures
        0 <= i * num_steps + j < num_lasers * num_steps,
        (i * num_steps + j) / num_steps == i,
        (i * num_steps + j) % num_steps == j,
{
    lemma_fundamental_div_mod_converse(i * num_steps + j, num_steps, i, j);
    assert(0 <= i * num_steps + j < num_lasers * num_steps) by (nonlinear_arith)
        requires
            0 <= i < num_lasers,
            0 <= j < num_steps,
    ;
}

} // verus!
