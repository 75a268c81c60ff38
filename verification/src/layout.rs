//! The packed-storage layout: where each layer's parameter sets live in
//! the contiguous block, and what the index table must contain.
//!
//! Layers are packed in order; within a layer, one parameter set per
//! stored frame, in frame order.  All offsets are prefix sums over the
//! *preceding* layers' entry and value counts.

use crate::frames::{
    lens_frame_count, spec_entry_frame, spec_layer_frame_count, spec_valid_range,
};
use crate::models::{spec_parameter_size, BindLensModelType};
use crate::storage::{model_list_seq, range_list_seq, ModelList, RangeList};
use crate::types::{FrameNumber, LayerIndex, LayerSize, ParameterIndex, ParameterSize};
use vstd::arithmetic::mul::{lemma_mul_inequality, lemma_mul_nonnegative};
use vstd::prelude::*;

verus! {

/// The key under which the raw scalars of `(layer, frame)` are stored in
/// the input parameter map: the layer index in the high 32 bits, the
/// frame number (shifted to be non-negative) in the low 32 bits.
pub open spec fn spec_param_key(layer: int, frame: int) -> u64 {
    (layer * 0x1_0000_0000 + (frame - (FrameNumber::MIN as int))) as u64
}

/// Builds the input-map key for `(layer, frame)`.
pub fn param_key(layer: LayerIndex, frame: FrameNumber) -> (r: u64)
    ensures
        r == spec_param_key(layer as int, frame as int),
{
    (layer as u64) * 0x1_0000_0000u64 + ((frame as i64 - (FrameNumber::MIN as i64)) as u64)
}

/// Total number of index entries contributed by layers `0..n`.
pub open spec fn entry_count_below(ranges: Seq<(FrameNumber, FrameNumber)>, n: int) -> int
    decreases n,
{
    if n <= 0 {
        0
    } else {
        entry_count_below(ranges, n - 1) + spec_layer_frame_count(ranges[n - 1])
    }
}

/// Total number of parameter scalars contributed by layers `0..n`.
pub open spec fn value_count_below(
    models: Seq<BindLensModelType>,
    ranges: Seq<(FrameNumber, FrameNumber)>,
    n: int,
) -> int
    decreases n,
{
    if n <= 0 {
        0
    } else {
        value_count_below(models, ranges, n - 1) + spec_layer_frame_count(ranges[n - 1])
            * spec_parameter_size(models[n - 1])
    }
}

/// The `(offset, length)` index entry of the `j`-th stored parameter set
/// of layer `L`.
pub open spec fn packed_entry(
    models: Seq<BindLensModelType>,
    ranges: Seq<(FrameNumber, FrameNumber)>,
    L: int,
    j: int,
) -> (ParameterIndex, ParameterSize) {
    (
        (value_count_below(models, ranges, L) + j * spec_parameter_size(models[L]))
            as ParameterIndex,
        spec_parameter_size(models[L]) as ParameterSize,
    )
}

/// The index entries of layer `L`, in frame order.
pub open spec fn layer_entries(
    models: Seq<BindLensModelType>,
    ranges: Seq<(FrameNumber, FrameNumber)>,
    L: int,
) -> Seq<(ParameterIndex, ParameterSize)> {
    Seq::new(
        spec_layer_frame_count(ranges[L]) as nat,
        |j: int| packed_entry(models, ranges, L, j),
    )
}

/// The whole index table of layers `0..n`: layer by layer, frame by frame.
pub open spec fn packed_indices(
    models: Seq<BindLensModelType>,
    ranges: Seq<(FrameNumber, FrameNumber)>,
    n: int,
) -> Seq<(ParameterIndex, ParameterSize)>
    decreases n,
{
    if n <= 0 {
        Seq::empty()
    } else {
        packed_indices(models, ranges, n - 1) + layer_entries(models, ranges, n - 1)
    }
}

/// The scalars of the first `j` stored parameter sets of layer `L`,
/// taken from the input parameter map.
pub open spec fn layer_values_upto(
    models: Seq<BindLensModelType>,
    ranges: Seq<(FrameNumber, FrameNumber)>,
    pmap: Map<u64, Seq<u64>>,
    L: int,
    j: int,
) -> Seq<u64>
    decreases j,
{
    if j <= 0 {
        Seq::empty()
    } else {
        layer_values_upto(models, ranges, pmap, L, j - 1) + pmap[spec_param_key(
            L,
            spec_entry_frame(ranges[L], j - 1) as int,
        )]
    }
}

/// The whole packed parameter block of layers `0..n`.
pub open spec fn packed_values(
    models: Seq<BindLensModelType>,
    ranges: Seq<(FrameNumber, FrameNumber)>,
    pmap: Map<u64, Seq<u64>>,
    n: int,
) -> Seq<u64>
    decreases n,
{
    if n <= 0 {
        Seq::empty()
    } else {
        packed_values(models, ranges, pmap, n - 1) + layer_values_upto(
            models,
            ranges,
            pmap,
            n - 1,
            spec_layer_frame_count(ranges[n - 1]),
        )
    }
}

/// The input map holds the scalars of the `j`-th stored set of layer `i`,
/// with exactly that layer's parameter count.
pub open spec fn spec_pmap_has(
    models: Seq<BindLensModelType>,
    ranges: Seq<(FrameNumber, FrameNumber)>,
    pmap: Map<u64, Seq<u64>>,
    i: int,
    j: int,
) -> bool {
    &&& pmap.contains_key(spec_param_key(i, spec_entry_frame(ranges[i], j) as int))
    &&& pmap[spec_param_key(i, spec_entry_frame(ranges[i], j) as int)].len()
        == spec_parameter_size(models[i])
}

/// The input map holds every stored parameter set of layers `0..count`.
pub open spec fn spec_pmap_complete(
    count: int,
    models: Seq<BindLensModelType>,
    ranges: Seq<(FrameNumber, FrameNumber)>,
    pmap: Map<u64, Seq<u64>>,
) -> bool {
    forall|i: int, j: int|
        0 <= i < count && 0 <= j < spec_layer_frame_count(ranges[i]) ==> #[trigger] spec_pmap_has(
            models,
            ranges,
            pmap,
            i,
            j,
        )
}

/// Everything the one-shot builder demands of its inputs: matching
/// lengths, no uninitialized layer, valid ranges, a total size that fits
/// an offset, and a complete input map.
pub open spec fn spec_inputs_wf(
    layer_count: LayerSize,
    models: Seq<BindLensModelType>,
    ranges: Seq<(FrameNumber, FrameNumber)>,
    pmap: Map<u64, Seq<u64>>,
) -> bool {
    &&& models.len() == layer_count as int
    &&& ranges.len() == layer_count as int
    &&& forall|i: int|
        0 <= i < layer_count as int ==> #[trigger] models[i] != BindLensModelType::Uninitialized
    &&& forall|i: int| 0 <= i < layer_count as int ==> spec_valid_range(#[trigger] ranges[i])
    &&& value_count_below(models, ranges, layer_count as int) <= ParameterIndex::MAX as int
    &&& spec_pmap_complete(layer_count as int, models, ranges, pmap)
}

/// Entry and value counts never shrink as more layers are included.
pub proof fn lemma_counts_monotone(
    models: Seq<BindLensModelType>,
    ranges: Seq<(FrameNumber, FrameNumber)>,
    a: int,
    b: int,
)
    requires
        0 <= a <= b,
        forall|i: int| 0 <= i < b ==> spec_valid_range(#[trigger] ranges[i]),
    ensures
        entry_count_below(ranges, a) <= entry_count_below(ranges, b),
        value_count_below(models, ranges, a) <= value_count_below(models, ranges, b),
    decreases b,
{
    if a < b {
        lemma_counts_monotone(models, ranges, a, b - 1);
        assert(spec_layer_frame_count(ranges[b - 1]) >= 1);
        lemma_mul_nonnegative(
            spec_layer_frame_count(ranges[b - 1]),
            spec_parameter_size(models[b - 1]),
        );
    }
}

/// One layer's whole contribution lies inside the totals.
pub proof fn lemma_layer_term_bound(
    models: Seq<BindLensModelType>,
    ranges: Seq<(FrameNumber, FrameNumber)>,
    n: int,
    L: int,
)
    requires
        0 <= L < n,
        forall|i: int| 0 <= i < n ==> spec_valid_range(#[trigger] ranges[i]),
    ensures
        entry_count_below(ranges, L) + spec_layer_frame_count(ranges[L]) <= entry_count_below(
            ranges,
            n,
        ),
        value_count_below(models, ranges, L) + spec_layer_frame_count(ranges[L])
            * spec_parameter_size(models[L]) <= value_count_below(models, ranges, n),
        0 <= entry_count_below(ranges, L),
        0 <= value_count_below(models, ranges, L),
{
    lemma_counts_monotone(models, ranges, 0, L);
    lemma_counts_monotone(models, ranges, L + 1, n);
    assert(entry_count_below(ranges, L + 1) == entry_count_below(ranges, L)
        + spec_layer_frame_count(ranges[L]));
    assert(value_count_below(models, ranges, L + 1) == value_count_below(models, ranges, L)
        + spec_layer_frame_count(ranges[L]) * spec_parameter_size(models[L]));
}

/// A single layer's frame count is bounded by the total value count when
/// its model is initialized (each set holds at least five scalars).
pub proof fn lemma_frame_count_bounded(
    models: Seq<BindLensModelType>,
    ranges: Seq<(FrameNumber, FrameNumber)>,
    n: int,
    L: int,
)
    requires
        0 <= L < n,
        forall|i: int| 0 <= i < n ==> spec_valid_range(#[trigger] ranges[i]),
        models[L] != BindLensModelType::Uninitialized,
    ensures
        spec_layer_frame_count(ranges[L]) <= value_count_below(models, ranges, n),
{
    lemma_layer_term_bound(models, ranges, n, L);
    let fc = spec_layer_frame_count(ranges[L]);
    let ps = spec_parameter_size(models[L]);
    assert(ps >= 1);
    lemma_mul_inequality(1, ps, fc);
    assert(fc * 1 == fc) by (nonlinear_arith);
    assert(fc * ps == ps * fc) by (nonlinear_arith);
}

/// With every model initialized, there are never more index entries than
/// packed scalars.
pub proof fn lemma_entries_le_values(
    models: Seq<BindLensModelType>,
    ranges: Seq<(FrameNumber, FrameNumber)>,
    n: int,
)
    requires
        forall|i: int| 0 <= i < n ==> spec_valid_range(#[trigger] ranges[i]),
        forall|i: int| 0 <= i < n ==> #[trigger] models[i] != BindLensModelType::Uninitialized,
    ensures
        entry_count_below(ranges, n) <= value_count_below(models, ranges, n),
    decreases n,
{
    if n > 0 {
        lemma_entries_le_values(models, ranges, n - 1);
        let fc = spec_layer_frame_count(ranges[n - 1]);
        let ps = spec_parameter_size(models[n - 1]);
        assert(ps >= 1);
        lemma_mul_inequality(1, ps, fc);
        assert(fc * 1 == fc) by (nonlinear_arith);
        assert(fc * ps == ps * fc) by (nonlinear_arith);
    }
}

/// The index table of layers `0..n` has exactly their entry count.
pub proof fn lemma_packed_indices_len(
    models: Seq<BindLensModelType>,
    ranges: Seq<(FrameNumber, FrameNumber)>,
    n: int,
)
    requires
        forall|i: int| 0 <= i < n ==> spec_valid_range(#[trigger] ranges[i]),
    ensures
        packed_indices(models, ranges, n).len() == entry_count_below(ranges, n),
        entry_count_below(ranges, n) >= 0,
    decreases n,
{
    if n > 0 {
        lemma_packed_indices_len(models, ranges, n - 1);
        assert(spec_layer_frame_count(ranges[n - 1]) >= 1);
    }
}

/// The first `j` stored sets of layer `L` pack to exactly `j` times its
/// parameter count.
pub proof fn lemma_layer_values_len(
    count: int,
    models: Seq<BindLensModelType>,
    ranges: Seq<(FrameNumber, FrameNumber)>,
    pmap: Map<u64, Seq<u64>>,
    L: int,
    j: int,
)
    requires
        0 <= L < count,
        0 <= j <= spec_layer_frame_count(ranges[L]),
        spec_pmap_complete(count, models, ranges, pmap),
    ensures
        layer_values_upto(models, ranges, pmap, L, j).len() == j * spec_parameter_size(models[L]),
    decreases j,
{
    let ps = spec_parameter_size(models[L]);
    if j <= 0 {
        assert(0 * ps == 0) by (nonlinear_arith);
    } else {
        lemma_layer_values_len(count, models, ranges, pmap, L, j - 1);
        assert(spec_pmap_has(models, ranges, pmap, L, j - 1));
        assert(j * ps == (j - 1) * ps + ps) by (nonlinear_arith);
    }
}

/// The packed block of layers `0..n` has exactly their value count.
pub proof fn lemma_packed_values_len(
    count: int,
    models: Seq<BindLensModelType>,
    ranges: Seq<(FrameNumber, FrameNumber)>,
    pmap: Map<u64, Seq<u64>>,
    n: int,
)
    requires
        0 <= n <= count,
        forall|i: int| 0 <= i < count ==> spec_valid_range(#[trigger] ranges[i]),
        spec_pmap_complete(count, models, ranges, pmap),
    ensures
        packed_values(models, ranges, pmap, n).len() == value_count_below(models, ranges, n),
    decreases n,
{
    if n > 0 {
        lemma_packed_values_len(count, models, ranges, pmap, n - 1);
        lemma_layer_values_len(
            count,
            models,
            ranges,
            pmap,
            n - 1,
            spec_layer_frame_count(ranges[n - 1]),
        );
    }
}

/// Where the `j`-th stored set of layer `L` sits in the whole index
/// table: after the entries of all preceding layers.
pub proof fn lemma_packed_indices_at(
    models: Seq<BindLensModelType>,
    ranges: Seq<(FrameNumber, FrameNumber)>,
    n: int,
    L: int,
    j: int,
)
    requires
        0 <= L < n,
        0 <= j < spec_layer_frame_count(ranges[L]),
        forall|i: int| 0 <= i < n ==> spec_valid_range(#[trigger] ranges[i]),
    ensures
        0 <= entry_count_below(ranges, L) + j < packed_indices(models, ranges, n).len(),
        packed_indices(models, ranges, n)[entry_count_below(ranges, L) + j] == packed_entry(
            models,
            ranges,
            L,
            j,
        ),
    decreases n,
{
    lemma_packed_indices_len(models, ranges, n);
    lemma_packed_indices_len(models, ranges, n - 1);
    lemma_counts_monotone(models, ranges, 0, L);
    if L == n - 1 {
        assert(packed_indices(models, ranges, n) == packed_indices(models, ranges, n - 1)
            + layer_entries(models, ranges, n - 1));
        assert(layer_entries(models, ranges, L)[j] == packed_entry(models, ranges, L, j));
    } else {
        lemma_packed_indices_at(models, ranges, n - 1, L, j);
        lemma_layer_term_bound(models, ranges, n - 1, L);
    }
}

/// The exact offset and length behind an index entry, and that its slice
/// lies inside the block.
pub proof fn lemma_packed_entry_exact(
    models: Seq<BindLensModelType>,
    ranges: Seq<(FrameNumber, FrameNumber)>,
    n: int,
    L: int,
    j: int,
)
    requires
        0 <= L < n,
        0 <= j < spec_layer_frame_count(ranges[L]),
        forall|i: int| 0 <= i < n ==> spec_valid_range(#[trigger] ranges[i]),
        value_count_below(models, ranges, n) <= ParameterIndex::MAX as int,
    ensures
        packed_entry(models, ranges, L, j).0 as int == value_count_below(models, ranges, L) + j
            * spec_parameter_size(models[L]),
        packed_entry(models, ranges, L, j).1 as int == spec_parameter_size(models[L]),
        value_count_below(models, ranges, L) + (j + 1) * spec_parameter_size(models[L])
            <= value_count_below(models, ranges, n),
{
    let ps = spec_parameter_size(models[L]);
    let fc = spec_layer_frame_count(ranges[L]);
    let vb = value_count_below(models, ranges, L);
    lemma_layer_term_bound(models, ranges, n, L);
    lemma_mul_nonnegative(j, ps);
    lemma_mul_inequality(j + 1, fc, ps);
    assert((j + 1) * ps == j * ps + ps) by (nonlinear_arith);
    assert(fc * ps == ps * fc) by (nonlinear_arith);
    assert((j + 1) * ps == ps * (j + 1)) by (nonlinear_arith);
    assert(vb + j * ps <= value_count_below(models, ranges, n));
}

/// Where each scalar of one layer sits inside that layer's packed run.
pub proof fn lemma_layer_values_at(
    count: int,
    models: Seq<BindLensModelType>,
    ranges: Seq<(FrameNumber, FrameNumber)>,
    pmap: Map<u64, Seq<u64>>,
    L: int,
    jmax: int,
    j: int,
    t: int,
)
    requires
        0 <= L < count,
        spec_pmap_complete(count, models, ranges, pmap),
        0 <= j < jmax <= spec_layer_frame_count(ranges[L]),
        0 <= t < spec_parameter_size(models[L]),
    ensures
        layer_values_upto(models, ranges, pmap, L, jmax).len() == jmax * spec_parameter_size(
            models[L],
        ),
        layer_values_upto(models, ranges, pmap, L, jmax)[j * spec_parameter_size(models[L]) + t]
            == pmap[spec_param_key(L, spec_entry_frame(ranges[L], j) as int)][t],
    decreases jmax,
{
    let ps = spec_parameter_size(models[L]);
    lemma_layer_values_len(count, models, ranges, pmap, L, jmax);
    lemma_mul_nonnegative(j, ps);
    if j == jmax - 1 {
        lemma_layer_values_len(count, models, ranges, pmap, L, jmax - 1);
        assert(spec_pmap_has(models, ranges, pmap, L, j));
    } else {
        lemma_layer_values_at(count, models, ranges, pmap, L, jmax - 1, j, t);
        lemma_mul_inequality(j + 1, jmax - 1, ps);
        assert((j + 1) * ps == j * ps + ps) by (nonlinear_arith);
    }
}

/// Where each scalar of each layer sits inside the whole packed block:
/// after the values of all preceding layers.
pub proof fn lemma_packed_values_at(
    count: int,
    models: Seq<BindLensModelType>,
    ranges: Seq<(FrameNumber, FrameNumber)>,
    pmap: Map<u64, Seq<u64>>,
    n: int,
    L: int,
    j: int,
    t: int,
)
    requires
        0 <= L < n <= count,
        forall|i: int| 0 <= i < count ==> spec_valid_range(#[trigger] ranges[i]),
        spec_pmap_complete(count, models, ranges, pmap),
        0 <= j < spec_layer_frame_count(ranges[L]),
        0 <= t < spec_parameter_size(models[L]),
    ensures
        packed_values(models, ranges, pmap, n)[value_count_below(models, ranges, L) + j
            * spec_parameter_size(models[L]) + t] == pmap[spec_param_key(
            L,
            spec_entry_frame(ranges[L], j) as int,
        )][t],
    decreases n,
{
    let ps = spec_parameter_size(models[L]);
    let fc = spec_layer_frame_count(ranges[L]);
    lemma_packed_values_len(count, models, ranges, pmap, n);
    lemma_packed_values_len(count, models, ranges, pmap, n - 1);
    lemma_mul_nonnegative(j, ps);
    lemma_mul_inequality(j + 1, fc, ps);
    assert((j + 1) * ps == j * ps + ps) by (nonlinear_arith);
    if L == n - 1 {
        lemma_layer_values_at(count, models, ranges, pmap, L, fc, j, t);
    } else {
        lemma_packed_values_at(count, models, ranges, pmap, n - 1, L, j, t);
        lemma_layer_term_bound(models, ranges, n - 1, L);
    }
}

/// Sum of the lengths recorded in a run of index entries.
pub open spec fn sum_entry_lengths(t: Seq<(ParameterIndex, ParameterSize)>) -> int
    decreases t.len(),
{
    if t.len() == 0 {
        0
    } else {
        sum_entry_lengths(t.drop_last()) + t.last().1 as int
    }
}

/// Peeling one entry off the end of a prefix.
proof fn lemma_sum_take_succ(t: Seq<(ParameterIndex, ParameterSize)>, j: int)
    requires
        0 < j <= t.len(),
    ensures
        sum_entry_lengths(t.take(j)) == sum_entry_lengths(t.take(j - 1)) + t[j - 1].1 as int,
{
    assert(t.take(j).drop_last() =~= t.take(j - 1));
    assert(t.take(j).last() == t[j - 1]);
}

/// The entries of one layer record `frame_count * parameter_size`
/// scalars in total.
proof fn lemma_sum_layer_entries_upto(
    models: Seq<BindLensModelType>,
    ranges: Seq<(FrameNumber, FrameNumber)>,
    L: int,
    j: int,
)
    requires
        0 <= j <= spec_layer_frame_count(ranges[L]),
    ensures
        sum_entry_lengths(layer_entries(models, ranges, L).take(j)) == j * spec_parameter_size(
            models[L],
        ),
    decreases j,
{
    let ps = spec_parameter_size(models[L]);
    let le = layer_entries(models, ranges, L);
    if j <= 0 {
        assert(le.take(j) =~= Seq::<(ParameterIndex, ParameterSize)>::empty());
        assert(0 * ps == 0) by (nonlinear_arith);
    } else {
        lemma_sum_layer_entries_upto(models, ranges, L, j - 1);
        lemma_sum_take_succ(le, j);
        assert(le[j - 1].1 as int == ps);
        assert(j * ps == (j - 1) * ps + ps) by (nonlinear_arith);
    }
}

/// Splitting a length sum over a concatenation.
proof fn lemma_sum_append(
    a: Seq<(ParameterIndex, ParameterSize)>,
    b: Seq<(ParameterIndex, ParameterSize)>,
)
    ensures
        sum_entry_lengths(a + b) == sum_entry_lengths(a) + sum_entry_lengths(b),
    decreases b.len(),
{
    if b.len() == 0 {
        assert(a + b =~= a);
    } else {
        lemma_sum_append(a, b.drop_last());
        assert((a + b).drop_last() =~= a + b.drop_last());
        assert((a + b).last() == b.last());
    }
}

/// The lengths recorded in the whole index table sum to the whole
/// block's length.
pub proof fn lemma_sum_entry_lengths_matches_block(
    models: Seq<BindLensModelType>,
    ranges: Seq<(FrameNumber, FrameNumber)>,
    n: int,
)
    requires
        forall|i: int| 0 <= i < n ==> spec_valid_range(#[trigger] ranges[i]),
    ensures
        sum_entry_lengths(packed_indices(models, ranges, n)) == value_count_below(
            models,
            ranges,
            n,
        ),
    decreases n,
{
    if n > 0 {
        lemma_sum_entry_lengths_matches_block(models, ranges, n - 1);
        let le = layer_entries(models, ranges, n - 1);
        let fc = spec_layer_frame_count(ranges[n - 1]);
        lemma_sum_append(packed_indices(models, ranges, n - 1), le);
        lemma_sum_layer_entries_upto(models, ranges, n - 1, fc);
        assert(le.take(fc) =~= le);
    }
}

/// One-shot sizing pass: how many index entries and how many packed
/// scalars layers `0..layer_count` will need.
#[verifier::loop_isolation(false)]
pub fn count_parameters(
    layer_count: LayerSize,
    layer_frame_range: &RangeList,
    layer_lens_model_types: &ModelList,
) -> (r: (usize, usize))
    requires
        layer_count as int <= range_list_seq(*layer_frame_range).len(),
        layer_count as int <= model_list_seq(*layer_lens_model_types).len(),
        forall|i: int|
            0 <= i < layer_count as int ==> spec_valid_range(
                #[trigger] range_list_seq(*layer_frame_range)[i],
            ),
        forall|i: int|
            0 <= i < layer_count as int ==> #[trigger] model_list_seq(*layer_lens_model_types)[i]
                != BindLensModelType::Uninitialized,
        value_count_below(
            model_list_seq(*layer_lens_model_types),
            range_list_seq(*layer_frame_range),
            layer_count as int,
        ) <= ParameterIndex::MAX as int,
    ensures
        r.0 as int == entry_count_below(range_list_seq(*layer_frame_range), layer_count as int),
        r.1 as int == value_count_below(
            model_list_seq(*layer_lens_model_types),
            range_list_seq(*layer_frame_range),
            layer_count as int,
        ),
{
    let ghost mseq = model_list_seq(*layer_lens_model_types);
    let ghost rseq = range_list_seq(*layer_frame_range);
    let mut total_parameter_count: usize = 0;
    let mut total_parameter_value_count: usize = 0;
    let mut layer_num: LayerSize = 0;
    while layer_num < layer_count
        invariant
            layer_num <= layer_count,
            total_parameter_count as int == entry_count_below(rseq, layer_num as int),
            total_parameter_value_count as int == value_count_below(mseq, rseq, layer_num as int),
        decreases layer_count - layer_num,
    {
        proof {
            lemma_frame_count_bounded(mseq, rseq, layer_count as int, layer_num as int);
            lemma_layer_term_bound(mseq, rseq, layer_count as int, layer_num as int);
            lemma_counts_monotone(mseq, rseq, layer_num as int + 1, layer_count as int);
            lemma_entries_le_values(mseq, rseq, layer_num as int + 1);
            lemma_counts_monotone(mseq, rseq, 0, layer_num as int);
        }
        let frame_count = lens_frame_count(layer_num, layer_frame_range);
        let lens_model_type = layer_lens_model_types.get(layer_num as usize);
        let parameter_size = lens_model_type.parameter_size();
        proof {
            let x = parameter_size as int;
            let y = frame_count as int;
            assert(x * y == y * x) by (nonlinear_arith);
        }
        total_parameter_count += frame_count as usize;
        total_parameter_value_count += parameter_size as usize * frame_count as usize;
        layer_num += 1;
    }
    (total_parameter_count, total_parameter_value_count)
}

} // verus!
