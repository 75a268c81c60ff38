//! Laws that hold of every well-formed structure, stated once and proved
//! from the contracts of the building and querying functions.

use crate::frames::{spec_clamped_index, spec_entry_frame, spec_layer_frame_count};
use crate::hashing::{
    fx_hash_of, lemma_hash_word_sensitive, spec_camera_words, spec_hash_words,
    spec_hash_words_upto, spec_layer_hash_words,
};
use crate::layers::{lemma_frame_range_ordered, spec_built_view, LayersView};
use crate::layout::{
    lemma_packed_values_at, lemma_sum_entry_lengths_matches_block, spec_inputs_wf,
    spec_param_key, sum_entry_lengths,
};
use crate::models::BindLensModelType;
use crate::types::{
    CameraParameters, FrameNumber, LayerSize, Parameters3deClassic, STATIC_FRAME_NUMBER,
};
use vstd::prelude::*;

verus! {

/// The index entries partition the packed block: the lengths they record
/// sum to exactly the block's length.
pub proof fn lemma_index_lengths_cover_block(v: LayersView)
    requires
        v.wf(),
    ensures
        sum_entry_lengths(v.indices) == v.block.len(),
{
    lemma_sum_entry_lengths_matches_block(v.models, v.ranges, v.layer_count);
}

/// A structure in which every layer stores a single set reports the
/// sentinel range and spans exactly one frame.
pub proof fn lemma_static_frame_count(v: LayersView)
    requires
        v.wf(),
        v.spec_is_static(),
    ensures
        v.spec_frame_range() == (STATIC_FRAME_NUMBER, STATIC_FRAME_NUMBER),
        v.spec_frame_count() == 1,
{
}

/// Boundary clamp idempotence: a lookup below an animated range start
/// answers as at the start; above the end, as at the end.  For a layer
/// storing a single set every frame answers alike.
pub proof fn lemma_lookup_clamps(v: LayersView, layer: int, frame: int)
    requires
        v.wf(),
        0 <= layer < v.layer_count,
    ensures
        frame < v.ranges[layer].0 ==> v.spec_lookup_classic(layer, frame)
            == v.spec_lookup_classic(layer, v.ranges[layer].0 as int),
        frame > v.ranges[layer].1 ==> v.spec_lookup_classic(layer, frame)
            == v.spec_lookup_classic(layer, v.ranges[layer].1 as int),
        spec_layer_frame_count(v.ranges[layer]) == 1 ==> v.spec_lookup_classic(layer, frame)
            == v.spec_lookup_classic(layer, v.ranges[layer].0 as int),
{
}

/// A lookup is absent exactly off the structure: an out-of-range layer
/// index, or a stored variant other than the requested classic model.
pub proof fn lemma_lookup_absent(v: LayersView, layer: int, frame: int)
    ensures
        (v.spec_lookup_classic(layer, frame) is None) <==> (!(0 <= layer < v.layer_count)
            || v.models[layer] != BindLensModelType::TdeClassic),
{
}

/// Building is deterministic: two structures built from identical
/// inputs have identical state, and therefore identical hash-word
/// sequences — hence identical content hashes — at every frame.
pub proof fn lemma_build_deterministic(
    a: LayersView,
    b: LayersView,
    layer_count: LayerSize,
    models: Seq<BindLensModelType>,
    ranges: Seq<(FrameNumber, FrameNumber)>,
    camera: CameraParameters,
    pmap: Map<u64, Seq<u64>>,
    frame: int,
)
    requires
        a == spec_built_view(layer_count, models, ranges, camera, pmap),
        b == spec_built_view(layer_count, models, ranges, camera, pmap),
    ensures
        a == b,
        spec_hash_words(a, frame) == spec_hash_words(b, frame),
{
}

/// Build/lookup round trip: looking up a classic layer of a structure
/// built from a well-formed input map returns exactly the five scalars
/// the map stored for the effective (clamped) frame.
pub proof fn lemma_build_lookup_round_trip(
    layer_count: LayerSize,
    models: Seq<BindLensModelType>,
    ranges: Seq<(FrameNumber, FrameNumber)>,
    camera: CameraParameters,
    pmap: Map<u64, Seq<u64>>,
    layer: int,
    frame: int,
)
    requires
        spec_inputs_wf(layer_count, models, ranges, pmap),
        0 <= layer < layer_count as int,
        models[layer] == BindLensModelType::TdeClassic,
    ensures
        ({
            let v = spec_built_view(layer_count, models, ranges, camera, pmap);
            let j = spec_clamped_index(ranges[layer], frame);
            let vals = pmap[spec_param_key(layer, spec_entry_frame(ranges[layer], j) as int)];
            v.spec_lookup_classic(layer, frame) == Some(
                Parameters3deClassic {
                    distortion: vals[0],
                    anamorphic_squeeze: vals[1],
                    curvature_x: vals[2],
                    curvature_y: vals[3],
                    quartic_distortion: vals[4],
                },
            )
        }),
{
    let v = spec_built_view(layer_count, models, ranges, camera, pmap);
    let j = spec_clamped_index(ranges[layer], frame);
    let count = layer_count as int;
    assert(0 <= j < spec_layer_frame_count(ranges[layer]));
    lemma_packed_values_at(count, models, ranges, pmap, count, layer, j, 0);
    lemma_packed_values_at(count, models, ranges, pmap, count, layer, j, 1);
    lemma_packed_values_at(count, models, ranges, pmap, count, layer, j, 2);
    lemma_packed_values_at(count, models, ranges, pmap, count, layer, j, 3);
    lemma_packed_values_at(count, models, ranges, pmap, count, layer, j, 4);
}

/// With equal layers and equal packed state, the hashed word sequences
/// coincide beyond the seven-word header, and the header is the layer
/// count followed by the canonical camera scalars.
proof fn lemma_hash_words_split(a: LayersView, b: LayersView, frame: int, n: int)
    requires
        a.layer_count == b.layer_count,
        a.models == b.models,
        a.ranges == b.ranges,
        a.block == b.block,
        0 <= n,
    ensures
        spec_hash_words_upto(a, frame, n).len() == spec_hash_words_upto(b, frame, n).len(),
        spec_hash_words_upto(a, frame, n).len() >= 7,
        forall|t: int|
            7 <= t < spec_hash_words_upto(a, frame, n).len() ==> spec_hash_words_upto(
                a,
                frame,
                n,
            )[t] == spec_hash_words_upto(b, frame, n)[t],
        forall|t: int|
            0 <= t < 7 ==> spec_hash_words_upto(a, frame, n)[t] == (seq![a.layer_count as u64]
                + spec_camera_words(a.camera))[t],
        forall|t: int|
            0 <= t < 7 ==> spec_hash_words_upto(b, frame, n)[t] == (seq![b.layer_count as u64]
                + spec_camera_words(b.camera))[t],
    decreases n,
{
    if n > 0 {
        lemma_hash_words_split(a, b, frame, n - 1);
        assert(a.spec_lookup_classic(n - 1, frame) == b.spec_lookup_classic(n - 1, frame));
        assert(spec_layer_hash_words(a, frame, n - 1) == spec_layer_hash_words(b, frame, n - 1));
    }
}

/// Changing exactly one camera scalar's canonical bits changes the
/// content hash at every frame.  (Scalars whose canonical bits
/// coincide — positive and negative zero, or two NaN payloads — hash
/// alike by design.)
pub proof fn lemma_camera_change_changes_hash(a: LayersView, b: LayersView, frame: int, i: int)
    requires
        0 <= a.layer_count,
        a.layer_count == b.layer_count,
        a.models == b.models,
        a.ranges == b.ranges,
        a.block == b.block,
        0 <= i < 6,
        spec_camera_words(a.camera)[i] != spec_camera_words(b.camera)[i],
        forall|t: int|
            0 <= t < 6 && t != i ==> spec_camera_words(a.camera)[t] == spec_camera_words(
                b.camera,
            )[t],
    ensures
        fx_hash_of(spec_hash_words(a, frame)) != fx_hash_of(spec_hash_words(b, frame)),
{
    let wa = spec_hash_words(a, frame);
    let wb = spec_hash_words(b, frame);
    lemma_hash_words_split(a, b, frame, a.layer_count);
    assert(wa[i + 1] != wb[i + 1]);
    assert(forall|t: int| 0 <= t < wa.len() && t != i + 1 ==> wa[t] == wb[t]);
    lemma_hash_word_sensitive(wa, wb, i + 1);
}

/// A structure with at least one animated layer reports a forward range,
/// so its frame count is positive.
pub proof fn lemma_frame_count_positive(v: LayersView)
    requires
        v.wf(),
    ensures
        v.spec_frame_count() >= 1,
{
    if !v.spec_is_static() {
        lemma_frame_range_ordered(v);
    }
}

} // verus!

