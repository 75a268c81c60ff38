//! The packed distortion-layer structure: one-shot construction, and
//! read-only queries against the packed block and its index table.
//!
//! The layers are conceptually stacked top-to-bottom: layer 0 is applied
//! first when removing distortion, and the order is reversed to apply
//! distortion.  The structure is built once and never mutated.

use crate::frames::{spec_clamped_index, spec_layer_frame_count, spec_valid_range};
use crate::layout::{
    count_parameters, entry_count_below, layer_entries, layer_values_upto,
    lemma_counts_monotone, lemma_entries_le_values, lemma_frame_count_bounded,
    lemma_layer_term_bound, lemma_packed_entry_exact, lemma_packed_indices_at,
    lemma_packed_indices_len, packed_entry, packed_indices, packed_values, param_key,
    spec_inputs_wf, spec_param_key, spec_pmap_has, value_count_below,
};
use crate::models::{spec_parameter_size, BindLensModelType};
use crate::storage::{model_list_seq, range_list_seq, ModelList, RangeList};
use crate::types::{
    spec_default_camera, CameraParameters, FrameNumber, FrameSize, LayerIndex, LayerSize,
    ParameterBlock, ParameterIndex, Parameters3deClassic, ParameterSize, STATIC_FRAME_NUMBER,
};
use std::collections::HashMap;
use vstd::prelude::*;

verus! {

broadcast use vstd::std_specs::hash::group_hash_axioms;

/// The abstract state of a built structure.
#[verifier::ext_equal]
pub struct LayersView {
    pub layer_count: int,
    pub models: Seq<BindLensModelType>,
    pub ranges: Seq<(FrameNumber, FrameNumber)>,
    pub camera: CameraParameters,
    pub indices: Seq<(ParameterIndex, ParameterSize)>,
    pub block: Seq<u64>,
}

impl LayersView {
    /// Well-formedness: metadata lengths match the layer count, no
    /// active layer is uninitialized, every range is valid, the total
    /// size fits an offset, and the index table is exactly the packed
    /// layout of the metadata, covering a block of the packed size.
    pub open spec fn wf(self) -> bool {
        &&& 0 <= self.layer_count <= LayerSize::MAX as int
        &&& self.models.len() == self.layer_count
        &&& self.ranges.len() == self.layer_count
        &&& forall|i: int|
            0 <= i < self.layer_count ==> #[trigger] self.models[i]
                != BindLensModelType::Uninitialized
        &&& forall|i: int| 0 <= i < self.layer_count ==> spec_valid_range(#[trigger] self.ranges[i])
        &&& value_count_below(self.models, self.ranges, self.layer_count) <= ParameterIndex::MAX
            as int
        &&& self.indices == packed_indices(self.models, self.ranges, self.layer_count)
        &&& self.block.len() == value_count_below(self.models, self.ranges, self.layer_count)
    }

    /// The structure is static when every layer stores a single set.
    pub open spec fn spec_is_static(self) -> bool {
        forall|i: int|
            0 <= i < self.layer_count ==> spec_layer_frame_count(#[trigger] self.ranges[i]) == 1
    }

    /// Smallest start frame over the animated layers among `0..n`, or
    /// `FrameNumber::MAX` if none is animated.
    pub open spec fn min_start_upto(self, n: int) -> int
        decreases n,
    {
        if n <= 0 {
            FrameNumber::MAX as int
        } else {
            let m = self.min_start_upto(n - 1);
            if spec_layer_frame_count(self.ranges[n - 1]) > 1 && (self.ranges[n - 1].0 as int)
                < m {
                self.ranges[n - 1].0 as int
            } else {
                m
            }
        }
    }

    /// Largest end frame over the animated layers among `0..n`, or
    /// `FrameNumber::MIN` if none is animated.
    pub open spec fn max_end_upto(self, n: int) -> int
        decreases n,
    {
        if n <= 0 {
            FrameNumber::MIN as int
        } else {
            let m = self.max_end_upto(n - 1);
            if spec_layer_frame_count(self.ranges[n - 1]) > 1 && (self.ranges[n - 1].1 as int)
                > m {
                self.ranges[n - 1].1 as int
            } else {
                m
            }
        }
    }

    /// The whole structure's frame range: the sentinel pair when every
    /// layer is static, otherwise the union of the animated layers'
    /// ranges — the smallest animated start and the largest animated
    /// end.  Layers storing a single set do not contribute.
    pub open spec fn spec_frame_range(self) -> (FrameNumber, FrameNumber) {
        if self.spec_is_static() {
            (STATIC_FRAME_NUMBER, STATIC_FRAME_NUMBER)
        } else {
            (
                self.min_start_upto(self.layer_count) as FrameNumber,
                self.max_end_upto(self.layer_count) as FrameNumber,
            )
        }
    }

    /// Number of frames the whole structure spans.
    pub open spec fn spec_frame_count(self) -> int {
        self.spec_frame_range().1 - self.spec_frame_range().0 + 1
    }

    /// What a classic-model lookup returns: absent off the structure
    /// (bad layer index or another stored variant), otherwise the five
    /// scalars of the clamped frame's stored set, straight out of the
    /// packed block.
    pub open spec fn spec_lookup_classic(self, layer: int, frame: int) -> Option<
        Parameters3deClassic,
    > {
        if !(0 <= layer < self.layer_count) {
            None
        } else if self.models[layer] != BindLensModelType::TdeClassic {
            None
        } else {
            let off = value_count_below(self.models, self.ranges, layer) + spec_clamped_index(
                self.ranges[layer],
                frame,
            ) * spec_parameter_size(self.models[layer]);
            Some(
                Parameters3deClassic {
                    distortion: self.block[off],
                    anamorphic_squeeze: self.block[off + 1],
                    curvature_x: self.block[off + 2],
                    curvature_y: self.block[off + 3],
                    quartic_distortion: self.block[off + 4],
                },
            )
        }
    }
}

/// The view a successful build must produce: the inputs themselves plus
/// the packed index table and block they determine.  An empty build
/// keeps no camera parameters.
pub open spec fn spec_built_view(
    layer_count: LayerSize,
    models: Seq<BindLensModelType>,
    ranges: Seq<(FrameNumber, FrameNumber)>,
    camera: CameraParameters,
    pmap: Map<u64, Seq<u64>>,
) -> LayersView {
    LayersView {
        layer_count: layer_count as int,
        models,
        ranges,
        camera: if layer_count == 0 {
            spec_default_camera()
        } else {
            camera
        },
        indices: packed_indices(models, ranges, layer_count as int),
        block: packed_values(models, ranges, pmap, layer_count as int),
    }
}

/// The input parameter map as a map to scalar sequences.
pub open spec fn spec_pmap_view(m: Map<u64, ParameterBlock>) -> Map<u64, Seq<u64>> {
    m.map_values(|v: ParameterBlock| v@)
}

/// Represents "layers" of lens distortion data: an immutable packed
/// store of per-layer, per-frame parameter scalars, optimized for
/// read-only lookup.
#[derive(Debug, Clone, PartialEq, PartialOrd)]
pub struct ShimDistortionLayers {
    layer_count: LayerSize,
    layer_lens_model_types: Vec<BindLensModelType>,
    layer_frame_range: Vec<(FrameNumber, FrameNumber)>,
    camera_parameters: CameraParameters,
    parameter_indices: Vec<(ParameterIndex, ParameterSize)>,
    parameter_block: Vec<u64>,
}

impl View for ShimDistortionLayers {
    type V = LayersView;

    closed spec fn view(&self) -> LayersView {
        LayersView {
            layer_count: self.layer_count as int,
            models: self.layer_lens_model_types@,
            ranges: self.layer_frame_range@,
            camera: self.camera_parameters,
            indices: self.parameter_indices@,
            block: self.parameter_block@,
        }
    }
}

/// Allocates an empty structure on the heap.
pub fn shim_create_distortion_layers_box() -> (r: Box<ShimDistortionLayers>)
    ensures
        r@.wf(),
        r@.layer_count == 0,
        r@.models == Seq::<BindLensModelType>::empty(),
        r@.ranges == Seq::<(FrameNumber, FrameNumber)>::empty(),
        r@.camera == spec_default_camera(),
        r@.indices == Seq::<(ParameterIndex, ParameterSize)>::empty(),
        r@.block == Seq::<u64>::empty(),
{
    Box::new(ShimDistortionLayers::new())
}

/// Number of stored parameter sets of one range tuple.
fn frame_count_of_range(r: (FrameNumber, FrameNumber)) -> (c: FrameSize)
    requires
        spec_valid_range(r),
        spec_layer_frame_count(r) <= FrameSize::MAX as int,
    ensures
        c as int == spec_layer_frame_count(r),
{
    if r.0 == STATIC_FRAME_NUMBER || r.1 == STATIC_FRAME_NUMBER {
        1
    } else {
        ((r.1 as i64 - r.0 as i64) + 1) as FrameSize
    }
}

/// Appends the raw scalars stored for `(layer_num, frame_number)` in the
/// input map to the packed block being built.
fn set_parameter_block_values(
    layer_num: LayerIndex,
    frame_number: FrameNumber,
    lens_parameters: &HashMap<u64, ParameterBlock>,
    output_values: &mut Vec<u64>,
)
    requires
        spec_pmap_view(lens_parameters@).contains_key(
            spec_param_key(layer_num as int, frame_number as int),
        ),
    ensures
        final(output_values)@ == old(output_values)@ + spec_pmap_view(lens_parameters@)[
            spec_param_key(layer_num as int, frame_number as int)],
{
    let key = param_key(layer_num, frame_number);
    match lens_parameters.get(&key) {
        Some(input_values) => {
            let mut t: usize = 0;
            while t < input_values.len()
                invariant
                    t <= input_values.len(),
                    output_values@ == old(output_values)@ + input_values@.take(t as int),
                decreases input_values.len() - t,
            {
                let value = input_values[t];
                output_values.push(value);
                proof {
                    assert(input_values@.take(t as int + 1) =~= input_values@.take(t as int).push(
                        input_values@[t as int],
                    ));
                }
                t += 1;
            }
            proof {
                assert(input_values@.take(input_values@.len() as int) =~= input_values@);
            }
        },
        None => {
            proof {
                assert(false);
            }
        },
    }
}

impl ShimDistortionLayers {
    /// A valid, fully empty structure: no layers, no entries, no block
    /// contents, default camera parameters.
    pub fn new() -> (r: ShimDistortionLayers)
        ensures
            r@.wf(),
            r@.layer_count == 0,
            r@.models == Seq::<BindLensModelType>::empty(),
            r@.ranges == Seq::<(FrameNumber, FrameNumber)>::empty(),
            r@.camera == spec_default_camera(),
            r@.indices == Seq::<(ParameterIndex, ParameterSize)>::empty(),
            r@.block == Seq::<u64>::empty(),
    {
        ShimDistortionLayers {
            layer_count: 0,
            layer_lens_model_types: Vec::new(),
            layer_frame_range: Vec::new(),
            camera_parameters: CameraParameters::default(),
            parameter_indices: Vec::new(),
            parameter_block: Vec::new(),
        }
    }

    /// One-shot build from the parts read from a file: layer metadata,
    /// camera parameters, and the raw per-`(layer, frame)` scalars.
    /// The result is exactly the packed layout of those inputs.
    #[verifier::loop_isolation(false)]
    pub fn from_parts(
        layer_count: LayerSize,
        layer_lens_model_types: &ModelList,
        layer_frame_range: &RangeList,
        camera_parameters: CameraParameters,
        lens_parameters: &HashMap<u64, ParameterBlock>,
    ) -> (r: ShimDistortionLayers)
        requires
            spec_inputs_wf(
                layer_count,
                model_list_seq(*layer_lens_model_types),
                range_list_seq(*layer_frame_range),
                spec_pmap_view(lens_parameters@),
            ),
        ensures
            r@ == spec_built_view(
                layer_count,
                model_list_seq(*layer_lens_model_types),
                range_list_seq(*layer_frame_range),
                camera_parameters,
                spec_pmap_view(lens_parameters@),
            ),
            r@.wf(),
    {
        let ghost mseq = model_list_seq(*layer_lens_model_types);
        let ghost rseq = range_list_seq(*layer_frame_range);
        let ghost pmap = spec_pmap_view(lens_parameters@);

        if layer_count == 0 {
            let r = ShimDistortionLayers::new();
            proof {
                assert(mseq =~= Seq::<BindLensModelType>::empty());
                assert(rseq =~= Seq::<(FrameNumber, FrameNumber)>::empty());
                assert(r@ =~= spec_built_view(
                    layer_count,
                    mseq,
                    rseq,
                    camera_parameters,
                    pmap,
                ));
            }
            return r;
        }

        // Copy the caller's inline-storage metadata into the structure.
        let mut models_vec: Vec<BindLensModelType> = Vec::new();
        let mut ranges_vec: Vec<(FrameNumber, FrameNumber)> = Vec::new();
        let mut i: usize = 0;
        while i < layer_count as usize
            invariant
                i <= layer_count as usize,
                models_vec@ == mseq.take(i as int),
                ranges_vec@ == rseq.take(i as int),
            decreases layer_count as usize - i,
        {
            models_vec.push(layer_lens_model_types.get(i));
            ranges_vec.push(layer_frame_range.get(i));
            proof {
                assert(mseq.take(i as int + 1) =~= mseq.take(i as int).push(mseq[i as int]));
                assert(rseq.take(i as int + 1) =~= rseq.take(i as int).push(rseq[i as int]));
            }
            i += 1;
        }
        proof {
            assert(mseq.take(layer_count as int) =~= mseq);
            assert(rseq.take(layer_count as int) =~= rseq);
        }

        // Count up all the parameters that will be used, and pack layer
        // by layer, frame by frame.
        let (total_parameter_count, total_parameter_value_count) = count_parameters(
            layer_count,
            layer_frame_range,
            layer_lens_model_types,
        );

        let mut parameter_block: Vec<u64> = Vec::with_capacity(total_parameter_value_count);
        let mut parameter_indices: Vec<(ParameterIndex, ParameterSize)> = Vec::with_capacity(
            total_parameter_count,
        );

        let mut layer_num: LayerSize = 0;
        while layer_num < layer_count
            invariant
                layer_num <= layer_count,
                parameter_indices@ == packed_indices(mseq, rseq, layer_num as int),
                parameter_block@ == packed_values(mseq, rseq, pmap, layer_num as int),
                parameter_block@.len() == value_count_below(mseq, rseq, layer_num as int),
            decreases layer_count - layer_num,
        {
            let ghost L = layer_num as int;
            let (start_frame, end_frame) = layer_frame_range.get(layer_num as usize);
            let lens_model_type = layer_lens_model_types.get(layer_num as usize);
            proof {
                lemma_frame_count_bounded(mseq, rseq, layer_count as int, L);
            }
            let frame_count = frame_count_of_range((start_frame, end_frame));

            let mut frame_index: FrameSize = 0;
            proof {
                assert(packed_indices(mseq, rseq, L) + layer_entries(mseq, rseq, L).take(0)
                    =~= packed_indices(mseq, rseq, L));
                assert(packed_values(mseq, rseq, pmap, L) + layer_values_upto(
                    mseq,
                    rseq,
                    pmap,
                    L,
                    0,
                ) =~= packed_values(mseq, rseq, pmap, L));
                assert(0 * spec_parameter_size(mseq[L]) == 0) by (nonlinear_arith);
            }
            while frame_index < frame_count
                invariant
                    frame_index <= frame_count,
                    parameter_indices@ == packed_indices(mseq, rseq, L) + layer_entries(
                        mseq,
                        rseq,
                        L,
                    ).take(frame_index as int),
                    parameter_block@ == packed_values(mseq, rseq, pmap, L) + layer_values_upto(
                        mseq,
                        rseq,
                        pmap,
                        L,
                        frame_index as int,
                    ),
                    parameter_block@.len() == value_count_below(mseq, rseq, L) + frame_index as int
                        * spec_parameter_size(mseq[L]),
                decreases frame_count - frame_index,
            {
                let ghost j = frame_index as int;
                proof {
                    lemma_packed_entry_exact(mseq, rseq, layer_count as int, L, j);
                    lemma_packed_indices_len(mseq, rseq, L);
                    assert(spec_pmap_has(mseq, rseq, pmap, L, j));
                    assert((j + 1) * spec_parameter_size(mseq[L]) == j * spec_parameter_size(
                        mseq[L],
                    ) + spec_parameter_size(mseq[L])) by (nonlinear_arith);
                    lemma_mul_bound_for_frame(mseq, rseq, layer_count as int, L);
                }
                let frame_number: FrameNumber = if start_frame == STATIC_FRAME_NUMBER || end_frame
                    == STATIC_FRAME_NUMBER {
                    STATIC_FRAME_NUMBER
                } else {
                    start_frame + frame_index as i32
                };
                proof {
                    assert(frame_number as int == spec_entry_frame_int(rseq[L], j));
                }

                let offset_u32: ParameterIndex = parameter_block.len() as ParameterIndex;
                let parameter_size = lens_model_type.parameter_size();
                parameter_indices.push((offset_u32, parameter_size));
                proof {
                    assert((offset_u32, parameter_size) == packed_entry(mseq, rseq, L, j));
                    assert(layer_entries(mseq, rseq, L).take(j + 1) =~= layer_entries(
                        mseq,
                        rseq,
                        L,
                    ).take(j).push(layer_entries(mseq, rseq, L)[j]));
                }

                set_parameter_block_values(
                    layer_num,
                    frame_number,
                    lens_parameters,
                    &mut parameter_block,
                );
                frame_index += 1;
            }
            proof {
                assert(layer_entries(mseq, rseq, L).take(spec_layer_frame_count(rseq[L]))
                    =~= layer_entries(mseq, rseq, L));
            }
            layer_num += 1;
        }

        let result = ShimDistortionLayers {
            layer_count,
            layer_lens_model_types: models_vec,
            layer_frame_range: ranges_vec,
            camera_parameters,
            parameter_indices,
            parameter_block,
        };
        proof {
            assert(result@ =~= spec_built_view(
                layer_count,
                mseq,
                rseq,
                camera_parameters,
                pmap,
            ));
        }
        result
    }

    /// True when every layer stores a single parameter set.
    pub fn is_static(&self) -> (r: bool)
        requires
            self@.wf(),
        ensures
            r == self@.spec_is_static(),
    {
        let mut layer_num: LayerSize = 0;
        while layer_num < self.layer_count
            invariant
                self@.wf(),
                layer_num <= self.layer_count,
                forall|i: int|
                    0 <= i < layer_num as int ==> spec_layer_frame_count(
                        #[trigger] self@.ranges[i],
                    ) == 1,
            decreases self.layer_count - layer_num,
        {
            proof {
                lemma_frame_count_bounded(
                    self@.models,
                    self@.ranges,
                    self@.layer_count,
                    layer_num as int,
                );
            }
            let frame_count = frame_count_of_range(self.layer_frame_range[layer_num as usize]);
            if frame_count != 1 {
                return false;
            }
            layer_num += 1;
        }
        true
    }

    /// Writes the whole structure's frame range to the two out
    /// parameters: the sentinel pair for a fully static structure,
    /// otherwise the union of the animated layers' ranges.
    pub fn frame_range(
        &self,
        out_start_frame: &mut FrameNumber,
        out_end_frame: &mut FrameNumber,
    )
        requires
            self@.wf(),
        ensures
            *final(out_start_frame) == self@.spec_frame_range().0,
            *final(out_end_frame) == self@.spec_frame_range().1,
    {
        if self.is_static() {
            *out_start_frame = STATIC_FRAME_NUMBER;
            *out_end_frame = STATIC_FRAME_NUMBER;
        } else {
            let mut min_frame: FrameNumber = FrameNumber::MAX;
            let mut max_frame: FrameNumber = FrameNumber::MIN;
            let mut layer_num: LayerSize = 0;
            while layer_num < self.layer_count
                invariant
                    self@.wf(),
                    layer_num <= self.layer_count,
                    min_frame as int == self@.min_start_upto(layer_num as int),
                    max_frame as int == self@.max_end_upto(layer_num as int),
                decreases self.layer_count - layer_num,
            {
                proof {
                    lemma_frame_count_bounded(
                        self@.models,
                        self@.ranges,
                        self@.layer_count,
                        layer_num as int,
                    );
                }
                let (start_frame, end_frame) = self.layer_frame_range[layer_num as usize];
                let frame_count = frame_count_of_range((start_frame, end_frame));
                if frame_count > 1 {
                    if start_frame < min_frame {
                        min_frame = start_frame;
                    }
                    if end_frame > max_frame {
                        max_frame = end_frame;
                    }
                }
                layer_num += 1;
            }
            *out_start_frame = min_frame;
            *out_end_frame = max_frame;
        }
    }

    /// Number of frames the whole structure spans; one when static.
    pub fn frame_count(&self) -> (r: FrameSize)
        requires
            self@.wf(),
            self@.spec_frame_count() <= FrameSize::MAX as int,
        ensures
            r as int == self@.spec_frame_count(),
    {
        let mut start_frame: FrameNumber = STATIC_FRAME_NUMBER;
        let mut end_frame: FrameNumber = STATIC_FRAME_NUMBER;
        self.frame_range(&mut start_frame, &mut end_frame);
        proof {
            if !self@.spec_is_static() {
                lemma_frame_range_ordered(self@);
            }
        }
        ((end_frame as i64 - start_frame as i64) + 1) as FrameSize
    }

    /// The camera parameters held by the structure.
    pub fn camera_parameters(&self) -> (r: CameraParameters)
        ensures
            r == self@.camera,
    {
        self.camera_parameters
    }

    /// Number of layers in the stack.
    pub fn get_layer_count(&self) -> (r: LayerSize)
        ensures
            r as int == self@.layer_count,
    {
        self.layer_count
    }

    /// The lens model of one layer; `Uninitialized` off the end.
    pub fn layer_lens_model_type(&self, layer_num: LayerIndex) -> (r: BindLensModelType)
        requires
            self@.wf(),
        ensures
            r == (if (layer_num as int) < self@.layer_count {
                self@.models[layer_num as int]
            } else {
                BindLensModelType::Uninitialized
            }),
    {
        if layer_num >= self.layer_count {
            BindLensModelType::Uninitialized
        } else {
            self.layer_lens_model_types[layer_num as usize]
        }
    }

    /// Looks up the classic-model parameters of one layer at one frame.
    /// Absent for an out-of-range layer index or when the stored
    /// variant differs; a frame outside an animated layer's range reads
    /// the first or last stored frame (boundary hold).
    pub fn layer_parameters_3de_classic(
        &self,
        layer_num: LayerIndex,
        frame: FrameNumber,
    ) -> (r: Option<Parameters3deClassic>)
        requires
            self@.wf(),
        ensures
            r == self@.spec_lookup_classic(layer_num as int, frame as int),
    {
        if layer_num >= self.layer_count {
            return None;
        }
        let index = layer_num as usize;
        if self.layer_lens_model_types[index] != BindLensModelType::TdeClassic {
            return None;
        }
        let ghost L = layer_num as int;

        let (start_frame, _end_frame) = self.layer_frame_range[index];
        proof {
            lemma_frame_count_bounded(self@.models, self@.ranges, self@.layer_count, L);
            lemma_mul_bound_for_frame(self@.models, self@.ranges, self@.layer_count, L);
        }
        let frame_count = frame_count_of_range(self.layer_frame_range[index]);

        let mut frame_index: i64 = 0;
        if frame_count > 1 {
            frame_index = frame as i64 - start_frame as i64;
        }
        if frame_index < 0 {
            frame_index = 0;
        }
        if frame_index > (frame_count - 1) as i64 {
            frame_index = (frame_count - 1) as i64;
        }
        proof {
            assert(frame_index as int == spec_clamped_index(self@.ranges[L], frame as int));
        }

        // Offset arithmetic: the entries of this layer start after the
        // cumulative entry count of all preceding layers.
        let mut entry_prefix: usize = 0;
        let mut i: LayerIndex = 0;
        while i < layer_num
            invariant
                self@.wf(),
                i <= layer_num,
                (layer_num as int) < self@.layer_count,
                entry_prefix as int == entry_count_below(self@.ranges, i as int),
            decreases layer_num - i,
        {
            proof {
                lemma_frame_count_bounded(self@.models, self@.ranges, self@.layer_count, i as int);
                lemma_layer_term_bound(self@.models, self@.ranges, self@.layer_count, i as int);
                lemma_entries_le_values(self@.models, self@.ranges, i as int + 1);
                lemma_counts_monotone(self@.models, self@.ranges, i as int + 1, self@.layer_count);
            }
            let frame_count_i = frame_count_of_range(self.layer_frame_range[i as usize]);
            entry_prefix += frame_count_i as usize;
            i += 1;
        }

        proof {
            lemma_packed_indices_len(self@.models, self@.ranges, self@.layer_count);
            lemma_packed_indices_at(
                self@.models,
                self@.ranges,
                self@.layer_count,
                L,
                frame_index as int,
            );
            lemma_packed_entry_exact(
                self@.models,
                self@.ranges,
                self@.layer_count,
                L,
                frame_index as int,
            );
        }
        let table_len = self.parameter_indices.len();
        proof {
            assert((entry_prefix as int) + (frame_index as int) < (table_len as int));
        }
        let entry_index = entry_prefix + frame_index as usize;
        let (parameter_index, _parameter_size) = self.parameter_indices[entry_index];

        let index_start = parameter_index as usize;
        let distortion = self.parameter_block[index_start];
        let anamorphic_squeeze = self.parameter_block[index_start + 1];
        let curvature_x = self.parameter_block[index_start + 2];
        let curvature_y = self.parameter_block[index_start + 3];
        let quartic_distortion = self.parameter_block[index_start + 4];
        Some(
            Parameters3deClassic {
                distortion,
                anamorphic_squeeze,
                curvature_x,
                curvature_y,
                quartic_distortion,
            },
        )
    }

    /// Number of entries in the index table.
    pub fn parameter_index_count(&self) -> (r: usize)
        ensures
            r == self@.indices.len(),
    {
        self.parameter_indices.len()
    }

    /// Number of scalars in the packed parameter block.
    pub fn parameter_block_length(&self) -> (r: usize)
        ensures
            r == self@.block.len(),
    {
        self.parameter_block.len()
    }

    /// Relies on the `Debug` formatting that `derive(Debug)` provides:
    /// a plain-text dump of the full internal state.
    #[verifier::external_body]
    pub fn as_string(&self) -> String {
        format!("{:#?}", self)
    }
}

/// The frame number of the `j`-th stored set, as an `int` comparison
/// target for exec code.
pub open spec fn spec_entry_frame_int(r: (FrameNumber, FrameNumber), j: int) -> int {
    crate::frames::spec_entry_frame(r, j) as int
}

/// In an animated layer, a stored frame index stays within `i32` range
/// and the product with the parameter count stays within the block.
proof fn lemma_mul_bound_for_frame(
    models: Seq<BindLensModelType>,
    ranges: Seq<(FrameNumber, FrameNumber)>,
    n: int,
    L: int,
)
    requires
        0 <= L < n,
        forall|i: int| 0 <= i < n ==> spec_valid_range(#[trigger] ranges[i]),
        forall|i: int| 0 <= i < n ==> #[trigger] models[i] != BindLensModelType::Uninitialized,
        value_count_below(models, ranges, n) <= ParameterIndex::MAX as int,
    ensures
        5 * spec_layer_frame_count(ranges[L]) <= value_count_below(models, ranges, n),
{
    let fc = spec_layer_frame_count(ranges[L]);
    let ps = spec_parameter_size(models[L]);
    lemma_layer_term_bound(models, ranges, n, L);
    assert(ps >= 5);
    vstd::arithmetic::mul::lemma_mul_inequality(5, ps, fc);
    assert(5 * fc == fc * 5) by (nonlinear_arith);
    assert(ps * fc == fc * ps) by (nonlinear_arith);
}

/// When some layer is animated, the union range runs forward.
pub proof fn lemma_frame_range_ordered(v: LayersView)
    requires
        v.wf(),
        !v.spec_is_static(),
    ensures
        (v.spec_frame_range().0 as int) <= (v.spec_frame_range().1 as int),
{
    let i = choose|i: int|
        0 <= i < v.layer_count && spec_layer_frame_count(#[trigger] v.ranges[i]) != 1;
    assert(spec_layer_frame_count(v.ranges[i]) > 1);
    lemma_union_bounds(v, v.layer_count);
    lemma_min_start_le(v, i, v.layer_count);
    lemma_max_end_ge(v, i, v.layer_count);
}

/// The union bounds always stay inside the frame-number range.
proof fn lemma_union_bounds(v: LayersView, n: int)
    ensures
        FrameNumber::MIN as int <= v.min_start_upto(n) <= FrameNumber::MAX as int,
        FrameNumber::MIN as int <= v.max_end_upto(n) <= FrameNumber::MAX as int,
    decreases n,
{
    if n > 0 {
        lemma_union_bounds(v, n - 1);
    }
}

/// The union start is no later than any animated layer's start.
proof fn lemma_min_start_le(v: LayersView, i: int, n: int)
    requires
        0 <= i < n,
        spec_layer_frame_count(v.ranges[i]) > 1,
    ensures
        v.min_start_upto(n) <= v.ranges[i].0 as int,
    decreases n,
{
    if i < n - 1 {
        lemma_min_start_le(v, i, n - 1);
    }
}

/// The union end is no earlier than any animated layer's end.
proof fn lemma_max_end_ge(v: LayersView, i: int, n: int)
    requires
        0 <= i < n,
        spec_layer_frame_count(v.ranges[i]) > 1,
    ensures
        v.max_end_upto(n) >= v.ranges[i].1 as int,
    decreases n,
{
    if i < n - 1 {
        lemma_max_end_ge(v, i, n - 1);
    }
}

} // verus!
