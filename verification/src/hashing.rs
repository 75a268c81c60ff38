//! The content hasher: a stable 64-bit digest over the camera parameters
//! and every active layer's effective parameter values at one frame.
//!
//! Scalars enter the hash as canonical double bit patterns: every NaN as
//! one fixed pattern and negative zero as positive zero, so equal numeric
//! values contribute identically and the digest stays total.

use crate::layers::{LayersView, ShimDistortionLayers};
use crate::models::{spec_model_tag, BindLensModelType};
use crate::types::{CameraParameters, FrameNumber, HashValue64, LayerIndex, LayerSize};
use std::hash::Hasher;
use vstd::arithmetic::div_mod::{
    lemma_mod_multiples_vanish, lemma_mul_mod_noop_left, lemma_mul_mod_noop_right,
    lemma_small_mod,
};
use vstd::prelude::*;

verus! {

/// Sign bit of a double; on its own it encodes negative zero.
pub const F64_SIGN_BIT: u64 = 0x8000_0000_0000_0000;

/// Exponent mask of a double.
pub const F64_EXPONENT_MASK: u64 = 0x7FF0_0000_0000_0000;

/// Mantissa mask of a double.
pub const F64_MANTISSA_MASK: u64 = 0x000F_FFFF_FFFF_FFFF;

/// The one NaN pattern every NaN is normalized to.
pub const CANONICAL_NAN_BITS: u64 = 0x7FF8_0000_0000_0000;

/// Whether a double bit pattern encodes a NaN.
pub open spec fn spec_is_nan_bits(b: u64) -> bool {
    (b & F64_EXPONENT_MASK) == F64_EXPONENT_MASK && (b & F64_MANTISSA_MASK) != 0
}

/// The canonical bit pattern a scalar contributes to the hash.
pub open spec fn spec_canon_bits(b: u64) -> u64 {
    if spec_is_nan_bits(b) {
        CANONICAL_NAN_BITS
    } else if b == F64_SIGN_BIT {
        0
    } else {
        b
    }
}

/// Canonicalizes one double bit pattern for hashing.
pub fn canon_bits(b: u64) -> (r: u64)
    ensures
        r == spec_canon_bits(b),
{
    if (b & F64_EXPONENT_MASK) == F64_EXPONENT_MASK && (b & F64_MANTISSA_MASK) != 0 {
        CANONICAL_NAN_BITS
    } else if b == F64_SIGN_BIT {
        0
    } else {
        b
    }
}

/// The multiplier of the polynomial mixing step.
pub const FX_HASH_K: u64 = 0xf135_7aea_2e62_a9c5;

/// One mixing step: a wrapping add of the word, then a wrapping multiply
/// by the fixed odd constant.
pub open spec fn fx_mix(h: u64, w: u64) -> u64 {
    ((((h + w) % 0x1_0000_0000_0000_0000) * (FX_HASH_K as int))
        % 0x1_0000_0000_0000_0000) as u64
}

/// The mixing state after folding in all words, oldest first.
pub open spec fn fx_state(words: Seq<u64>) -> u64
    decreases words.len(),
{
    if words.len() == 0 {
        0
    } else {
        fx_mix(fx_state(words.drop_last()), words.last())
    }
}

/// The finishing step: rotate the state left by 26 bits, moving the
/// high-entropy top bits down.
pub open spec fn fx_finish(h: u64) -> u64 {
    (h << 26u64) | (h >> 38u64)
}

/// The 64-bit digest of a word sequence.
pub open spec fn fx_hash_of(words: Seq<u64>) -> u64 {
    fx_finish(fx_state(words))
}

/// Relies on `rustc_hash::FxHasher` with a 64-bit `usize`: `default`
/// starts from state 0, each `write_u64` performs one `fx_mix` step on
/// the state, and `finish` rotates the state left by 26 bits.
#[verifier::external_body]
fn fx_hash_words(words: &Vec<u64>) -> (r: u64)
    ensures
        r == fx_hash_of(words@),
{
    let mut s = rustc_hash::FxHasher::default();
    for w in words.iter() {
        s.write_u64(*w);
    }
    s.finish()
}

/// The inverse of `FX_HASH_K` modulo two to the sixty-fourth power.
pub const FX_HASH_K_INVERSE: u64 = 0x7814_94a5_5daa_ed0d;

/// Multiplying by the odd mixing constant loses nothing modulo 2^64.
proof fn lemma_mix_mul_injective(x: u64, y: u64)
    requires
        ((x as int) * (FX_HASH_K as int)) % 0x1_0000_0000_0000_0000 == ((y as int) * (
        FX_HASH_K as int)) % 0x1_0000_0000_0000_0000,
    ensures
        x == y,
{
    let m: int = 0x1_0000_0000_0000_0000;
    let k = FX_HASH_K as int;
    let j = FX_HASH_K_INVERSE as int;
    assert(k * j % m == 1);
    lemma_mul_mod_noop_left((x as int) * k, j, m);
    lemma_mul_mod_noop_left((y as int) * k, j, m);
    assert(((x as int) * k) * j == (x as int) * (k * j)) by (nonlinear_arith);
    assert(((y as int) * k) * j == (y as int) * (k * j)) by (nonlinear_arith);
    lemma_mul_mod_noop_right(x as int, k * j, m);
    lemma_mul_mod_noop_right(y as int, k * j, m);
    lemma_small_mod(x as nat, m as nat);
    lemma_small_mod(y as nat, m as nat);
}

/// Two sums within one modulus width of each other are equal when their
/// remainders are.
proof fn lemma_mod_injective_near(a: int, b: int)
    requires
        0 <= a < 2 * 0x1_0000_0000_0000_0000,
        0 <= b < 2 * 0x1_0000_0000_0000_0000,
        a - b < 0x1_0000_0000_0000_0000,
        b - a < 0x1_0000_0000_0000_0000,
        a % 0x1_0000_0000_0000_0000 == b % 0x1_0000_0000_0000_0000,
    ensures
        a == b,
{
    let m: int = 0x1_0000_0000_0000_0000;
    if a >= m {
        lemma_mod_multiples_vanish(1, a - m, m);
        lemma_small_mod((a - m) as nat, m as nat);
    } else {
        lemma_small_mod(a as nat, m as nat);
    }
    if b >= m {
        lemma_mod_multiples_vanish(1, b - m, m);
        lemma_small_mod((b - m) as nat, m as nat);
    } else {
        lemma_small_mod(b as nat, m as nat);
    }
}

/// One mixing step is injective in the folded word.
proof fn lemma_mix_injective_in_word(h: u64, w1: u64, w2: u64)
    requires
        fx_mix(h, w1) == fx_mix(h, w2),
    ensures
        w1 == w2,
{
    let m: int = 0x1_0000_0000_0000_0000;
    let s1 = (h + w1) % m;
    let s2 = (h + w2) % m;
    lemma_mix_mul_injective(s1 as u64, s2 as u64);
    lemma_mod_injective_near(h + w1, h + w2);
}

/// One mixing step is injective in the incoming state.
proof fn lemma_mix_injective_in_state(h1: u64, h2: u64, w: u64)
    requires
        fx_mix(h1, w) == fx_mix(h2, w),
    ensures
        h1 == h2,
{
    let m: int = 0x1_0000_0000_0000_0000;
    let s1 = (h1 + w) % m;
    let s2 = (h2 + w) % m;
    lemma_mix_mul_injective(s1 as u64, s2 as u64);
    lemma_mod_injective_near(h1 + w, h2 + w);
}

/// Changing exactly one word of a sequence changes the mixing state.
proof fn lemma_state_sensitive(a: Seq<u64>, b: Seq<u64>, i: int)
    requires
        a.len() == b.len(),
        0 <= i < a.len(),
        a[i] != b[i],
        forall|t: int| 0 <= t < a.len() && t != i ==> a[t] == b[t],
    ensures
        fx_state(a) != fx_state(b),
    decreases a.len(),
{
    if i == a.len() - 1 {
        assert(a.drop_last() =~= b.drop_last());
        if fx_state(a) == fx_state(b) {
            lemma_mix_injective_in_word(fx_state(a.drop_last()), a.last(), b.last());
            assert(false);
        }
    } else {
        lemma_state_sensitive(a.drop_last(), b.drop_last(), i);
        assert(a.last() == b.last());
        if fx_state(a) == fx_state(b) {
            lemma_mix_injective_in_state(
                fx_state(a.drop_last()),
                fx_state(b.drop_last()),
                a.last(),
            );
            assert(false);
        }
    }
}

/// The finishing rotation is injective.
proof fn lemma_finish_injective(h1: u64, h2: u64)
    requires
        fx_finish(h1) == fx_finish(h2),
    ensures
        h1 == h2,
{
    assert(((h1 << 26u64) | (h1 >> 38u64)) == ((h2 << 26u64) | (h2 >> 38u64)) ==> h1 == h2)
        by (bit_vector);
}

/// Changing exactly one hashed word changes the digest: the content
/// hash is sensitive to each canonical word individually.
pub proof fn lemma_hash_word_sensitive(a: Seq<u64>, b: Seq<u64>, i: int)
    requires
        a.len() == b.len(),
        0 <= i < a.len(),
        a[i] != b[i],
        forall|t: int| 0 <= t < a.len() && t != i ==> a[t] == b[t],
    ensures
        fx_hash_of(a) != fx_hash_of(b),
{
    lemma_state_sensitive(a, b, i);
    if fx_hash_of(a) == fx_hash_of(b) {
        lemma_finish_injective(fx_state(a), fx_state(b));
        assert(false);
    }
}

/// The camera's contribution to the hash: each scalar, canonicalized,
/// in declaration order.
pub open spec fn spec_camera_words(c: CameraParameters) -> Seq<u64> {
    seq![
        spec_canon_bits(c.focal_length_cm),
        spec_canon_bits(c.film_back_width_cm),
        spec_canon_bits(c.film_back_height_cm),
        spec_canon_bits(c.pixel_aspect),
        spec_canon_bits(c.lens_center_offset_x_cm),
        spec_canon_bits(c.lens_center_offset_y_cm),
    ]
}

/// Layer `i`'s contribution at `frame`: nothing for an uninitialized
/// layer; for a classic layer its tag word followed by its five
/// effective scalars, canonicalized.  Variants without a hashing rule
/// are excluded by `spec_hash_supported`.
pub open spec fn spec_layer_hash_words(v: LayersView, frame: int, i: int) -> Seq<u64> {
    match v.models[i] {
        BindLensModelType::Uninitialized => Seq::empty(),
        BindLensModelType::TdeClassic => {
            let p = v.spec_lookup_classic(i, frame).unwrap();
            seq![
                spec_model_tag(BindLensModelType::TdeClassic),
                spec_canon_bits(p.distortion),
                spec_canon_bits(p.anamorphic_squeeze),
                spec_canon_bits(p.curvature_x),
                spec_canon_bits(p.curvature_y),
                spec_canon_bits(p.quartic_distortion),
            ]
        },
        _ => Seq::empty(),
    }
}

/// The word sequence hashed for layers `0..n`: the layer count, the
/// camera scalars, then each layer's contribution in order.
pub open spec fn spec_hash_words_upto(v: LayersView, frame: int, n: int) -> Seq<u64>
    decreases n,
{
    if n <= 0 {
        seq![v.layer_count as u64] + spec_camera_words(v.camera)
    } else {
        spec_hash_words_upto(v, frame, n - 1) + spec_layer_hash_words(v, frame, n - 1)
    }
}

/// The full word sequence hashed at `frame`.
pub open spec fn spec_hash_words(v: LayersView, frame: int) -> Seq<u64> {
    spec_hash_words_upto(v, frame, v.layer_count)
}

/// Every active layer has a hashing rule: so far the uninitialized
/// layer (a no-op) and the classic model.
pub open spec fn spec_hash_supported(v: LayersView) -> bool {
    forall|i: int|
        0 <= i < v.layer_count ==> ((#[trigger] v.models[i]) == BindLensModelType::Uninitialized
            || v.models[i] == BindLensModelType::TdeClassic)
}

impl ShimDistortionLayers {
    /// The content hash of the state effective at `frame`: the layer
    /// count, the camera scalars, and each active layer's tag and
    /// effective parameter values, digested in a fixed order.  Two
    /// structures hash alike at a frame exactly when those word
    /// sequences coincide.
    #[verifier::loop_isolation(false)]
    pub fn frame_hash(&self, frame: FrameNumber) -> (r: HashValue64)
        requires
            self@.wf(),
            spec_hash_supported(self@),
        ensures
            r == fx_hash_of(spec_hash_words(self@, frame as int)),
    {
        let ghost f = frame as int;
        let mut words: Vec<u64> = Vec::new();
        words.push(self.get_layer_count() as u64);

        let camera_parameters = self.camera_parameters();
        words.push(canon_bits(camera_parameters.focal_length_cm));
        words.push(canon_bits(camera_parameters.film_back_width_cm));
        words.push(canon_bits(camera_parameters.film_back_height_cm));
        words.push(canon_bits(camera_parameters.pixel_aspect));
        words.push(canon_bits(camera_parameters.lens_center_offset_x_cm));
        words.push(canon_bits(camera_parameters.lens_center_offset_y_cm));
        proof {
            assert(words@ =~= spec_hash_words_upto(self@, f, 0));
        }

        let layer_count = self.get_layer_count();
        let mut layer_num: LayerIndex = 0;
        while layer_num < layer_count
            invariant
                layer_num <= layer_count,
                words@ == spec_hash_words_upto(self@, f, layer_num as int),
            decreases layer_count - layer_num,
        {
            let lens_model_type = self.layer_lens_model_type(layer_num);
            match lens_model_type {
                BindLensModelType::Uninitialized => {
                    proof {
                        assert(words@ =~= spec_hash_words_upto(self@, f, layer_num as int + 1));
                    }
                },
                BindLensModelType::TdeClassic => {
                    match self.layer_parameters_3de_classic(layer_num, frame) {
                        Some(parameters) => {
                            words.push(lens_model_type.model_tag());
                            words.push(canon_bits(parameters.distortion));
                            words.push(canon_bits(parameters.anamorphic_squeeze));
                            words.push(canon_bits(parameters.curvature_x));
                            words.push(canon_bits(parameters.curvature_y));
                            words.push(canon_bits(parameters.quartic_distortion));
                            proof {
                                assert(words@ =~= spec_hash_words_upto(
                                    self@,
                                    f,
                                    layer_num as int + 1,
                                ));
                            }
                        },
                        None => {
                            proof {
                                assert(false);
                            }
                        },
                    }
                },
                _ => {
                    proof {
                        assert(false);
                    }
                },
            }
            layer_num += 1;
        }
        fx_hash_words(&words)
    }
}

} // verus!
