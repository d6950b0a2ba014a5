//! The decision core of the Ziggurat method for sampling the standard
//! Gaussian distribution.
//!
//! Each attempt of the sampler draws one uniform 64-bit word. The low
//! seven bits select one of 128 horizontal layers of the half-normal
//! density, bit seven carries the sign, and the next 24 bits form the
//! fraction that places a point horizontally within the layer's
//! rectangle. When the fraction lies below the layer's precomputed
//! threshold, the point is certain to lie under the density curve and
//! the sample is accepted without any transcendental evaluation.
//! Otherwise the attempt continues with a wedge test (layers 0 to 126)
//! or with the exponential-tail fallback (layer 127); both of those
//! tests need floating-point arithmetic and are left to the caller.

use vstd::prelude::*;

verus! {

/// Number of layers in the Ziggurat table.
pub const LAYER_COUNT: usize = 128;

/// Index of the unbounded tail layer.
pub const TAIL_LAYER: usize = 127;

/// Fast-path acceptance thresholds, one per layer. A 24-bit fraction
/// strictly below `THRESHOLDS[i]` places the point inside the part of
/// layer `i`'s rectangle that lies entirely under the density curve.
pub const THRESHOLDS: [u32; 128] = [
    0, 12590644, 14272653, 14988939,
    15384584, 15635009, 15807561, 15933577,
    16029594, 16105155, 16166147, 16216399,
    16258508, 16294295, 16325078, 16351831,
    16375291, 16396026, 16414479, 16431002,
    16445880, 16459343, 16471578, 16482744,
    16492970, 16502368, 16511031, 16519039,
    16526459, 16533352, 16539769, 16545755,
    16551348, 16556584, 16561493, 16566101,
    16570433, 16574511, 16578353, 16581977,
    16585398, 16588629, 16591685, 16594575,
    16597311, 16599901, 16602354, 16604679,
    16606881, 16608968, 16610945, 16612818,
    16614592, 16616272, 16617861, 16619363,
    16620782, 16622121, 16623383, 16624570,
    16625685, 16626730, 16627708, 16628619,
    16629465, 16630248, 16630969, 16631628,
    16632228, 16632768, 16633248, 16633671,
    16634034, 16634340, 16634586, 16634774,
    16634903, 16634972, 16634980, 16634926,
    16634810, 16634628, 16634381, 16634066,
    16633680, 16633222, 16632688, 16632075,
    16631380, 16630598, 16629726, 16628757,
    16627686, 16626507, 16625212, 16623794,
    16622243, 16620548, 16618698, 16616679,
    16614476, 16612071, 16609444, 16606571,
    16603425, 16599973, 16596178, 16591995,
    16587369, 16582237, 16576520, 16570120,
    16562917, 16554758, 16545450, 16534739,
    16522287, 16507638, 16490152, 16468907,
    16442518, 16408804, 16364095, 16301683,
    16207738, 16047994, 15704248, 15472926,
];

/// The layer index carried by a drawn word: its seven low bits.
pub open spec fn layer_of(u: u64) -> u64 {
    u & 0x7f
}

/// The 24-bit fraction carried by a drawn word: bits 8 to 31.
pub open spec fn fraction_of(u: u64) -> u64 {
    (u >> 8) & 0xffffff
}

/// The sign carried by a drawn word: bit 7 set means positive.
pub open spec fn is_positive(u: u64) -> bool {
    u & 0x80 != 0
}

/// What one attempt of the sampler must do with the word it drew.
#[derive(Clone, Copy, Debug, PartialEq, Eq, Structural)]
pub enum Step {
    /// The point lies inside the rectangle of `layer` strictly under
    /// the density curve: accept `fraction * width(layer)` with the
    /// given sign, with no further test.
    Accept { positive: bool, layer: usize, fraction: u32 },
    /// The point may lie in the wedge between this layer's curve
    /// segment and its rectangle: a density test on the candidate
    /// `fraction * width(layer)` decides acceptance.
    Wedge { positive: bool, layer: usize, fraction: u32 },
    /// The word selected the unbounded tail layer and missed its fast
    /// path: a sample from the exponential tail decides acceptance.
    Tail { positive: bool },
}

/// The step that a drawn word dictates.
pub open spec fn spec_classify(u: u64) -> Step {
    if fraction_of(u) < THRESHOLDS@[layer_of(u) as int] {
        Step::Accept {
            positive: is_positive(u),
            layer: layer_of(u) as usize,
            fraction: fraction_of(u) as u32,
        }
    } else if layer_of(u) < TAIL_LAYER {
        Step::Wedge {
            positive: is_positive(u),
            layer: layer_of(u) as usize,
            fraction: fraction_of(u) as u32,
        }
    } else {
        Step::Tail { positive: is_positive(u) }
    }
}

/// The same step with the opposite sign.
pub open spec fn with_sign_flipped(s: Step) -> Step {
    match s {
        Step::Accept { positive, layer, fraction } => Step::Accept {
            positive: !positive,
            layer,
            fraction,
        },
        Step::Wedge { positive, layer, fraction } => Step::Wedge {
            positive: !positive,
            layer,
            fraction,
        },
        Step::Tail { positive } => Step::Tail { positive: !positive },
    }
}

/// The sampler is symmetric about the origin: flipping the sign bit of
/// a drawn word flips only the sign of the resulting step, while the
/// layer, the fraction, and the choice among fast acceptance, wedge
/// test, and tail fallback stay the same.
pub proof fn lemma_sign_symmetry(u: u64)
    ensures
        spec_classify(u ^ 0x80) == with_sign_flipped(spec_classify(u)),
{
    assert((u ^ 0x80) & 0x7f == u & 0x7f) by (bit_vector);
    assert(((u ^ 0x80) >> 8) & 0xffffff == (u >> 8) & 0xffffff) by (bit_vector);
    assert(((u ^ 0x80) & 0x80 != 0) == !(u & 0x80 != 0)) by (bit_vector);
}

/// Every word decodes to a layer index below `LAYER_COUNT` and a
/// fraction that fits in 24 bits, so the layer tables can always be
/// indexed and the fraction compared against a 24-bit threshold.
pub proof fn lemma_decode_in_range(u: u64)
    ensures
        layer_of(u) < 128,
        fraction_of(u) < 0x1000000,
{
    assert(u & 0x7f < 128) by (bit_vector);
    assert((u >> 8) & 0xffffff < 0x1000000) by (bit_vector);
}

/// One attempt consumes exactly the low 32 bits of the drawn word:
/// seven for the layer, one for the sign, and twenty-four for the
/// fraction. The high half of the word never influences the step.
pub proof fn lemma_high_bits_ignored(u: u64)
    ensures
        spec_classify(u & 0xffffffff) == spec_classify(u),
{
    assert((u & 0xffffffff) & 0x7f == u & 0x7f) by (bit_vector);
    assert(((u & 0xffffffff) >> 8) & 0xffffff == (u >> 8) & 0xffffff) by (bit_vector);
    assert(((u & 0xffffffff) & 0x80 != 0) == (u & 0x80 != 0)) by (bit_vector);
}

/// The decoding is complete: every combination of a layer index, a
/// 24-bit fraction, and a sign is carried by some word, namely the one
/// assembled from them. No part of the table is out of the sampler's
/// reach.
pub proof fn lemma_decode_complete(layer: u64, fraction: u64, positive: bool)
    requires
        layer < 128,
        fraction < 0x1000000,
    ensures
        ({
            let u = (fraction << 8) | (if positive { 0x80u64 } else { 0u64 }) | layer;
            layer_of(u) == layer && fraction_of(u) == fraction && is_positive(u) == positive
        }),
{
    if positive {
        assert(((fraction << 8) | 0x80 | layer) & 0x7f == layer
            && ((((fraction << 8) | 0x80 | layer) >> 8) & 0xffffff == fraction)
            && (((fraction << 8) | 0x80 | layer) & 0x80 != 0)) by (bit_vector)
            requires
                layer < 128,
                fraction < 0x1000000,
        ;
    } else {
        assert(((fraction << 8) | 0 | layer) & 0x7f == layer
            && ((((fraction << 8) | 0 | layer) >> 8) & 0xffffff == fraction)
            && (((fraction << 8) | 0 | layer) & 0x80 == 0)) by (bit_vector)
            requires
                layer < 128,
                fraction < 0x1000000,
        ;
    }
}

/// A wedge step always lies strictly below the tail layer, so the
/// density-height table can also be read at the layer right above it.
pub proof fn lemma_wedge_has_upper_neighbor(u: u64)
    ensures
        spec_classify(u) matches Step::Wedge { layer, .. } ==> layer < TAIL_LAYER,
{
    lemma_decode_in_range(u);
}

/// The base layer never accepts on the fast path: its threshold is
/// zero, so every word that selects it goes on to the wedge test.
pub proof fn lemma_no_fast_accept_on_base_layer(u: u64)
    requires
        layer_of(u) == 0,
    ensures
        !(spec_classify(u) is Accept),
{
    assert(THRESHOLDS@[0] == 0);
}

/// Report whether every fast-path threshold fits in 24 bits. Only then
/// can a 24-bit fraction ever miss the fast path, which the wedge and
/// tail branches rely on to be reachable.
pub fn thresholds_fit_in_24_bits() -> (ok: bool)
    ensures
        ok <==> (forall|i: int| 0 <= i < 128 ==> THRESHOLDS@[i] < 0x1000000),
{
    let mut i: usize = 0;
    while i < 128
        invariant
            i <= 128,
            forall|k: int| 0 <= k < i ==> THRESHOLDS@[k] < 0x1000000,
        decreases 128 - i,
    {
        if THRESHOLDS[i] >= 0x1000000 {
            assert(THRESHOLDS@[i as int] >= 0x1000000);
            return false;
        }
        i += 1;
    }
    true
}

/// Decode one drawn word and decide the step the sampler takes next.
pub fn classify(u: u64) -> (s: Step)
    ensures
        s == spec_classify(u),
{
    proof {
        lemma_decode_in_range(u);
    }
    let layer: usize = (u & 0x7f) as usize;
    let fraction: u32 = ((u >> 8) & 0xffffff) as u32;
    let positive: bool = u & 0x80 != 0;
    if fraction < THRESHOLDS[layer] {
        Step::Accept { positive, layer, fraction }
    } else if layer < TAIL_LAYER {
        Step::Wedge { positive, layer, fraction }
    } else {
        Step::Tail { positive }
    }
}

} // verus!
