//! The jitter pass's sample table, the accumulation it performs, and the
//! viewport that sizes the accumulation buffer.
use vstd::prelude::*;

verus! {

/// The largest value an 8-bit normalized channel holds: full coverage.
pub const FULL_COVERAGE: u8 = 255;

/// Sample offsets are given in twelfths of a pixel.
pub const OFFSET_DENOMINATOR: i32 = 12;

/// The number of jitter samples, over both modes.
pub const JITTER_LEN: usize = 12;

/// Which triangle list a jitter sample draws.
#[derive(Clone, Copy, Debug, PartialEq, Eq)]
pub enum SampleMode {
    Fill,
    Curve,
}

/// One jitter sample: a sub-pixel offset, in twelfths of a pixel, applied to
/// every vertex before projection; the triangle list it draws; and the weight,
/// in 255ths, it adds to each pixel it covers.
#[derive(Clone, Copy, Debug, PartialEq, Eq)]
pub struct JitterSample {
    pub offset_x: i32,
    pub offset_y: i32,
    pub mode: SampleMode,
    pub weight: u8,
}

/// The sample with the given fields.
pub open spec fn sample(offset_x: i32, offset_y: i32, mode: SampleMode, weight: u8) -> JitterSample {
    JitterSample { offset_x, offset_y, mode, weight }
}

/// The rotated-grid sample pattern, shared by both modes.
pub open spec fn pattern(mode: SampleMode) -> Seq<JitterSample> {
    seq![
        sample(-1i32, -5i32, mode, 43),
        sample(1, 1, mode, 42),
        sample(3, -1i32, mode, 43),
        sample(5, 5, mode, 42),
        sample(7, -3i32, mode, 43),
        sample(9, 3, mode, 42),
    ]
}

/// The twelve samples: six of the fill list, then six of the curve list.
pub open spec fn jitter_spec() -> Seq<JitterSample> {
    pattern(SampleMode::Fill) + pattern(SampleMode::Curve)
}

/// The jitter table, in the order the instanced draws index it.
pub fn jitter_samples() -> (r: Vec<JitterSample>)
    ensures
        r@ == jitter_spec(),
{
    let mut r: Vec<JitterSample> = Vec::new();
    let mut m: usize = 0;
    while m < 2
        invariant
            m <= 2,
            m == 0 ==> r@ == Seq::<JitterSample>::empty(),
            m == 1 ==> r@ == pattern(SampleMode::Fill),
            m == 2 ==> r@ == jitter_spec(),
        decreases 2 - m,
    {
        let mode = if m == 0 {
            SampleMode::Fill
        } else {
            SampleMode::Curve
        };
        let ghost before = r@;
        r.push(JitterSample { offset_x: -1, offset_y: -5, mode, weight: 43 });
        r.push(JitterSample { offset_x: 1, offset_y: 1, mode, weight: 42 });
        r.push(JitterSample { offset_x: 3, offset_y: -1, mode, weight: 43 });
        r.push(JitterSample { offset_x: 5, offset_y: 5, mode, weight: 42 });
        r.push(JitterSample { offset_x: 7, offset_y: -3, mode, weight: 43 });
        r.push(JitterSample { offset_x: 9, offset_y: 3, mode, weight: 42 });
        assert(r@ =~= before + pattern(mode));
        m += 1;
    }
    r
}

/// The instances, `lo..hi` into the jitter table, that draw the `mode` list.
pub fn instance_range(mode: SampleMode) -> (r: (u32, u32))
    ensures
        r.0 <= r.1 <= JITTER_LEN,
        r.1 - r.0 == 6,
        forall|k: int| 0 <= k < JITTER_LEN ==> (r.0 <= k < r.1 <==> jitter_spec()[k].mode == mode),
{
    match mode {
        SampleMode::Fill => (0, 6),
        SampleMode::Curve => (6, 12),
    }
}

/// The total weight the samples of `mode` add to a pixel that all of them cover.
pub open spec fn full_weight(samples: Seq<JitterSample>, mode: SampleMode) -> nat
    decreases samples.len(),
{
    if samples.len() == 0 {
        0
    } else {
        full_weight(samples.drop_last(), mode) + if samples.last().mode == mode {
            samples.last().weight as nat
        } else {
            0
        }
    }
}

/// The total weight the samples of `mode` add to a pixel, where `hits[k]` says
/// whether sample `k` covers it.
pub open spec fn hit_weight(samples: Seq<JitterSample>, mode: SampleMode, hits: Seq<bool>) -> nat
    decreases samples.len(),
{
    if samples.len() == 0 {
        0
    } else {
        let k = samples.len() - 1;
        hit_weight(samples.drop_last(), mode, hits) + if samples.last().mode == mode && hits[k] {
            samples.last().weight as nat
        } else {
            0
        }
    }
}

/// Additive blending into an 8-bit normalized channel: the sum, clamped at
/// full coverage.
pub open spec fn add_clamped(dst: nat, src: nat) -> nat {
    if dst + src > FULL_COVERAGE {
        FULL_COVERAGE as nat
    } else {
        dst + src
    }
}

/// The channel value after the samples of `mode` that cover the pixel are
/// blended, in order, into a channel cleared to zero.
pub open spec fn accumulated(samples: Seq<JitterSample>, mode: SampleMode, hits: Seq<bool>) -> nat
    decreases samples.len(),
{
    if samples.len() == 0 {
        0
    } else {
        let k = samples.len() - 1;
        add_clamped(
            accumulated(samples.drop_last(), mode, hits),
            if samples.last().mode == mode && hits[k] {
                samples.last().weight as nat
            } else {
                0
            },
        )
    }
}

proof fn lemma_hit_weight_bounded(samples: Seq<JitterSample>, mode: SampleMode, hits: Seq<bool>)
    ensures
        hit_weight(samples, mode, hits) <= full_weight(samples, mode),
    decreases samples.len(),
{
    if samples.len() > 0 {
        lemma_hit_weight_bounded(samples.drop_last(), mode, hits);
    }
}

proof fn lemma_no_clamping(samples: Seq<JitterSample>, mode: SampleMode, hits: Seq<bool>)
    requires
        full_weight(samples, mode) <= FULL_COVERAGE,
    ensures
        accumulated(samples, mode, hits) == hit_weight(samples, mode, hits),
    decreases samples.len(),
{
    if samples.len() > 0 {
        lemma_no_clamping(samples.drop_last(), mode, hits);
        lemma_hit_weight_bounded(samples, mode, hits);
    }
}

/// Within each mode the samples' weights add up to exactly full coverage, so
/// accumulating them never clips: whatever samples cover a pixel, the channel
/// holds the exact sum of their weights, at most full coverage, and exactly
/// full coverage when every sample covers it.
pub proof fn lemma_jitter_never_clips(mode: SampleMode, hits: Seq<bool>)
    requires
        hits.len() == JITTER_LEN,
    ensures
        full_weight(jitter_spec(), mode) == FULL_COVERAGE,
        accumulated(jitter_spec(), mode, hits) == hit_weight(jitter_spec(), mode, hits),
        hit_weight(jitter_spec(), mode, hits) <= FULL_COVERAGE,
        (forall|k: int| 0 <= k < JITTER_LEN ==> hits[k]) ==> accumulated(jitter_spec(), mode, hits)
            == FULL_COVERAGE,
{
    reveal_with_fuel(full_weight, 13);
    assert(full_weight(jitter_spec(), mode) == FULL_COVERAGE);
    lemma_no_clamping(jitter_spec(), mode, hits);
    lemma_hit_weight_bounded(jitter_spec(), mode, hits);
    if forall|k: int| 0 <= k < JITTER_LEN ==> hits[k] {
        reveal_with_fuel(hit_weight, 13);
    }
}

/// The rasterize pass's colour blend, in 255ths: the sample weighted by what
/// the surface lacks, plus what the surface holds (`src * (1 - dst) + dst`).
pub open spec fn resolve_color(src: nat, dst: nat) -> nat {
    src * ((FULL_COVERAGE - dst) as nat) / (FULL_COVERAGE as nat) + dst
}

/// The rasterize pass's alpha blend: the sample replaces what the surface held.
pub open spec fn resolve_alpha(src: nat, dst: nat) -> nat {
    src
}

/// A pixel every jitter sample of a mode covers resolves to full intensity,
/// whatever the surface held before: the accumulated coverage saturates at
/// exactly full, so the blend keeps nothing of the background.
pub proof fn lemma_full_coverage_resolves(mode: SampleMode, hits: Seq<bool>, dst_color: nat, dst_alpha: nat)
    requires
        hits.len() == JITTER_LEN,
        forall|k: int| 0 <= k < JITTER_LEN ==> hits[k],
        dst_color <= FULL_COVERAGE,
    ensures
        resolve_color(accumulated(jitter_spec(), mode, hits), dst_color) == FULL_COVERAGE,
        resolve_alpha(accumulated(jitter_spec(), mode, hits), dst_alpha) == FULL_COVERAGE,
{
    lemma_jitter_never_clips(mode, hits);
    let rest = (FULL_COVERAGE - dst_color) as nat;
    assert(255 * rest / 255 == rest) by (nonlinear_arith);
}

/// Why a rendering configuration was refused.
#[derive(Clone, Copy, Debug, PartialEq, Eq)]
pub enum ConfigError {
    /// The viewport has no pixel.
    EmptyViewport,
}

/// The size, in pixels, of the output viewport and of the accumulation buffer.
#[derive(Clone, Copy, Debug, PartialEq, Eq)]
pub struct ViewSize {
    width: u32,
    height: u32,
}

impl ViewSize {
    #[verifier::type_invariant]
    spec fn has_pixels(self) -> bool {
        self.width > 0 && self.height > 0
    }

    /// A viewport of `width` by `height` pixels; one with no pixel is refused.
    pub fn new(width: u32, height: u32) -> (r: Result<ViewSize, ConfigError>)
        ensures
            width > 0 && height > 0 ==> (r matches Ok(v) && v.width() == width && v.height() == height),
            width == 0 || height == 0 ==> r == Err::<ViewSize, ConfigError>(ConfigError::EmptyViewport),
    {
        if width == 0 || height == 0 {
            Err(ConfigError::EmptyViewport)
        } else {
            Ok(ViewSize { width, height })
        }
    }

    pub closed spec fn width(&self) -> u32 {
        self.width
    }

    pub closed spec fn height(&self) -> u32 {
        self.height
    }

    pub fn get_width(&self) -> (r: u32)
        ensures
            r == self.width(),
            r > 0,
    {
        proof {
            use_type_invariant(self);
        }
        self.width
    }

    pub fn get_height(&self) -> (r: u32)
        ensures
            r == self.height(),
            r > 0,
    {
        proof {
            use_type_invariant(self);
        }
        self.height
    }
}

} // verus!
