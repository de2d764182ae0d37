//! The default compositing shader: its source text, and its arithmetic as
//! exact integer computations.
//!
//! For each pixel the shader reads the diffuse texture once and the emissive
//! texture on a square grid of offsets around the pixel, sums the emissive
//! samples, divides the sum by a fixed divisor and adds the diffuse sample.
//! The divisor is smaller than the number of samples, on purpose: the glow
//! comes out brighter than its source.
//!
//! Colour components are whole numbers here, as they are stored in an
//! eight-bit texture, and results are given in eighteenths of that unit, so
//! that the division loses nothing.

use vstd::prelude::*;

verus! {

/// The fragment stage of the default compositing program. It reads the
/// samplers `diffuse_texture` and `emissive_texture`; `ambient` is declared
/// for programs that replace this one and is not used here.
pub const DEFAULT_FRAGMENT_SHADER: &'static str = r#"
        #version 140
        in vec2 v_tex_coords;
        out vec4 color;
        uniform sampler2D diffuse_texture;
        uniform sampler2D emissive_texture;
        uniform float ambient;
        void main() {
            vec4 emissive_color = vec4(0., 0., 0., 0.);

            float blur_amount = 3;
            for(float x = -blur_amount; x <= blur_amount; x++)
            {
                for(float y = -blur_amount; y <= blur_amount; y++)
                {
                    vec2 coords = v_tex_coords + vec2(x, y) * 0.001;
                    emissive_color += texture(emissive_texture, coords);
                }
            }
            emissive_color = emissive_color / (2 * blur_amount * blur_amount);

            vec4 diffuse_color = texture(diffuse_texture, v_tex_coords);
            color = diffuse_color + emissive_color;
        }
    "#;

/// How far the blur reaches from the pixel, in offset steps, along each axis.
pub const BLUR_AMOUNT: i8 = 3;

/// The number of offsets along one axis.
pub const BLUR_SIDE: usize = 7;

/// The number of emissive samples taken for one pixel.
pub const BLUR_SAMPLES: usize = 49;

/// What the sum of the emissive samples is divided by.
pub const BLUR_DIVISOR: u32 = 18;

/// The offset steps in one unit of texture space.
pub const OFFSET_STEPS_PER_UNIT: u32 = 1000;

/// The offset of the sample at position `index` of the grid, in steps: the
/// horizontal offset changes slowest.
pub open spec fn spec_offset(index: int) -> (i8, i8) {
    ((index / 7 - 3) as i8, (index % 7 - 3) as i8)
}

/// The position in the grid of the sample at offset `(x, y)`.
pub open spec fn spec_position(x: int, y: int) -> int {
    (x + 3) * 7 + (y + 3)
}

/// The sum of a sequence of samples.
pub open spec fn sample_sum(samples: Seq<u8>) -> int
    decreases samples.len(),
{
    if samples.len() == 0 {
        0
    } else {
        sample_sum(samples.drop_last()) + samples.last()
    }
}

/// Eighteen times the blurred emissive component: the plain sum of the
/// samples.
pub open spec fn spec_emissive_blur(samples: Seq<u8>) -> int {
    sample_sum(samples)
}

/// Eighteen times the composited component: the diffuse sample plus the
/// blurred emissive component, with nothing clamped.
pub open spec fn spec_composite(diffuse: u8, emissive: Seq<u8>) -> int {
    BLUR_DIVISOR * diffuse + spec_emissive_blur(emissive)
}

/// The offsets at which the emissive texture is sampled, in the order in
/// which the shader visits them. An offset counts steps, and a unit of texture
/// space has `OFFSET_STEPS_PER_UNIT` of them.
pub fn blur_offsets() -> (offsets: Vec<(i8, i8)>)
    ensures
        offsets@.len() == 49,
        forall|i: int| 0 <= i < 49 ==> #[trigger] offsets@[i] == spec_offset(i),
{
    let mut offsets: Vec<(i8, i8)> = Vec::new();
    let mut x: i8 = -BLUR_AMOUNT;
    while x <= BLUR_AMOUNT
        invariant
            -3 <= x <= 4,
            offsets@.len() == (x + 3) * 7,
            forall|i: int| 0 <= i < offsets@.len() ==> #[trigger] offsets@[i] == spec_offset(i),
        decreases 4 - x,
    {
        let mut y: i8 = -BLUR_AMOUNT;
        while y <= BLUR_AMOUNT
            invariant
                -3 <= x <= 3,
                -3 <= y <= 4,
                offsets@.len() == (x + 3) * 7 + (y + 3),
                forall|i: int|
                    0 <= i < offsets@.len() ==> #[trigger] offsets@[i] == spec_offset(i),
            decreases 4 - y,
        {
            offsets.push((x, y));
            y = y + 1;
        }
        x = x + 1;
    }
    offsets
}

/// The blurred emissive component of a pixel, in eighteenths, from its
/// samples.
pub fn emissive_blur(samples: &[u8; BLUR_SAMPLES]) -> (eighteenths: u32)
    ensures
        eighteenths == spec_emissive_blur(samples@),
{
    let mut sum: u32 = 0;
    let mut i: usize = 0;
    while i < BLUR_SAMPLES
        invariant
            i <= BLUR_SAMPLES,
            samples@.len() == BLUR_SAMPLES,
            sum == sample_sum(samples@.take(i as int)),
            sum <= 255 * i,
        decreases BLUR_SAMPLES - i,
    {
        proof {
            assert(samples@.take(i + 1).drop_last() =~= samples@.take(i as int));
        }
        sum = sum + samples[i] as u32;
        i = i + 1;
    }
    proof {
        assert(samples@.take(BLUR_SAMPLES as int) =~= samples@);
    }
    sum
}

/// The composited component of a pixel, in eighteenths, from its diffuse
/// sample and its emissive samples.
pub fn composite(diffuse: u8, emissive: &[u8; BLUR_SAMPLES]) -> (eighteenths: u32)
    ensures
        eighteenths == spec_composite(diffuse, emissive@),
{
    let blur = emissive_blur(emissive);
    proof {
        lemma_sample_sum_bound(emissive@);
    }
    BLUR_DIVISOR * (diffuse as u32) + blur
}

/// A sum of samples is at most the largest sample value times their number.
pub proof fn lemma_sample_sum_bound(samples: Seq<u8>)
    ensures
        0 <= sample_sum(samples) <= 255 * samples.len(),
    decreases samples.len(),
{
    if samples.len() > 0 {
        lemma_sample_sum_bound(samples.drop_last());
    }
}

/// Where every sample has the same value, the sum is that value times the
/// number of samples.
pub proof fn lemma_sample_sum_constant(samples: Seq<u8>, value: u8)
    requires
        forall|i: int| 0 <= i < samples.len() ==> samples[i] == value,
    ensures
        sample_sum(samples) == samples.len() * value,
    decreases samples.len(),
{
    if samples.len() > 0 {
        lemma_sample_sum_constant(samples.drop_last(), value);
        assert(samples.len() * value == (samples.len() - 1) * value + value) by (nonlinear_arith);
    }
}

/// The grid has as many samples as it has offsets, and the divisor is twice
/// the square of the reach.
pub proof fn lemma_blur_constants()
    ensures
        BLUR_SIDE == 2 * BLUR_AMOUNT + 1,
        BLUR_SAMPLES == BLUR_SIDE * BLUR_SIDE,
        BLUR_DIVISOR == 2 * BLUR_AMOUNT * BLUR_AMOUNT,
        forall|i: int|
            0 <= i < BLUR_SAMPLES ==> -BLUR_AMOUNT <= (#[trigger] spec_offset(i)).0 <= BLUR_AMOUNT
                && -BLUR_AMOUNT <= spec_offset(i).1 <= BLUR_AMOUNT,
        forall|x: int, y: int|
            -BLUR_AMOUNT <= x <= BLUR_AMOUNT && -BLUR_AMOUNT <= y <= BLUR_AMOUNT ==> 0
                <= #[trigger] spec_position(x, y) < BLUR_SAMPLES && spec_offset(spec_position(x, y))
                == (x as i8, y as i8),
{
}

/// An emissive texture of one value `e` everywhere blurs to `49 * e / 18`:
/// the blur amplifies by forty-nine eighteenths.
pub proof fn lemma_constant_emissive_is_amplified(samples: Seq<u8>, e: u8)
    requires
        samples.len() == BLUR_SAMPLES,
        forall|i: int| 0 <= i < samples.len() ==> samples[i] == e,
    ensures
        spec_emissive_blur(samples) == 49 * e,
{
    lemma_sample_sum_constant(samples, e);
}

/// Where the emissive texture is zero everywhere, the composited component
/// is the diffuse sample itself.
pub proof fn lemma_dark_emissive_passes_diffuse(diffuse: u8, emissive: Seq<u8>)
    requires
        emissive.len() == BLUR_SAMPLES,
        forall|i: int| 0 <= i < emissive.len() ==> emissive[i] == 0,
    ensures
        spec_composite(diffuse, emissive) == 18 * diffuse,
{
    lemma_sample_sum_constant(emissive, 0);
}

} // verus!
