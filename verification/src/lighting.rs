//! The lighting subpass's accumulation model.
//!
//! Each light is one full-screen draw into the light-accumulation
//! attachment, blended additively: color op add with factors one/one, alpha
//! op max. Successive draws therefore add up instead of overwriting, and
//! each channel saturates at the attachment format's maximum. The
//! attachment format packs 10-bit color channels and a 2-bit alpha channel,
//! so a channel value is an integer in the format's representable range.

use vstd::prelude::*;

verus! {

/// Largest representable value of the 10-bit color channels of the
/// light-accumulation attachment.
pub const COLOR_CHANNEL_MAX: u32 = 1023;

/// Largest representable value of its 2-bit alpha channel.
pub const ALPHA_CHANNEL_MAX: u32 = 3;

/// One pixel value of the light-accumulation attachment, one integer per
/// channel in the format's representable range.
#[derive(Clone, Copy, Debug, PartialEq, Eq, Structural)]
pub struct LightColor {
    pub red: u32,
    pub green: u32,
    pub blue: u32,
    pub alpha: u32,
}

/// All channels lie within the attachment format's representable range.
pub open spec fn color_wf(c: LightColor) -> bool {
    &&& c.red <= COLOR_CHANNEL_MAX
    &&& c.green <= COLOR_CHANNEL_MAX
    &&& c.blue <= COLOR_CHANNEL_MAX
    &&& c.alpha <= ALPHA_CHANNEL_MAX
}

/// The attachment's clear value: all channels zero.
pub open spec fn spec_clear_color() -> LightColor {
    LightColor { red: 0, green: 0, blue: 0, alpha: 0 }
}

/// The attachment's clear value: all channels zero.
pub fn clear_color() -> (r: LightColor)
    ensures
        r == spec_clear_color(),
{
    LightColor { red: 0, green: 0, blue: 0, alpha: 0 }
}

/// `x + y` saturated at `max`.
pub open spec fn spec_add_saturating(x: u32, y: u32, max: u32) -> u32 {
    if x + y > max {
        max
    } else {
        (x + y) as u32
    }
}

/// One light draw blended over the attachment: additive color with
/// factors one/one, saturating at the channel maximum, and max blending on
/// alpha.
pub open spec fn spec_blend(dst: LightColor, src: LightColor) -> LightColor {
    LightColor {
        red: spec_add_saturating(dst.red, src.red, COLOR_CHANNEL_MAX),
        green: spec_add_saturating(dst.green, src.green, COLOR_CHANNEL_MAX),
        blue: spec_add_saturating(dst.blue, src.blue, COLOR_CHANNEL_MAX),
        alpha: if dst.alpha >= src.alpha {
            dst.alpha
        } else {
            src.alpha
        },
    }
}

/// `x + y` saturated at `max`.
fn add_saturating(x: u32, y: u32, max: u32) -> (r: u32)
    requires
        x <= max,
        y <= max,
        max <= 0x7fff_ffff,
    ensures
        r == spec_add_saturating(x, y, max),
{
    let sum: u32 = x + y;
    if sum > max {
        max
    } else {
        sum
    }
}

/// Blends one light draw over the current attachment value.
pub fn blend_light(dst: LightColor, src: LightColor) -> (r: LightColor)
    requires
        color_wf(dst),
        color_wf(src),
    ensures
        r == spec_blend(dst, src),
        color_wf(r),
{
    LightColor {
        red: add_saturating(dst.red, src.red, COLOR_CHANNEL_MAX),
        green: add_saturating(dst.green, src.green, COLOR_CHANNEL_MAX),
        blue: add_saturating(dst.blue, src.blue, COLOR_CHANNEL_MAX),
        alpha: if dst.alpha >= src.alpha {
            dst.alpha
        } else {
            src.alpha
        },
    }
}

/// The attachment value after the lighting subpass: the clear value with
/// every light draw blended over it, in draw order.
pub open spec fn spec_accumulate(clear: LightColor, draws: Seq<LightColor>) -> LightColor
    decreases draws.len(),
{
    if draws.len() == 0 {
        clear
    } else {
        spec_blend(spec_accumulate(clear, draws.drop_last()), draws.last())
    }
}

/// Runs the lighting subpass's blend arithmetic: every light draw blended
/// over the clear value in order.
pub fn accumulate_lights(clear: LightColor, draws: &Vec<LightColor>) -> (r: LightColor)
    requires
        color_wf(clear),
        forall|i: int| 0 <= i < draws@.len() ==> color_wf(#[trigger] draws@[i]),
    ensures
        r == spec_accumulate(clear, draws@),
        color_wf(r),
{
    let n: usize = draws.len();
    let mut acc = clear;
    let mut i: usize = 0;
    while i < n
        invariant
            n == draws@.len(),
            0 <= i <= n,
            color_wf(clear),
            forall|j: int| 0 <= j < n ==> color_wf(#[trigger] draws@[j]),
            color_wf(acc),
            acc == spec_accumulate(clear, draws@.take(i as int)),
        decreases n - i,
    {
        proof {
            assert(draws@.take(i + 1).drop_last() =~= draws@.take(i as int));
            assert(draws@.take(i + 1).last() == draws@[i as int]);
        }
        acc = blend_light(acc, draws[i]);
        i = i + 1;
    }
    proof {
        assert(draws@.take(n as int) =~= draws@);
    }
    acc
}

/// Light accumulation, empty case: with no light draws the attachment
/// keeps its clear value.
pub proof fn lemma_accumulate_empty(clear: LightColor, draws: Seq<LightColor>)
    requires
        draws.len() == 0,
    ensures
        spec_accumulate(clear, draws) == clear,
{
}

/// Light accumulation, two lights: drawing two lights of colors `c1` and
/// `c2` over a zero clear value accumulates to `c1 + c2`, saturated
/// per channel at the format's representable range (alpha by max blending).
pub proof fn lemma_accumulate_two_lights(c1: LightColor, c2: LightColor)
    requires
        color_wf(c1),
        color_wf(c2),
    ensures
        spec_accumulate(spec_clear_color(), seq![c1, c2]) == spec_blend(c1, c2),
        spec_accumulate(spec_clear_color(), seq![c1, c2]).red == spec_add_saturating(
            c1.red,
            c2.red,
            COLOR_CHANNEL_MAX,
        ),
        spec_accumulate(spec_clear_color(), seq![c1, c2]).green == spec_add_saturating(
            c1.green,
            c2.green,
            COLOR_CHANNEL_MAX,
        ),
        spec_accumulate(spec_clear_color(), seq![c1, c2]).blue == spec_add_saturating(
            c1.blue,
            c2.blue,
            COLOR_CHANNEL_MAX,
        ),
{
    let both = seq![c1, c2];
    assert(both.drop_last() =~= seq![c1]);
    assert(seq![c1].drop_last() =~= Seq::<LightColor>::empty());
    assert(seq![c1].last() == c1);
    assert(spec_accumulate(spec_clear_color(), Seq::<LightColor>::empty()) == spec_clear_color());
    assert(spec_accumulate(spec_clear_color(), seq![c1]) == spec_blend(spec_clear_color(), c1));
    assert(spec_blend(spec_clear_color(), c1) == c1);
}

} // verus!
