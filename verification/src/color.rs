use vstd::prelude::*;

verus! {

/// An RGBA color: four independent 8-bit channels, compared by value.
#[derive(Debug, Clone, Copy, PartialEq, Eq, Structural)]
pub struct Color {
    pub r: u8,
    pub g: u8,
    pub b: u8,
    pub a: u8,
}

/// One channel of the over-compositing rule: the overlay's alpha is the blend
/// weight, as the exact rational `alpha / 255`, and the blended channel is
/// truncated toward zero to 8 bits.
pub open spec fn composite_channel(base: u8, over: u8, alpha: u8) -> u8 {
    ((base * (255 - alpha) + over * alpha) / 255) as u8
}

/// The over-compositing rule on whole colors: r, g and b are blended with the
/// overlay's alpha as the weight; the base's alpha is kept unchanged.
pub open spec fn composite_over(base: Color, overlay: Color) -> Color {
    Color {
        r: composite_channel(base.r, overlay.r, overlay.a),
        g: composite_channel(base.g, overlay.g, overlay.a),
        b: composite_channel(base.b, overlay.b, overlay.a),
        a: base.a,
    }
}

/// Opaque black, the color every buffer cell starts from.
pub open spec fn opaque_black() -> Color {
    Color { r: 0, g: 0, b: 0, a: 255 }
}

/// The blended value of one channel lies in the 8-bit range before it is
/// truncated, so the truncation in `composite_channel` never loses anything.
pub proof fn lemma_channel_in_range(base: u8, over: u8, alpha: u8)
    ensures
        0 <= base * (255 - alpha) + over * alpha <= 65025,
        0 <= (base * (255 - alpha) + over * alpha) / 255 <= 255,
{
    assert(0 <= base * (255 - alpha) + over * alpha <= 65025) by (nonlinear_arith)
        requires
            base <= 255,
            over <= 255,
            alpha <= 255,
    ;
    assert(0 <= (base * (255 - alpha) + over * alpha) / 255 <= 255) by (nonlinear_arith)
        requires
            0 <= base * (255 - alpha) + over * alpha <= 65025,
    ;
}

/// Law: a fully opaque overlay replaces the base's r, g and b exactly, while
/// the base's alpha stays.
pub proof fn lemma_composite_opaque_overlay(base: Color, overlay: Color)
    requires
        overlay.a == 255,
    ensures
        composite_over(base, overlay) == (Color {
            r: overlay.r,
            g: overlay.g,
            b: overlay.b,
            a: base.a,
        }),
{
    assert((base.r * 0 + overlay.r * 255) / 255 == overlay.r) by (nonlinear_arith)
        requires
            overlay.r <= 255,
    ;
    assert((base.g * 0 + overlay.g * 255) / 255 == overlay.g) by (nonlinear_arith)
        requires
            overlay.g <= 255,
    ;
    assert((base.b * 0 + overlay.b * 255) / 255 == overlay.b) by (nonlinear_arith)
        requires
            overlay.b <= 255,
    ;
}

/// Law: a fully transparent overlay leaves the base color unchanged.
pub proof fn lemma_composite_transparent_overlay(base: Color, overlay: Color)
    requires
        overlay.a == 0,
    ensures
        composite_over(base, overlay) == base,
{
    assert((base.r * 255 + overlay.r * 0) / 255 == base.r) by (nonlinear_arith)
        requires
            base.r <= 255,
    ;
    assert((base.g * 255 + overlay.g * 0) / 255 == base.g) by (nonlinear_arith)
        requires
            base.g <= 255,
    ;
    assert((base.b * 255 + overlay.b * 0) / 255 == base.b) by (nonlinear_arith)
        requires
            base.b <= 255,
    ;
}

/// Law: compositing never touches the base's alpha channel, whatever the
/// overlay is.
pub proof fn lemma_composite_alpha_passthrough(base: Color, overlay: Color)
    ensures
        composite_over(base, overlay).a == base.a,
{
}

/// Blends one channel of an overlay onto one channel of a base color.
fn blend_channel(base: u8, over: u8, alpha: u8) -> (r: u8)
    ensures
        r == composite_channel(base, over, alpha),
{
    proof {
        lemma_channel_in_range(base, over, alpha);
    }
    let v: u32 = base as u32 * (255 - alpha as u32) + over as u32 * alpha as u32;
    (v / 255) as u8
}

impl Color {
    /// Builds a color from its four channels.
    pub fn rgba(r: u8, g: u8, b: u8, a: u8) -> (c: Color)
        ensures
            c == (Color { r, g, b, a }),
    {
        Color { r, g, b, a }
    }

    /// Builds a fully opaque color from its r, g and b channels.
    pub fn rgb(r: u8, g: u8, b: u8) -> (c: Color)
        ensures
            c == (Color { r, g, b, a: 255 }),
    {
        Color::rgba(r, g, b, 255)
    }

    /// Composites `other` over this color in place: r, g and b are blended
    /// with `other.a` as the weight; this color's alpha is left as it was.
    pub fn add_layer_above(&mut self, other: Color)
        ensures
            *final(self) == composite_over(*old(self), other),
    {
        self.r = blend_channel(self.r, other.r, other.a);
        self.g = blend_channel(self.g, other.g, other.a);
        self.b = blend_channel(self.b, other.b, other.a);
    }
}

} // verus!
