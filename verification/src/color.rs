//! Background color handling.
//!
//! The shell configures the panel background as four 8-bit channels. Before
//! a frame is cleared, each RGB channel is pre-multiplied by the alpha
//! channel, so a translucent background does not bleed where nothing is
//! drawn over it.

use vstd::prelude::*;

verus! {

/// An RGBA color with 8-bit channels.
#[derive(Clone, Copy, Debug, PartialEq, Eq, Structural)]
pub struct Rgba {
    pub r: u8,
    pub g: u8,
    pub b: u8,
    pub a: u8,
}

/// One channel scaled by the alpha channel: `c * a / 255`.
pub open spec fn spec_premul_channel(c: u8, a: u8) -> int {
    (c * a) / 255
}

/// Multiplies one color channel by an alpha channel.
fn premul_channel(c: u8, a: u8) -> (r: u8)
    ensures
        r == spec_premul_channel(c, a),
{
    proof {
        assert(c * a <= 255 * 255) by (nonlinear_arith)
            requires
                c <= 255,
                a <= 255,
        ;
    }
    ((c as u32 * a as u32) / 255) as u8
}

impl Rgba {
    /// Fully transparent black, the clear color of the hidden fast path.
    pub fn transparent() -> (r: Rgba)
        ensures
            r == Rgba::spec_transparent(),
    {
        Rgba { r: 0, g: 0, b: 0, a: 0 }
    }

    /// Spec-level form of [`Rgba::transparent`].
    pub open spec fn spec_transparent() -> Rgba {
        Rgba { r: 0, g: 0, b: 0, a: 0 }
    }

    /// Spec-level form of [`Rgba::premultiplied`].
    pub open spec fn spec_premultiplied(self) -> Rgba {
        Rgba {
            r: spec_premul_channel(self.r, self.a) as u8,
            g: spec_premul_channel(self.g, self.a) as u8,
            b: spec_premul_channel(self.b, self.a) as u8,
            a: self.a,
        }
    }

    /// The color with each RGB channel pre-multiplied by its own alpha;
    /// alpha itself is unchanged.
    pub fn premultiplied(self) -> (r: Rgba)
        ensures
            r == self.spec_premultiplied(),
            r.r == spec_premul_channel(self.r, self.a),
            r.g == spec_premul_channel(self.g, self.a),
            r.b == spec_premul_channel(self.b, self.a),
            r.a == self.a,
    {
        Rgba {
            r: premul_channel(self.r, self.a),
            g: premul_channel(self.g, self.a),
            b: premul_channel(self.b, self.a),
            a: self.a,
        }
    }
}

} // verus!
