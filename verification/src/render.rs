//! What the behaviour core hands the renderer each frame: an anchor mode, a
//! coordinate space, and the full pose computed for the creature sprite and
//! its speech overlay.

use vstd::prelude::*;

use crate::util::RectI;
use crate::util::Vec2I;

verus! {

/// Which coordinate space a sprite position is expressed in.
#[derive(Debug, Clone, Copy, PartialEq, Eq, Structural)]
pub enum RelativeTo {
    Window,
    Screen,
}

/// Which point of the sprite its position refers to.
#[derive(Debug, Clone, Copy, PartialEq, Eq, Structural)]
pub enum Anchor {
    TopLeft,
    BottomCenter,
    Center,
}

impl Anchor {
    /// Top-left corner of a sprite of dimensions `dim` anchored at `pos`.
    pub fn apply(self, pos: Vec2I, dim: Vec2I) -> (r: Vec2I)
        requires
            0 <= dim.x <= 0x10000,
            0 <= dim.y <= 0x10000,
            i32::MIN + 0x10000 <= pos.x,
            i32::MIN + 0x10000 <= pos.y,
        ensures
            self is TopLeft ==> r == pos,
            self is BottomCenter ==> r.x == pos.x - dim.x / 2 && r.y == pos.y - dim.y,
            self is Center ==> r.x == pos.x - dim.x / 2 && r.y == pos.y - dim.y / 2,
    {
        match self {
            Self::TopLeft => pos,
            Self::BottomCenter => Vec2I { x: pos.x - dim.x / 2, y: pos.y - dim.y },
            Self::Center => Vec2I { x: pos.x - dim.x / 2, y: pos.y - dim.y / 2 },
        }
    }
}

/// One frame's render output: where the creature sprite and the speech
/// overlay go, which texture frame each shows, and the bounding rectangle
/// that encloses both (the host window is moved to track it).
#[derive(Debug, Clone, Copy, PartialEq, Eq, Structural)]
pub struct RenderPose {
    /// Absolute position of the creature sprite, centre-anchored.
    pub pos: Vec2I,
    /// Texture index for the creature sprite (always below 10).
    pub sprite_tex: usize,
    /// Absolute position of the speech overlay, bottom-centre-anchored.
    pub text_pos: Vec2I,
    /// Texture index for the speech overlay (always below 4).
    pub text_tex: usize,
    /// Bounding rectangle of sprite plus any visible speech overlay.
    pub bounds: RectI,
    /// Anchor mode for the creature sprite.
    pub sprite_anchor: Anchor,
    /// Anchor mode for the speech overlay.
    pub text_anchor: Anchor,
    /// Coordinate space of both positions.
    pub relative: RelativeTo,
}

} // verus!
