//! The input holder: what the pointer and the wheel did since the last frame.

use crate::draw_list::{ScreenSize, Vec2};
use crate::scalar::{Scalar, ONE_BITS, ZERO_BITS};
use vstd::prelude::*;

verus! {

/// Input state. The embedder writes it as events arrive; the frame reads it
/// once and then resets the deltas.
#[derive(Clone, Copy, Debug, PartialEq, Eq, Structural)]
pub struct Io {
    pub screen_size: ScreenSize,
    pub pixel_ratio: Scalar,
    pub mouse: Vec2,
    pub wheel: Vec2,
    pub wheel_pinch: Scalar,
}

impl Io {
    /// The state before any input: a screen of one pixel at pixel ratio 1,
    /// the pointer at the origin, no wheel or pinch movement.
    pub open spec fn initial() -> Io {
        let zero = Scalar { bits: ZERO_BITS };
        Io {
            screen_size: ScreenSize { x: 1, y: 1 },
            pixel_ratio: Scalar { bits: ONE_BITS },
            mouse: Vec2 { x: zero, y: zero },
            wheel: Vec2 { x: zero, y: zero },
            wheel_pinch: zero,
        }
    }

    /// This state with the wheel and pinch deltas at zero.
    pub open spec fn consumed(self) -> Io {
        let zero = Scalar { bits: ZERO_BITS };
        Io { wheel: Vec2 { x: zero, y: zero }, wheel_pinch: zero, ..self }
    }

    pub fn new() -> (io: Io)
        ensures
            io == Io::initial(),
    {
        Io {
            screen_size: ScreenSize { x: 1, y: 1 },
            pixel_ratio: Scalar::one(),
            mouse: Vec2 { x: Scalar::zero(), y: Scalar::zero() },
            wheel: Vec2 { x: Scalar::zero(), y: Scalar::zero() },
            wheel_pinch: Scalar::zero(),
        }
    }

    pub fn wheel_x(&self) -> (x: Scalar)
        ensures
            x == self.wheel.x,
    {
        self.wheel.x
    }

    pub fn set_wheel_x(&mut self, wheel_x: Scalar)
        ensures
            *final(self) == (Io { wheel: Vec2 { x: wheel_x, y: old(self).wheel.y }, ..*old(self) }),
    {
        self.wheel.x = wheel_x;
    }

    pub fn wheel_y(&self) -> (y: Scalar)
        ensures
            y == self.wheel.y,
    {
        self.wheel.y
    }

    pub fn set_wheel_y(&mut self, wheel_y: Scalar)
        ensures
            *final(self) == (Io { wheel: Vec2 { x: old(self).wheel.x, y: wheel_y }, ..*old(self) }),
    {
        self.wheel.y = wheel_y;
    }

    /// The accumulated pinch delta.
    pub fn pinch(&self) -> (pinch: Scalar)
        ensures
            pinch == self.wheel_pinch,
    {
        self.wheel_pinch
    }

    pub fn set_pinch(&mut self, pinch: Scalar)
        ensures
            *final(self) == (Io { wheel_pinch: pinch, ..*old(self) }),
    {
        self.wheel_pinch = pinch;
    }

    pub fn mouse_x(&self) -> (x: Scalar)
        ensures
            x == self.mouse.x,
    {
        self.mouse.x
    }

    pub fn set_mouse_x(&mut self, mouse_x: Scalar)
        ensures
            *final(self) == (Io { mouse: Vec2 { x: mouse_x, y: old(self).mouse.y }, ..*old(self) }),
    {
        self.mouse.x = mouse_x;
    }

    pub fn mouse_y(&self) -> (y: Scalar)
        ensures
            y == self.mouse.y,
    {
        self.mouse.y
    }

    pub fn set_mouse_y(&mut self, mouse_y: Scalar)
        ensures
            *final(self) == (Io { mouse: Vec2 { x: old(self).mouse.x, y: mouse_y }, ..*old(self) }),
    {
        self.mouse.y = mouse_y;
    }

    pub fn set_screen_size(&mut self, x: u32, y: u32, pixel_ratio: Scalar)
        ensures
            *final(self) == (Io { screen_size: ScreenSize { x, y }, pixel_ratio, ..*old(self) }),
    {
        self.screen_size = ScreenSize { x, y };
        self.pixel_ratio = pixel_ratio;
    }

    /// Zeroes the wheel and pinch deltas once the frame has read them. The
    /// pointer position and the screen stay.
    pub fn reset(&mut self)
        ensures
            *final(self) == old(self).consumed(),
    {
        self.wheel = Vec2 { x: Scalar::zero(), y: Scalar::zero() };
        self.wheel_pinch = Scalar::zero();
    }
}

/// Resetting twice is resetting once, and a reset leaves no delta behind.
pub proof fn lemma_reset_idempotent(io: Io)
    ensures
        io.consumed().consumed() == io.consumed(),
        io.consumed().wheel.x.bits == ZERO_BITS,
        io.consumed().wheel.y.bits == ZERO_BITS,
        io.consumed().wheel_pinch.bits == ZERO_BITS,
        io.consumed().mouse == io.mouse,
        io.consumed().screen_size == io.screen_size,
        io.consumed().pixel_ratio == io.pixel_ratio,
{
}

} // verus!
