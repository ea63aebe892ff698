//! Entity state: the player (one rectangle plus its visual identity) and an
//! obstacle (a top and a bottom rectangle sharing one horizontal position,
//! forming a gap pair).

use vstd::prelude::*;
use crate::geometry::Rect;
use crate::PLAYER_VELOCITY;

verus! {

/// An RGB color; the player's visual identity. The core never reads it, it
/// only carries it for the renderer.
#[derive(Clone, Copy, Debug, PartialEq, Eq, Structural)]
pub struct Color {
    pub r: u8,
    pub g: u8,
    pub b: u8,
}

impl Color {
    pub fn rgb(r: u8, g: u8, b: u8) -> (c: Color)
        ensures
            c == (Color { r, g, b }),
    {
        Color { r, g, b }
    }
}

/// The player-controlled rectangle. Exactly one instance lives for the whole
/// run of the simulation loop.
#[derive(Clone, Copy, Debug, PartialEq, Eq, Structural)]
pub struct Player {
    pub pos: Rect,
    pub color: Color,
}

impl Player {
    pub fn new(pos: Rect, color: Color) -> (p: Player)
        ensures
            p == (Player { pos, color }),
    {
        Player { pos, color }
    }

    /// The jump input, edge-triggered: one trigger moves the player up by the
    /// fixed velocity constant, once, leaving everything else unchanged.
    pub fn apply_jump(&mut self)
        requires
            old(self).pos.y >= i32::MIN + PLAYER_VELOCITY,
        ensures
            final(self).pos.y == old(self).pos.y - PLAYER_VELOCITY,
            final(self).pos.x == old(self).pos.x,
            final(self).pos.w == old(self).pos.w,
            final(self).pos.h == old(self).pos.h,
            final(self).color == old(self).color,
    {
        self.pos.y = self.pos.y - PLAYER_VELOCITY;
    }
}

/// One obstacle pair: the top rectangle spans from the screen's top edge down
/// to the gap, the bottom rectangle starts below the gap; both share one
/// horizontal position.
#[derive(Clone, Copy, Debug, PartialEq, Eq, Structural)]
pub struct Pipe {
    pub top_pos: Rect,
    pub bot_pos: Rect,
}

impl Pipe {
    pub fn new(top_pos: Rect, bot_pos: Rect) -> (p: Pipe)
        ensures
            p == (Pipe { top_pos, bot_pos }),
    {
        Pipe { top_pos, bot_pos }
    }
}

} // verus!
