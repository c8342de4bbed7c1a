//! Plain shared types: window and texture records, logical input events,
//! the screen context handed to the rendering adapter, and the result of an
//! overlap classification.

use vstd::prelude::*;

use crate::math::{Mat, Vec2};

verus! {

/// Stable handle the asset manager assigns to a loaded texture.
pub type TextureId = usize;

/// Pixel dimensions of the rendering surface.
pub struct WindowState {
    pub width: u32,
    pub height: u32,
}

impl WindowState {
    pub fn new(width: u32, height: u32) -> (r: WindowState)
        ensures
            r.width == width,
            r.height == height,
    {
        WindowState { width, height }
    }
}

impl Default for WindowState {
    /// The window the game opens with.
    fn default() -> (r: WindowState)
        ensures
            r.width == 800,
            r.height == 600,
    {
        WindowState { width: 800, height: 600 }
    }
}

/// Handle and pixel dimensions of a texture the asset manager holds.
#[derive(Copy, Clone, Debug)]
pub struct TextureInfo {
    pub id: TextureId,
    pub width: u32,
    pub height: u32,
}

impl TextureInfo {
    pub fn new(id: TextureId, width: u32, height: u32) -> (r: TextureInfo)
        ensures
            r.id == id,
            r.width == width,
            r.height == height,
    {
        TextureInfo { id, width, height }
    }
}

/// The two vertex attributes a sprite quad carries.
#[derive(Copy, Clone, Debug)]
pub enum VertexSemantics {
    Position,
    TextureCoords,
}

/// One corner of a sprite quad: position in the unit square and the texel it
/// samples, both as fixed-point pairs.
#[derive(Copy, Clone, Debug, PartialEq, Eq, Structural)]
pub struct Vertex {
    pub position: Vec2,
    pub tex_coords: Vec2,
}

/// The logical keys the game reads.  The windowing layer translates its own
/// key codes into these; anything the game does not react to maps to
/// `Other`.
#[derive(Copy, Clone, Debug, PartialEq, Eq, Structural)]
pub enum Key {
    Left,
    Right,
    Up,
    Down,
    A,
    D,
    W,
    S,
    Escape,
    Other,
}

/// What happened to a key.
#[derive(Copy, Clone, Debug, PartialEq, Eq, Structural)]
pub enum Action {
    Press,
    Release,
    Repeat,
}

/// A discrete input event from the platform layer.
#[derive(Copy, Clone, Debug, PartialEq, Eq, Structural)]
pub enum InputEvent {
    Key(Key, Action),
}

/// An event observed by the game loop.
#[derive(Copy, Clone, Debug, PartialEq, Eq, Structural)]
pub enum GameEvent {
    CloseWindow,
    WindowResize(u32, u32),
    Input(InputEvent),
}

/// The projection the renderer applies for the current surface, with the
/// surface's pixel dimensions.
#[derive(Copy, Clone)]
pub struct ScreenContext {
    pub transform: Mat,
    pub width: u32,
    pub height: u32,
}

impl ScreenContext {
    pub fn new(transform: Mat, width: u32, height: u32) -> (r: ScreenContext)
        ensures
            r.transform == transform,
            r.width == width,
            r.height == height,
    {
        ScreenContext { transform, width, height }
    }

    /// The current projection.
    pub fn transform(&self) -> (r: Mat)
        ensures
            r == self.transform,
    {
        self.transform
    }

    pub fn set_transform(&mut self, transform: Mat)
        ensures
            final(self).transform == transform,
            final(self).width == old(self).width,
            final(self).height == old(self).height,
    {
        self.transform = transform;
    }

    /// The surface's pixel dimensions.
    pub fn dimensions(&self) -> (r: (u32, u32))
        ensures
            r.0 == self.width,
            r.1 == self.height,
    {
        (self.width, self.height)
    }

    pub fn set_dimensions(&mut self, dim: (u32, u32))
        ensures
            final(self).width == dim.0,
            final(self).height == dim.1,
            final(self).transform == old(self).transform,
    {
        self.width = dim.0;
        self.height = dim.1;
    }
}

/// How two axis-aligned boxes overlap: edge-on contact along one axis only,
/// a corner touch on both, or `Neither` when the boxes are apart or the
/// overlap is too deep to pick out a bounce axis.
#[derive(Copy, Clone, Debug, PartialEq, Eq, Structural)]
pub enum OverlapType {
    OnlyX,
    OnlyY,
    Both,
    Neither,
}

} // verus!
