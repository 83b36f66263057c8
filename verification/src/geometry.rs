//! Window geometry: the persisted bounds record and the fixed size presets.

use vstd::prelude::*;

verus! {

/// Horizontal position used when none is stored.
pub const DEFAULT_X: i32 = 0;

/// Vertical position used when none is stored.
pub const DEFAULT_Y: i32 = 0;

/// Outer width used when none is stored.
pub const DEFAULT_WIDTH: u32 = 520;

/// Outer height used when none is stored.
pub const DEFAULT_HEIGHT: u32 = 209;

/// Outer window geometry, as persisted across launches.
#[derive(Clone, Copy, PartialEq, Eq, Structural, Debug)]
pub struct WindowBounds {
    pub x: i32,
    pub y: i32,
    pub width: u32,
    pub height: u32,
}

impl WindowBounds {
    /// The bounds a fresh installation starts from.
    pub open spec fn spec_default() -> WindowBounds {
        WindowBounds { x: DEFAULT_X, y: DEFAULT_Y, width: DEFAULT_WIDTH, height: DEFAULT_HEIGHT }
    }
}

impl Default for WindowBounds {
    /// Yields the default bounds `{0, 0, 520, 209}`.
    fn default() -> (r: WindowBounds)
        ensures
            r == WindowBounds::spec_default(),
    {
        WindowBounds { x: DEFAULT_X, y: DEFAULT_Y, width: DEFAULT_WIDTH, height: DEFAULT_HEIGHT }
    }
}

/// A size preset offered by the tray menu. Presets are applied transiently
/// and are not persisted directly; only a later resize event writes them back.
#[derive(Clone, Copy, PartialEq, Eq, Structural, Debug)]
pub enum SizePreset {
    Small,
    Medium,
    Large,
}

impl SizePreset {
    pub open spec fn spec_width(self) -> u32 {
        match self {
            SizePreset::Small => 316,
            SizePreset::Medium => 474,
            SizePreset::Large => 632,
        }
    }

    pub open spec fn spec_height(self) -> u32 {
        match self {
            SizePreset::Small => 96,
            SizePreset::Medium => 144,
            SizePreset::Large => 192,
        }
    }

    /// The fixed outer size `(width, height)` of this preset.
    pub fn dimensions(self) -> (r: (u32, u32))
        ensures
            r.0 == self.spec_width(),
            r.1 == self.spec_height(),
    {
        match self {
            SizePreset::Small => (316, 96),
            SizePreset::Medium => (474, 144),
            SizePreset::Large => (632, 192),
        }
    }
}

} // verus!
