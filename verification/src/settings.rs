//! The persisted settings document, modelled field by field.
//!
//! The durable store keeps one JSON document with the optional keys
//! `alwaysOnTop` and `windowBounds`. This module models exactly what the
//! shell reads of it: a field that is absent, or present with the wrong
//! type, is `None`, and every `None` falls back to its own default
//! independently of the others.

use vstd::prelude::*;

use crate::geometry::DEFAULT_HEIGHT;
use crate::geometry::DEFAULT_WIDTH;
use crate::geometry::DEFAULT_X;
use crate::geometry::DEFAULT_Y;
use crate::geometry::WindowBounds;

verus! {

/// The `windowBounds` object as found in the store: each coordinate may be
/// missing (or carry a non-numeric value, which the shell treats the same).
#[derive(Clone, Copy, PartialEq, Eq, Debug)]
pub struct StoredBounds {
    pub x: Option<i32>,
    pub y: Option<i32>,
    pub width: Option<u32>,
    pub height: Option<u32>,
}

impl StoredBounds {
    /// A complete record holding every field of `b`.
    pub open spec fn spec_full(b: WindowBounds) -> StoredBounds {
        StoredBounds {
            x: Some(b.x),
            y: Some(b.y),
            width: Some(b.width),
            height: Some(b.height),
        }
    }

    /// Field-wise resolution: each missing field falls back to its own
    /// default, independent of the others.
    pub open spec fn spec_resolved(self) -> WindowBounds {
        WindowBounds {
            x: match self.x {
                Some(v) => v,
                None => DEFAULT_X,
            },
            y: match self.y {
                Some(v) => v,
                None => DEFAULT_Y,
            },
            width: match self.width {
                Some(v) => v,
                None => DEFAULT_WIDTH,
            },
            height: match self.height {
                Some(v) => v,
                None => DEFAULT_HEIGHT,
            },
        }
    }

    /// Builds the complete record that persisting `b` writes.
    pub fn full(b: WindowBounds) -> (r: StoredBounds)
        ensures
            r == StoredBounds::spec_full(b),
    {
        StoredBounds {
            x: Some(b.x),
            y: Some(b.y),
            width: Some(b.width),
            height: Some(b.height),
        }
    }

    /// Resolves this record against the defaults, field by field.
    pub fn resolved(&self) -> (r: WindowBounds)
        ensures
            r == self.spec_resolved(),
    {
        WindowBounds {
            x: match self.x {
                Some(v) => v,
                None => DEFAULT_X,
            },
            y: match self.y {
                Some(v) => v,
                None => DEFAULT_Y,
            },
            width: match self.width {
                Some(v) => v,
                None => DEFAULT_WIDTH,
            },
            height: match self.height {
                Some(v) => v,
                None => DEFAULT_HEIGHT,
            },
        }
    }
}

/// The whole settings document. `always_on_top` is `None` when the key is
/// absent or not a boolean; `window_bounds` is `None` when the key is absent
/// or not an object.
#[derive(Clone, Copy, PartialEq, Eq, Debug)]
pub struct SettingsDoc {
    pub always_on_top: Option<bool>,
    pub window_bounds: Option<StoredBounds>,
}

impl SettingsDoc {
    /// The document read when the settings file is absent.
    pub open spec fn spec_empty() -> SettingsDoc {
        SettingsDoc { always_on_top: None, window_bounds: None }
    }

    /// The always-on-top flag in force: a stored `true`, and nothing else,
    /// turns it on.
    pub open spec fn spec_effective_always_on_top(self) -> bool {
        self.always_on_top == Some(true)
    }

    /// The bounds in force: the stored record resolved field by field, or
    /// the full default when no record is stored.
    pub open spec fn spec_loaded_bounds(self) -> WindowBounds {
        match self.window_bounds {
            Some(raw) => raw.spec_resolved(),
            None => WindowBounds::spec_default(),
        }
    }

    /// The document with a complete bounds record for `b` written in.
    pub open spec fn spec_with_bounds(self, b: WindowBounds) -> SettingsDoc {
        SettingsDoc { always_on_top: self.always_on_top, window_bounds: Some(StoredBounds::spec_full(b)) }
    }

    /// The document with the always-on-top flag set to `v`.
    pub open spec fn spec_with_always_on_top(self, v: bool) -> SettingsDoc {
        SettingsDoc { always_on_top: Some(v), window_bounds: self.window_bounds }
    }

    /// The document read when the settings file is absent.
    pub fn empty() -> (r: SettingsDoc)
        ensures
            r == SettingsDoc::spec_empty(),
    {
        SettingsDoc { always_on_top: None, window_bounds: None }
    }

    /// Loads the bounds in force, never failing: absence means defaults.
    pub fn loaded_bounds(&self) -> (r: WindowBounds)
        ensures
            r == self.spec_loaded_bounds(),
    {
        match self.window_bounds {
            Some(raw) => raw.resolved(),
            None => WindowBounds::default(),
        }
    }

    /// Loads the always-on-top flag in force, never failing: absence means off.
    pub fn effective_always_on_top(&self) -> (r: bool)
        ensures
            r == self.spec_effective_always_on_top(),
    {
        match self.always_on_top {
            Some(v) => v,
            None => false,
        }
    }

    /// Writes a complete bounds record for `b`, leaving the flag untouched.
    pub fn store_bounds(&mut self, b: WindowBounds)
        ensures
            *final(self) == old(self).spec_with_bounds(b),
    {
        self.window_bounds = Some(StoredBounds::full(b));
    }

    /// Writes the always-on-top flag, leaving the bounds untouched.
    pub fn store_always_on_top(&mut self, v: bool)
        ensures
            *final(self) == old(self).spec_with_always_on_top(v),
    {
        self.always_on_top = Some(v);
    }
}

/// Round trip: writing a complete bounds record and loading it back yields
/// the very tuple that was written, whatever the document held before.
pub proof fn lemma_bounds_round_trip(doc: SettingsDoc, b: WindowBounds)
    ensures
        doc.spec_with_bounds(b).spec_loaded_bounds() == b,
{
}

} // verus!
