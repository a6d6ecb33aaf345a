//! The colour palette of the interface.

use vstd::prelude::*;
use crate::colors::Rgb;

verus! {

/// Semantic colours used across the interface.
pub struct Theme;

impl Theme {
    /// Dimmed text.
    pub fn text_dim() -> (c: Rgb)
        ensures
            c == (Rgb { r: 100, g: 100, b: 100 }),
    {
        Rgb { r: 100, g: 100, b: 100 }
    }

    /// Muted text.
    pub fn text_muted() -> (c: Rgb)
        ensures
            c == (Rgb { r: 150, g: 150, b: 150 }),
    {
        Rgb { r: 150, g: 150, b: 150 }
    }

    /// Ordinary text.
    pub fn text_default() -> (c: Rgb)
        ensures
            c == (Rgb { r: 200, g: 200, b: 200 }),
    {
        Rgb { r: 200, g: 200, b: 200 }
    }

    /// Error messages.
    pub fn error() -> (c: Rgb)
        ensures
            c == (Rgb { r: 255, g: 80, b: 80 }),
    {
        Rgb { r: 255, g: 80, b: 80 }
    }

    /// Success messages.
    pub fn success() -> (c: Rgb)
        ensures
            c == (Rgb { r: 100, g: 200, b: 100 }),
    {
        Rgb { r: 100, g: 200, b: 100 }
    }

    /// Active skill gems.
    pub fn gem_active() -> (c: Rgb)
        ensures
            c == (Rgb { r: 200, g: 50, b: 50 }),
    {
        Rgb { r: 200, g: 50, b: 50 }
    }

    /// Support gems.
    pub fn gem_support() -> (c: Rgb)
        ensures
            c == (Rgb { r: 120, g: 160, b: 255 }),
    {
        Rgb { r: 120, g: 160, b: 255 }
    }

    /// The main skill.
    pub fn main_skill() -> (c: Rgb)
        ensures
            c == (Rgb { r: 255, g: 200, b: 50 }),
    {
        Rgb { r: 255, g: 200, b: 50 }
    }

    /// Item modifier text.
    pub fn mod_text() -> (c: Rgb)
        ensures
            c == (Rgb { r: 136, g: 136, b: 255 }),
    {
        Rgb { r: 136, g: 136, b: 255 }
    }

    /// Fire stats.
    pub fn stat_fire() -> (c: Rgb)
        ensures
            c == (Rgb { r: 210, g: 80, b: 60 }),
    {
        Rgb { r: 210, g: 80, b: 60 }
    }

    /// Cold stats.
    pub fn stat_cold() -> (c: Rgb)
        ensures
            c == (Rgb { r: 80, g: 140, b: 230 }),
    {
        Rgb { r: 80, g: 140, b: 230 }
    }

    /// Lightning stats.
    pub fn stat_lightning() -> (c: Rgb)
        ensures
            c == (Rgb { r: 255, g: 215, b: 0 }),
    {
        Rgb { r: 255, g: 215, b: 0 }
    }

    /// Chaos stats.
    pub fn stat_chaos() -> (c: Rgb)
        ensures
            c == (Rgb { r: 190, g: 50, b: 210 }),
    {
        Rgb { r: 190, g: 50, b: 210 }
    }

    /// Life.
    pub fn stat_life() -> (c: Rgb)
        ensures
            c == (Rgb { r: 200, g: 60, b: 60 }),
    {
        Rgb { r: 200, g: 60, b: 60 }
    }

    /// Energy shield.
    pub fn stat_es() -> (c: Rgb)
        ensures
            c == (Rgb { r: 110, g: 140, b: 210 }),
    {
        Rgb { r: 110, g: 140, b: 210 }
    }

    /// Mana.
    pub fn stat_mana() -> (c: Rgb)
        ensures
            c == (Rgb { r: 80, g: 120, b: 220 }),
    {
        Rgb { r: 80, g: 120, b: 220 }
    }

    /// Damage per second.
    pub fn stat_dps() -> (c: Rgb)
        ensures
            c == (Rgb { r: 255, g: 200, b: 50 }),
    {
        Rgb { r: 255, g: 200, b: 50 }
    }
}

} // verus!
