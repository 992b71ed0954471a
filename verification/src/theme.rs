//! Theme selection state: which preset palette is active and whether the
//! background follows it. The palettes' actual colors are a rendering
//! concern and live with the renderer.

use vstd::prelude::*;

verus! {

/// The built-in palette presets, cycled with one key.
#[derive(Clone, Copy, Debug, PartialEq, Eq, Structural)]
pub enum PresetTheme {
    Emerald,
    Blue,
    Zinc,
    Indigo,
    Red,
    Amber,
    Pink,
}

/// How many presets there are.
pub const PRESET_THEME_COUNT: usize = 7;

impl PresetTheme {
    /// The position of this preset in the cycle.
    pub open spec fn spec_index(self) -> int {
        match self {
            PresetTheme::Emerald => 0,
            PresetTheme::Blue => 1,
            PresetTheme::Zinc => 2,
            PresetTheme::Indigo => 3,
            PresetTheme::Red => 4,
            PresetTheme::Amber => 5,
            PresetTheme::Pink => 6,
        }
    }

    /// The position of this preset in the cycle.
    pub fn as_index(self) -> (r: usize)
        ensures
            r == self.spec_index(),
            r < PRESET_THEME_COUNT,
    {
        match self {
            PresetTheme::Emerald => 0,
            PresetTheme::Blue => 1,
            PresetTheme::Zinc => 2,
            PresetTheme::Indigo => 3,
            PresetTheme::Red => 4,
            PresetTheme::Amber => 5,
            PresetTheme::Pink => 6,
        }
    }

    /// The preset that follows this one, wrapping around.
    pub fn next_preset(self) -> (r: PresetTheme)
        ensures
            r.spec_index() == (self.spec_index() + 1) % (PRESET_THEME_COUNT as int),
    {
        match self {
            PresetTheme::Emerald => PresetTheme::Blue,
            PresetTheme::Blue => PresetTheme::Zinc,
            PresetTheme::Zinc => PresetTheme::Indigo,
            PresetTheme::Indigo => PresetTheme::Red,
            PresetTheme::Red => PresetTheme::Amber,
            PresetTheme::Amber => PresetTheme::Pink,
            PresetTheme::Pink => PresetTheme::Emerald,
        }
    }
}

impl Default for PresetTheme {
    /// The preset used when none was configured.
    fn default() -> (r: PresetTheme)
        ensures
            r is Emerald,
    {
        PresetTheme::Emerald
    }
}

/// The theme state the renderer reads: the active preset and whether the
/// background is tinted to match it.
pub struct ThemeManager {
    pub current_preset: PresetTheme,
    pub modify_background: bool,
}

impl ThemeManager {
    /// Starts on the given preset with the tinted background.
    pub fn with_preset(preset: PresetTheme) -> (r: ThemeManager)
        ensures
            r.current_preset == preset,
            r.modify_background,
    {
        ThemeManager { current_preset: preset, modify_background: true }
    }

    /// The active preset.
    pub fn current(&self) -> (r: PresetTheme)
        ensures
            r == self.current_preset,
    {
        self.current_preset
    }

    /// Cycles to the next preset.
    pub fn next(&mut self)
        ensures
            final(self).current_preset.spec_index() == (old(self).current_preset.spec_index() + 1)
                % (PRESET_THEME_COUNT as int),
            final(self).modify_background == old(self).modify_background,
    {
        self.current_preset = self.current_preset.next_preset();
    }

    /// Switches between the tinted and the plain background.
    pub fn toggle_modify_background(&mut self)
        ensures
            final(self).modify_background == !old(self).modify_background,
            final(self).current_preset == old(self).current_preset,
    {
        self.modify_background = !self.modify_background;
    }
}

} // verus!
