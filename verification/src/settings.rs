//! Player-adjustable settings kept across sessions.
use vstd::prelude::*;

verus! {

/// Music volume, in percent.
#[derive(Clone, Copy, Debug, PartialEq, Eq, Structural)]
pub struct MusicSetting(pub u8);

impl Default for MusicSetting {
    /// Half volume.
    fn default() -> (r: Self)
        ensures
            r.0 == 50,
    {
        MusicSetting(50)
    }
}

/// Sound-effect volume, in percent.
#[derive(Clone, Copy, Debug, PartialEq, Eq, Structural)]
pub struct SfxSetting(pub u8);

impl Default for SfxSetting {
    /// Half volume.
    fn default() -> (r: Self)
        ensures
            r.0 == 50,
    {
        SfxSetting(50)
    }
}

/// Shadow quality, cycled through from the menu.
#[derive(Clone, Copy, Debug, PartialEq, Eq, Structural)]
pub enum ShadowSetting {
    Off,
    Low,
    Medium,
    High,
}

impl Default for ShadowSetting {
    /// Medium shadows.
    fn default() -> (r: Self)
        ensures
            r == ShadowSetting::Medium,
    {
        ShadowSetting::Medium
    }
}

impl ShadowSetting {
    /// The setting one step further along the cycle off, low, medium,
    /// high, and around again.
    pub open spec fn next_spec(self) -> ShadowSetting {
        match self {
            ShadowSetting::Off => ShadowSetting::Low,
            ShadowSetting::Low => ShadowSetting::Medium,
            ShadowSetting::Medium => ShadowSetting::High,
            ShadowSetting::High => ShadowSetting::Off,
        }
    }

    /// Cycle to the next shadow quality.
    pub fn next(&self) -> (r: Self)
        ensures
            r == self.next_spec(),
    {
        match self {
            ShadowSetting::Off => ShadowSetting::Low,
            ShadowSetting::Low => ShadowSetting::Medium,
            ShadowSetting::Medium => ShadowSetting::High,
            ShadowSetting::High => ShadowSetting::Off,
        }
    }

    /// The name shown on the menu button for this setting.
    pub fn label(&self) -> (r: String)
        ensures
            r@ == match *self {
                ShadowSetting::Off => "None"@,
                ShadowSetting::Low => "Low"@,
                ShadowSetting::Medium => "Medium"@,
                ShadowSetting::High => "High"@,
            },
    {
        match self {
            ShadowSetting::Off => String::from_str("None"),
            ShadowSetting::Low => String::from_str("Low"),
            ShadowSetting::Medium => String::from_str("Medium"),
            ShadowSetting::High => String::from_str("High"),
        }
    }
}

} // verus!
