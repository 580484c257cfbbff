//! Which theme goes with which pair of display selectors.

use crate::telemetry::{ColorScheme, DriveMode};
use vstd::prelude::*;

verus! {

/// The name of the theme file for a drive mode and a colour scheme.
pub open spec fn preset_file_name(drive_mode: DriveMode, color_scheme: ColorScheme) -> Seq<char> {
    match (drive_mode, color_scheme) {
        (DriveMode::Road, ColorScheme::Light) => "light_road.yml"@,
        (DriveMode::Road, ColorScheme::Dark) => "dark_road.yml"@,
        (DriveMode::Track, ColorScheme::Light) => "light_race.yml"@,
        (DriveMode::Track, ColorScheme::Dark) => "dark_race.yml"@,
    }
}

/// Picks the theme file for a drive mode and a colour scheme.
pub fn preset_file(drive_mode: DriveMode, color_scheme: ColorScheme) -> (name: &'static str)
    ensures
        name@ == preset_file_name(drive_mode, color_scheme),
{
    match (drive_mode, color_scheme) {
        (DriveMode::Road, ColorScheme::Light) => "light_road.yml",
        (DriveMode::Road, ColorScheme::Dark) => "dark_road.yml",
        (DriveMode::Track, ColorScheme::Light) => "light_race.yml",
        (DriveMode::Track, ColorScheme::Dark) => "dark_race.yml",
    }
}

} // verus!
