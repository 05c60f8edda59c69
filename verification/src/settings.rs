//! Persisted display settings and the rules for applying them.
//!
//! The host reads the settings document at startup and hands the
//! parsed values in; this module decides what they mean: the defaults
//! when nothing could be read, which resolution a selection names,
//! and — when new values arrive — whether the window must be resized
//! and whether the file must be rewritten. The host performs the
//! resize and the write.

use vstd::prelude::*;

verus! {

/// How many entries the fixed resolution table has.
pub const RESOLUTION_COUNT: usize = 5;

/// The width and height, in fixed-point pixels, that the selection
/// `i` of the resolution table names.
pub open spec fn spec_resolution(i: int) -> (int, int) {
    if i == 0 {
        (1_280_000_000, 720_000_000)
    } else if i == 1 {
        (1_920_000_000, 1_080_000_000)
    } else if i == 2 {
        (2_560_000_000, 1_440_000_000)
    } else if i == 3 {
        (3_840_000_000, 2_160_000_000)
    } else {
        (7_680_000_000, 4_320_000_000)
    }
}

/// The resolution table entry for selection `i`: a size and the text
/// shown for it.
pub fn resolution(i: usize) -> (r: ((i64, i64), &'static str))
    requires
        i < RESOLUTION_COUNT,
    ensures
        (r.0.0 as int, r.0.1 as int) == spec_resolution(i as int),
{
    if i == 0 {
        ((1_280_000_000, 720_000_000), "1280 x 720 (720p)")
    } else if i == 1 {
        ((1_920_000_000, 1_080_000_000), "1920 x 1080 (1080p)")
    } else if i == 2 {
        ((2_560_000_000, 1_440_000_000), "2560 x 1440 (1440p)")
    } else if i == 3 {
        ((3_840_000_000, 2_160_000_000), "3840 x 2160 (4K UHD/2160p)")
    } else {
        ((7_680_000_000, 4_320_000_000), "7680 x 4320 (8K FUHD/4320p)")
    }
}

/// The persisted display settings: whether the window is fullscreen
/// and which entry of the resolution table is selected.
#[derive(Clone, Copy, Debug, PartialEq, Eq, Structural)]
pub struct Settings {
    pub is_fullscreen: bool,
    pub selected_size: usize,
}

/// What the host must do after settings changed: resize the window to
/// this size, if any, and rewrite the settings file, if asked.
#[derive(Clone, Copy, Debug, PartialEq, Eq)]
pub struct SettingsAction {
    pub resize_to: Option<(i64, i64)>,
    pub save: bool,
}

impl Default for Settings {
    /// Windowed, at the first table entry.
    fn default() -> (r: Self)
        ensures
            r == (Settings { is_fullscreen: false, selected_size: 0 }),
    {
        Settings { is_fullscreen: false, selected_size: 0 }
    }
}

impl Settings {
    /// The settings to start with, given what the host could read:
    /// the parsed document if there was one it could parse, the
    /// defaults otherwise. A selection outside the resolution table
    /// also falls back to the defaults, so the result is always
    /// applicable.
    pub fn read_or_default(loaded: Option<Settings>) -> (r: Settings)
        ensures
            r == (match loaded {
                Some(s) => if s.selected_size < RESOLUTION_COUNT {
                    s
                } else {
                    Settings { is_fullscreen: false, selected_size: 0 }
                },
                None => Settings { is_fullscreen: false, selected_size: 0 },
            }),
            r.selected_size < RESOLUTION_COUNT,
    {
        match loaded {
            Some(s) => if s.selected_size < RESOLUTION_COUNT {
                s
            } else {
                Settings::default()
            },
            None => Settings::default(),
        }
    }

    /// The window size the current selection asks for; the host
    /// requests it at startup.
    pub fn apply_current_settings(&self) -> (r: (i64, i64))
        requires
            self.selected_size < RESOLUTION_COUNT,
        ensures
            (r.0 as int, r.1 as int) == spec_resolution(self.selected_size as int),
    {
        let (size, _) = resolution(self.selected_size);
        size
    }

    /// Takes new settings in and reports what the host must do:
    /// the file is rewritten exactly when a value actually changed,
    /// and the window resized exactly when the selection changed.
    pub fn apply_new_settings(&mut self, new: Settings) -> (r: SettingsAction)
        requires
            new.selected_size < RESOLUTION_COUNT,
        ensures
            *final(self) == new,
            r.save == (*old(self) != new),
            r.resize_to == (if old(self).selected_size != new.selected_size {
                Some(
                    (
                        spec_resolution(new.selected_size as int).0 as i64,
                        spec_resolution(new.selected_size as int).1 as i64,
                    ),
                )
            } else {
                Option::<(i64, i64)>::None
            }),
    {
        let mut save_file = false;
        let mut resize_to: Option<(i64, i64)> = None;
        if self.is_fullscreen != new.is_fullscreen {
            self.is_fullscreen = new.is_fullscreen;
            save_file = true;
        }
        if self.selected_size != new.selected_size {
            self.selected_size = new.selected_size;
            let (size, _) = resolution(new.selected_size);
            resize_to = Some(size);
            save_file = true;
        }
        SettingsAction { resize_to, save: save_file }
    }
}

} // verus!
