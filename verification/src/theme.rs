//! Color themes, as plain red-green-blue values.  The layer that draws
//! the interface converts them into its own color type.

use crate::notify::NotificationLevel;
use vstd::prelude::*;

verus! {

/// A color as its three channels.
#[derive(Debug, Clone, Copy, PartialEq, Eq, Structural)]
pub struct Rgb {
    pub r: u8,
    pub g: u8,
    pub b: u8,
}

/// The selectable themes.
#[derive(Debug, Clone, Copy, PartialEq, Eq, Structural)]
pub enum ThemeName {
    TokyoNight,
    CatppuccinMocha,
    Gruvbox,
    Kanagawa,
    Hackerman,
}

impl Default for ThemeName {
    /// The default theme.
    fn default() -> (r: ThemeName)
        ensures
            r == ThemeName::CatppuccinMocha,
    {
        ThemeName::CatppuccinMocha
    }
}

/// The colors of one theme.
#[derive(Debug, Clone, Copy, PartialEq, Eq, Structural)]
pub struct Theme {
    pub bg: Rgb,
    pub bg_highlight: Rgb,
    pub fg: Rgb,
    pub fg_dim: Rgb,
    pub border: Rgb,
    pub border_focused: Rgb,
    pub selection_bg: Rgb,
    pub current_bg: Rgb,
    pub accent: Rgb,
    pub accent_alt: Rgb,
    pub playing: Rgb,
    pub paused: Rgb,
    pub info: Rgb,
    pub title: Rgb,
    pub notif_debug: Rgb,
    pub notif_info: Rgb,
    pub notif_warning: Rgb,
    pub notif_error: Rgb,
}

impl Theme {
    /// The tokyo-night palette.
    pub fn tokyo_night() -> (r: Theme)
        ensures
            r.bg == (Rgb { r: 26, g: 27, b: 38 }),
            r.fg == (Rgb { r: 192, g: 202, b: 245 }),
    {
        Theme {
            bg: Rgb { r: 26, g: 27, b: 38 },
            bg_highlight: Rgb { r: 41, g: 46, b: 66 },
            fg: Rgb { r: 192, g: 202, b: 245 },
            fg_dim: Rgb { r: 86, g: 95, b: 137 },
            border: Rgb { r: 61, g: 89, b: 161 },
            border_focused: Rgb { r: 187, g: 154, b: 247 },
            selection_bg: Rgb { r: 41, g: 46, b: 66 },
            current_bg: Rgb { r: 61, g: 89, b: 161 },
            accent: Rgb { r: 125, g: 207, b: 255 },
            accent_alt: Rgb { r: 255, g: 158, b: 100 },
            playing: Rgb { r: 158, g: 206, b: 106 },
            paused: Rgb { r: 224, g: 175, b: 104 },
            info: Rgb { r: 187, g: 154, b: 247 },
            title: Rgb { r: 122, g: 162, b: 247 },
            notif_debug: Rgb { r: 192, g: 202, b: 245 },
            notif_info: Rgb { r: 122, g: 162, b: 247 },
            notif_warning: Rgb { r: 255, g: 158, b: 100 },
            notif_error: Rgb { r: 247, g: 118, b: 142 },
        }
    }

    /// The catppuccin-mocha palette.
    pub fn catppuccin_mocha() -> (r: Theme)
        ensures
            r.bg == (Rgb { r: 30, g: 30, b: 46 }),
            r.fg == (Rgb { r: 205, g: 214, b: 244 }),
    {
        Theme {
            bg: Rgb { r: 30, g: 30, b: 46 },
            bg_highlight: Rgb { r: 49, g: 50, b: 68 },
            fg: Rgb { r: 205, g: 214, b: 244 },
            fg_dim: Rgb { r: 108, g: 112, b: 134 },
            border: Rgb { r: 137, g: 180, b: 250 },
            border_focused: Rgb { r: 203, g: 166, b: 247 },
            selection_bg: Rgb { r: 69, g: 71, b: 90 },
            current_bg: Rgb { r: 137, g: 180, b: 250 },
            accent: Rgb { r: 148, g: 226, b: 213 },
            accent_alt: Rgb { r: 250, g: 179, b: 135 },
            playing: Rgb { r: 166, g: 227, b: 161 },
            paused: Rgb { r: 249, g: 226, b: 175 },
            info: Rgb { r: 203, g: 166, b: 247 },
            title: Rgb { r: 137, g: 180, b: 250 },
            notif_debug: Rgb { r: 205, g: 214, b: 244 },
            notif_info: Rgb { r: 137, g: 180, b: 250 },
            notif_warning: Rgb { r: 250, g: 179, b: 135 },
            notif_error: Rgb { r: 243, g: 139, b: 168 },
        }
    }

    /// The gruvbox palette.
    pub fn gruvbox() -> (r: Theme)
        ensures
            r.bg == (Rgb { r: 60, g: 56, b: 54 }),
            r.fg == (Rgb { r: 235, g: 219, b: 178 }),
    {
        Theme {
            bg: Rgb { r: 60, g: 56, b: 54 },
            bg_highlight: Rgb { r: 80, g: 73, b: 69 },
            fg: Rgb { r: 235, g: 219, b: 178 },
            fg_dim: Rgb { r: 146, g: 131, b: 116 },
            border: Rgb { r: 69, g: 133, b: 136 },
            border_focused: Rgb { r: 142, g: 192, b: 124 },
            selection_bg: Rgb { r: 80, g: 73, b: 69 },
            current_bg: Rgb { r: 69, g: 133, b: 136 },
            accent: Rgb { r: 142, g: 192, b: 124 },
            accent_alt: Rgb { r: 215, g: 153, b: 33 },
            playing: Rgb { r: 142, g: 192, b: 124 },
            paused: Rgb { r: 215, g: 153, b: 33 },
            info: Rgb { r: 69, g: 133, b: 136 },
            title: Rgb { r: 204, g: 36, b: 29 },
            notif_debug: Rgb { r: 235, g: 219, b: 178 },
            notif_info: Rgb { r: 69, g: 133, b: 136 },
            notif_warning: Rgb { r: 254, g: 128, b: 25 },
            notif_error: Rgb { r: 204, g: 36, b: 29 },
        }
    }

    /// The kanagawa palette.
    pub fn kanagawa() -> (r: Theme)
        ensures
            r.bg == (Rgb { r: 46, g: 50, b: 87 }),
            r.fg == (Rgb { r: 255, g: 254, b: 247 }),
    {
        Theme {
            bg: Rgb { r: 46, g: 50, b: 87 },
            bg_highlight: Rgb { r: 66, g: 70, b: 107 },
            fg: Rgb { r: 255, g: 254, b: 247 },
            fg_dim: Rgb { r: 186, g: 187, b: 189 },
            border: Rgb { r: 98, g: 125, b: 154 },
            border_focused: Rgb { r: 223, g: 197, b: 164 },
            selection_bg: Rgb { r: 66, g: 70, b: 107 },
            current_bg: Rgb { r: 98, g: 125, b: 154 },
            accent: Rgb { r: 223, g: 197, b: 164 },
            accent_alt: Rgb { r: 98, g: 125, b: 154 },
            playing: Rgb { r: 223, g: 197, b: 164 },
            paused: Rgb { r: 186, g: 187, b: 189 },
            info: Rgb { r: 98, g: 125, b: 154 },
            title: Rgb { r: 255, g: 254, b: 247 },
            notif_debug: Rgb { r: 255, g: 254, b: 247 },
            notif_info: Rgb { r: 126, g: 156, b: 216 },
            notif_warning: Rgb { r: 255, g: 160, b: 102 },
            notif_error: Rgb { r: 195, g: 64, b: 67 },
        }
    }

    /// The green-on-black palette.
    pub fn hackerman() -> (r: Theme)
        ensures
            r.bg == (Rgb { r: 0, g: 0, b: 0 }),
            r.fg == (Rgb { r: 0, g: 255, b: 65 }),
    {
        Theme {
            bg: Rgb { r: 0, g: 0, b: 0 },
            bg_highlight: Rgb { r: 10, g: 25, b: 10 },
            fg: Rgb { r: 0, g: 255, b: 65 },
            fg_dim: Rgb { r: 0, g: 128, b: 32 },
            border: Rgb { r: 0, g: 180, b: 45 },
            border_focused: Rgb { r: 57, g: 255, b: 20 },
            selection_bg: Rgb { r: 0, g: 50, b: 12 },
            current_bg: Rgb { r: 0, g: 200, b: 50 },
            accent: Rgb { r: 57, g: 255, b: 20 },
            accent_alt: Rgb { r: 0, g: 255, b: 159 },
            playing: Rgb { r: 0, g: 255, b: 65 },
            paused: Rgb { r: 180, g: 255, b: 0 },
            info: Rgb { r: 0, g: 255, b: 159 },
            title: Rgb { r: 57, g: 255, b: 20 },
            notif_debug: Rgb { r: 200, g: 200, b: 200 },
            notif_info: Rgb { r: 0, g: 150, b: 255 },
            notif_warning: Rgb { r: 255, g: 165, b: 0 },
            notif_error: Rgb { r: 255, g: 50, b: 50 },
        }
    }

    /// The color a notification of the given level is drawn in.
    pub fn notification_color(&self, level: NotificationLevel) -> (r: Rgb)
        ensures
            r == (match level {
                NotificationLevel::Debug => self.notif_debug,
                NotificationLevel::Info => self.notif_info,
                NotificationLevel::Warning => self.notif_warning,
                NotificationLevel::Error => self.notif_error,
            }),
    {
        match level {
            NotificationLevel::Debug => self.notif_debug,
            NotificationLevel::Info => self.notif_info,
            NotificationLevel::Warning => self.notif_warning,
            NotificationLevel::Error => self.notif_error,
        }
    }

    /// The progress-slider color: the playing color while playing, the
    /// paused color otherwise.
    pub fn slider_color(&self, playing: bool) -> (r: Rgb)
        ensures
            r == if playing {
                self.playing
            } else {
                self.paused
            },
    {
        if playing {
            self.playing
        } else {
            self.paused
        }
    }
}

/// The theme a theme name selects.  Themes are passed as explicit values
/// rather than kept in process-wide state.
pub fn init_theme(name: ThemeName) -> (r: Theme)
    ensures
        name == ThemeName::TokyoNight ==> r.bg == (Rgb { r: 26, g: 27, b: 38 }),
        name == ThemeName::CatppuccinMocha ==> r.bg == (Rgb { r: 30, g: 30, b: 46 }),
        name == ThemeName::Gruvbox ==> r.bg == (Rgb { r: 60, g: 56, b: 54 }),
        name == ThemeName::Kanagawa ==> r.bg == (Rgb { r: 46, g: 50, b: 87 }),
        name == ThemeName::Hackerman ==> r.bg == (Rgb { r: 0, g: 0, b: 0 }),
{
    match name {
        ThemeName::TokyoNight => Theme::tokyo_night(),
        ThemeName::CatppuccinMocha => Theme::catppuccin_mocha(),
        ThemeName::Gruvbox => Theme::gruvbox(),
        ThemeName::Kanagawa => Theme::kanagawa(),
        ThemeName::Hackerman => Theme::hackerman(),
    }
}

} // verus!
