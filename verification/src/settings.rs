//! User settings: the tracking strategy, theme and ordering preferences.

use vstd::prelude::*;
use vstd::string::*;
use crate::presence::DiscordPresenceMode;

verus! {

/// Which strategy attributes time to a running session.
#[derive(Clone, Copy, Debug, PartialEq, Eq, Structural)]
pub enum PlaytimeMode {
    /// The library polls the process and the foreground window once a second.
    Classic,
    /// A cooperating observer pushes time reports over a local socket.
    ExStatic,
}

impl Default for PlaytimeMode {
    fn default() -> (r: Self)
        ensures
            r == PlaytimeMode::Classic,
    {
        PlaytimeMode::Classic
    }
}

/// The order in which the game list is shown.
#[derive(Clone, Copy, Debug, PartialEq, Eq, Structural)]
pub enum SortOrder {
    Playtime,
    LastPlayed,
    Title,
}

impl Default for SortOrder {
    fn default() -> (r: Self)
        ensures
            r == SortOrder::Title,
    {
        SortOrder::Title
    }
}

/// Colours and theme of the interface.
#[derive(Debug)]
pub struct ThemeSettings {
    pub theme: String,
    pub accent_color: String,
    pub use_custom_accent: bool,
}

/// What a `ThemeSettings` value holds.
pub struct ThemeSettingsView {
    pub theme: Seq<char>,
    pub accent_color: Seq<char>,
    pub use_custom_accent: bool,
}

impl View for ThemeSettings {
    type V = ThemeSettingsView;

    open spec fn view(&self) -> ThemeSettingsView {
        ThemeSettingsView {
            theme: self.theme@,
            accent_color: self.accent_color@,
            use_custom_accent: self.use_custom_accent,
        }
    }
}

impl ThemeSettingsView {
    /// The theme of a fresh installation.
    pub open spec fn initial() -> ThemeSettingsView {
        ThemeSettingsView {
            theme: "default"@,
            accent_color: "#2a2a2a"@,
            use_custom_accent: false,
        }
    }
}

impl Default for ThemeSettings {
    fn default() -> (r: Self)
        ensures
            r@ == ThemeSettingsView::initial(),
    {
        ThemeSettings {
            theme: String::from_str("default"),
            accent_color: String::from_str("#2a2a2a"),
            use_custom_accent: false,
        }
    }
}

impl Clone for ThemeSettings {
    fn clone(&self) -> (r: Self)
        ensures
            r@ == self@,
    {
        ThemeSettings {
            theme: self.theme.clone(),
            accent_color: self.accent_color.clone(),
            use_custom_accent: self.use_custom_accent,
        }
    }
}

/// Everything the user can configure.
#[derive(Debug)]
pub struct Settings {
    pub disable_presence_on_nsfw: bool,
    pub playtime_mode: PlaytimeMode,
    pub use_jp_for_title_time: bool,
    pub theme_settings: ThemeSettings,
    pub sort_order: SortOrder,
    pub show_random_picker: bool,
    pub discord_presence_mode: DiscordPresenceMode,
}

/// What a `Settings` value holds.
pub struct SettingsView {
    pub disable_presence_on_nsfw: bool,
    pub playtime_mode: PlaytimeMode,
    pub use_jp_for_title_time: bool,
    pub theme_settings: ThemeSettingsView,
    pub sort_order: SortOrder,
    pub show_random_picker: bool,
    pub discord_presence_mode: DiscordPresenceMode,
}

impl View for Settings {
    type V = SettingsView;

    open spec fn view(&self) -> SettingsView {
        SettingsView {
            disable_presence_on_nsfw: self.disable_presence_on_nsfw,
            playtime_mode: self.playtime_mode,
            use_jp_for_title_time: self.use_jp_for_title_time,
            theme_settings: self.theme_settings@,
            sort_order: self.sort_order,
            show_random_picker: self.show_random_picker,
            discord_presence_mode: self.discord_presence_mode,
        }
    }
}

impl SettingsView {
    /// The settings of a fresh installation.
    pub open spec fn initial() -> SettingsView {
        SettingsView {
            disable_presence_on_nsfw: true,
            playtime_mode: PlaytimeMode::Classic,
            use_jp_for_title_time: false,
            theme_settings: ThemeSettingsView::initial(),
            sort_order: SortOrder::Title,
            show_random_picker: true,
            discord_presence_mode: DiscordPresenceMode::All,
        }
    }
}

impl Default for Settings {
    fn default() -> (r: Self)
        ensures
            r@ == SettingsView::initial(),
    {
        Settings {
            disable_presence_on_nsfw: true,
            playtime_mode: PlaytimeMode::default(),
            use_jp_for_title_time: false,
            theme_settings: ThemeSettings::default(),
            sort_order: SortOrder::default(),
            show_random_picker: true,
            discord_presence_mode: DiscordPresenceMode::default(),
        }
    }
}

impl Clone for Settings {
    fn clone(&self) -> (r: Self)
        ensures
            r@ == self@,
    {
        Settings {
            disable_presence_on_nsfw: self.disable_presence_on_nsfw,
            playtime_mode: self.playtime_mode,
            use_jp_for_title_time: self.use_jp_for_title_time,
            theme_settings: self.theme_settings.clone(),
            sort_order: self.sort_order,
            show_random_picker: self.show_random_picker,
            discord_presence_mode: self.discord_presence_mode,
        }
    }
}

/// The settings found in the flat key-value store: a key that was never
/// written is absent.
pub struct StoredSettings {
    pub disable_presence_on_nsfw: Option<bool>,
    pub playtime_mode: Option<PlaytimeMode>,
    pub use_jp_for_title_time: Option<bool>,
    pub theme_settings: Option<ThemeSettings>,
    pub sort_order: Option<SortOrder>,
    pub show_random_picker: Option<bool>,
    pub discord_presence_mode: Option<DiscordPresenceMode>,
}

impl StoredSettings {
    /// The settings that loading yields: each stored key, and the default
    /// for each absent one.
    pub open spec fn resolved(self) -> SettingsView {
        let d = SettingsView::initial();
        SettingsView {
            disable_presence_on_nsfw: match self.disable_presence_on_nsfw {
                Some(v) => v,
                None => d.disable_presence_on_nsfw,
            },
            playtime_mode: match self.playtime_mode {
                Some(v) => v,
                None => d.playtime_mode,
            },
            use_jp_for_title_time: match self.use_jp_for_title_time {
                Some(v) => v,
                None => d.use_jp_for_title_time,
            },
            theme_settings: match self.theme_settings {
                Some(v) => v@,
                None => d.theme_settings,
            },
            sort_order: match self.sort_order {
                Some(v) => v,
                None => d.sort_order,
            },
            show_random_picker: match self.show_random_picker {
                Some(v) => v,
                None => d.show_random_picker,
            },
            discord_presence_mode: match self.discord_presence_mode {
                Some(v) => v,
                None => d.discord_presence_mode,
            },
        }
    }
}

impl Settings {
    /// Rebuilds the settings from the flat store, key by key: a stored key
    /// wins, an absent one takes its default.
    pub fn load(stored: StoredSettings) -> (r: Settings)
        ensures
            r@ == stored.resolved(),
    {
        let d = Settings::default();
        Settings {
            disable_presence_on_nsfw: match stored.disable_presence_on_nsfw {
                Some(v) => v,
                None => d.disable_presence_on_nsfw,
            },
            playtime_mode: match stored.playtime_mode {
                Some(v) => v,
                None => d.playtime_mode,
            },
            use_jp_for_title_time: match stored.use_jp_for_title_time {
                Some(v) => v,
                None => d.use_jp_for_title_time,
            },
            theme_settings: match stored.theme_settings {
                Some(v) => v,
                None => d.theme_settings,
            },
            sort_order: match stored.sort_order {
                Some(v) => v,
                None => d.sort_order,
            },
            show_random_picker: match stored.show_random_picker {
                Some(v) => v,
                None => d.show_random_picker,
            },
            discord_presence_mode: match stored.discord_presence_mode {
                Some(v) => v,
                None => d.discord_presence_mode,
            },
        }
    }

    /// Flips whether presence is suppressed for sensitive games, and
    /// returns the new value.
    pub fn toggle_presence_on_nsfw(&mut self) -> (r: bool)
        ensures
            r == !old(self).disable_presence_on_nsfw,
            final(self)@ == (SettingsView { disable_presence_on_nsfw: r, ..old(self)@ }),
    {
        self.disable_presence_on_nsfw = !self.disable_presence_on_nsfw;
        self.disable_presence_on_nsfw
    }
}

} // verus!
