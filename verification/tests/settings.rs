use tadoku::presence::DiscordPresenceMode;
use tadoku::settings::{PlaytimeMode, Settings, SortOrder, StoredSettings, ThemeSettings};
use tadoku::text::{clone_opt_text, clone_texts, same_text, to_chars};

#[test]
fn settings_default() {
    let settings = Settings::default();
    assert!(settings.disable_presence_on_nsfw);
    assert_eq!(settings.playtime_mode, PlaytimeMode::Classic);
    assert!(!settings.use_jp_for_title_time);
    assert_eq!(settings.theme_settings.theme, "default");
    assert_eq!(settings.theme_settings.accent_color, "#2a2a2a");
    assert!(!settings.theme_settings.use_custom_accent);
    assert_eq!(settings.sort_order, SortOrder::Title);
    assert!(settings.show_random_picker);
    assert_eq!(settings.discord_presence_mode, DiscordPresenceMode::All);
    assert_eq!(PlaytimeMode::default(), PlaytimeMode::Classic);
    assert_eq!(SortOrder::default(), SortOrder::Title);
}

#[test]
fn settings_load_falls_back_key_by_key() {
    let nothing = StoredSettings {
        disable_presence_on_nsfw: None,
        playtime_mode: None,
        use_jp_for_title_time: None,
        theme_settings: None,
        sort_order: None,
        show_random_picker: None,
        discord_presence_mode: None,
    };
    assert_eq!(format!("{:?}", Settings::load(nothing)), format!("{:?}", Settings::default()));

    let some = StoredSettings {
        disable_presence_on_nsfw: Some(false),
        playtime_mode: Some(PlaytimeMode::ExStatic),
        use_jp_for_title_time: None,
        theme_settings: Some(ThemeSettings {
            theme: "dark".to_string(),
            accent_color: "#ffffff".to_string(),
            use_custom_accent: true,
        }),
        sort_order: Some(SortOrder::Playtime),
        show_random_picker: None,
        discord_presence_mode: Some(DiscordPresenceMode::Disabled),
    };
    let settings = Settings::load(some);
    assert!(!settings.disable_presence_on_nsfw);
    assert_eq!(settings.playtime_mode, PlaytimeMode::ExStatic);
    assert!(!settings.use_jp_for_title_time);
    assert_eq!(settings.theme_settings.theme, "dark");
    assert_eq!(settings.theme_settings.accent_color, "#ffffff");
    assert!(settings.theme_settings.use_custom_accent);
    assert_eq!(settings.sort_order, SortOrder::Playtime);
    assert!(settings.show_random_picker);
    assert_eq!(settings.discord_presence_mode, DiscordPresenceMode::Disabled);
}

#[test]
fn settings_toggle_and_clone() {
    let mut settings = Settings::default();
    assert!(!settings.toggle_presence_on_nsfw());
    assert!(!settings.disable_presence_on_nsfw);
    assert!(settings.toggle_presence_on_nsfw());
    assert!(settings.disable_presence_on_nsfw);
    settings.theme_settings.theme = "dark".to_string();
    settings.sort_order = SortOrder::LastPlayed;
    assert_eq!(format!("{:?}", settings.clone()), format!("{:?}", settings));
}

#[test]
fn text_helpers() {
    assert_eq!(to_chars("a\\b"), vec!['a', '\\', 'b']);
    assert_eq!(to_chars("日本"), vec!['日', '本']);
    assert!(same_text("lnk", "lnk"));
    assert!(!same_text("lnk", "lnK"));
    assert!(!same_text("lnk", "lnk "));
    assert_eq!(clone_opt_text(&Some("x".to_string())), Some("x".to_string()));
    assert_eq!(clone_opt_text(&None), None);
    assert_eq!(clone_texts(&vec!["a".to_string(), "b".to_string()]), vec!["a", "b"]);
}
