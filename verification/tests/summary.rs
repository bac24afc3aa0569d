use hyprland_installer::config::InstallConfig;
use hyprland_installer::summary::{summary_lines, summary_row};

#[test]
fn blank_configuration_shows_none_and_no() {
    assert_eq!(
        summary_lines(&InstallConfig::default()),
        vec![
            "AUR Helper:            \"None\"",
            "Display Manager:       \"None\"",
            "GPU Driver:            \"None\"",
            "Hyprland Version:      \"None\"",
            "XDG User Directories:  No",
            "UWSM:                  No",
            "Terminal:              \"None\"",
            "Shell:                 \"None\"",
            "Notification Daemon:   \"None\"",
            "Audio System:          \"None\"",
            "XDG Portal:            No",
            "Auth Agent:            \"None\"",
            "Qt Support:            No",
            "Status Bar:            \"None\"",
            "Wallpaper Utils:       \"None\"",
            "App Launcher:          \"None\"",
            "Color Picker:          \"None\"",
            "Clipboard Manager:     \"None\"",
            "GUI File Manager:      \"None\"",
            "TUI File Manager:      \"None\"",
            "",
        ]
    );
}

#[test]
fn choices_are_shown_in_quotes() {
    let mut config = InstallConfig::default();
    config.dry_run = true;
    config.aur_helper = Some("yay".to_string());
    config.gpu_driver = Some("open-source (mesa)".to_string());
    config.uwsm = true;
    config.qt_support = true;
    config.wallpaper_utils = vec!["swww".to_string(), "wpaperd".to_string()];
    config.tui_file_manager = Some("yazi".to_string());
    let rows = summary_lines(&config);
    assert_eq!(rows.len(), 23);
    assert_eq!(rows[0], "MODE:                 DRY RUN (No changes will be made)");
    assert_eq!(rows[1], "");
    assert_eq!(rows[2], "AUR Helper:            \"yay\"");
    assert_eq!(rows[4], "GPU Driver:            \"open-source (mesa)\"");
    assert_eq!(rows[7], "UWSM:                  Yes");
    assert_eq!(rows[14], "Qt Support:            Yes");
    assert_eq!(rows[16], "Wallpaper Utils:       \"swww, wpaperd\"");
    assert_eq!(rows[21], "TUI File Manager:      \"yazi\"");
    assert_eq!(rows[22], "");
}

#[test]
fn special_characters_are_escaped() {
    let mut config = InstallConfig::default();
    config.terminal = Some("a\"b\\c\n".to_string());
    let rows = summary_lines(&config);
    assert_eq!(rows[6], "Terminal:              \"a\\\"b\\\\c\\n\"");
}

#[test]
fn a_row_is_title_and_value() {
    assert_eq!(summary_row("Shell:                 ", "\"zsh\""), "Shell:                 \"zsh\"");
    assert_eq!(summary_row("", ""), "");
}
