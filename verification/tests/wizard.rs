use hyprland_installer::catalog::{Category, Choice, PromptKind};
use hyprland_installer::config::InstallConfig;
use hyprland_installer::wizard::{
    detected_helper, dry_run_question, go_ahead_question, keep_question, permission_warning_due,
    question, record_answer, record_dry_run, record_kept_helper, start_question, update_question,
    Answer, Question,
};

fn names(rows: &[&str]) -> Vec<String> {
    rows.iter().map(|row| row.to_string()).collect()
}

fn picked(label: &str) -> Answer {
    Answer::Picked { label: label.to_string() }
}

#[test]
fn categories_are_asked_in_the_fixed_order() {
    assert_eq!(
        Category::all(),
        vec![
            Category::AurHelper,
            Category::Greeter,
            Category::GpuDriver,
            Category::HyprlandVersion,
            Category::XdgUserDirs,
            Category::Uwsm,
            Category::Terminal,
            Category::Shell,
            Category::NotificationDaemon,
            Category::Audio,
            Category::XdgPortal,
            Category::AuthAgent,
            Category::QtSupport,
            Category::StatusBar,
            Category::WallpaperUtils,
            Category::AppLauncher,
            Category::ColorPicker,
            Category::ClipboardManager,
            Category::GuiFileManager,
            Category::TuiFileManager,
        ]
    );
    let steps: Vec<u8> = Category::all().into_iter().map(|category| category.step()).collect();
    assert_eq!(steps, vec![1, 2, 3, 4, 5, 6, 7, 7, 8, 9, 10, 11, 12, 13, 14, 15, 16, 17, 18, 18]);
}

#[test]
fn only_wallpaper_utilities_allow_several_choices() {
    for category in Category::all() {
        let several = category.kind() == PromptKind::MultiSelect;
        assert_eq!(several, category == Category::WallpaperUtils);
    }
}

#[test]
fn yes_or_no_questions() {
    let cases = [
        (Category::XdgUserDirs, "Install xdg-user-dirs?", true),
        (Category::Uwsm, "Install UWSM?", false),
        (
            Category::XdgPortal,
            "Install XDG Desktop Portal (xdg-desktop-portal-hyprland)?",
            true,
        ),
        (Category::QtSupport, "Install Qt5/Qt6 Wayland support?", true),
    ];
    for (category, message, default) in cases {
        assert_eq!(category.kind(), PromptKind::Confirm);
        assert_eq!(
            question(category),
            Question::Confirm { message: message.to_string(), default }
        );
        assert!(category.choices().is_empty());
    }
}

#[test]
fn list_questions_show_the_labels() {
    assert_eq!(
        question(Category::AurHelper),
        Question::Select {
            message: "Select an AUR helper to install:".to_string(),
            options: names(&["yay (recommended)", "paru", "SKIP (install manually later)"]),
        }
    );
    assert_eq!(
        question(Category::WallpaperUtils),
        Question::MultiSelect {
            message: "Select wallpaper utilities (Space to select, Enter to confirm):".to_string(),
            options: names(&["hyprpaper", "waypaper", "swww", "swaybg", "mpvpaper", "wpaperd"]),
        }
    );
    assert_eq!(
        Category::AppLauncher.labels(),
        names(&["rofi (default)", "wofi", "tofi", "fuzzel", "bemenu", "anyrun", "walker", "SKIP"])
    );
    assert_eq!(Category::GpuDriver.message(), "Select your GPU driver:");
}

#[test]
fn choices_pair_labels_with_values() {
    assert_eq!(
        Category::Audio.choices(),
        vec![
            Choice { label: "pipewire (recommended)".to_string(), value: Some("pipewire".to_string()) },
            Choice { label: "pulseaudio".to_string(), value: Some("pulseaudio".to_string()) },
            Choice { label: "SKIP".to_string(), value: None },
        ]
    );
    assert_eq!(Category::Greeter.value_of("sddm (default)"), Some("sddm".to_string()));
    assert_eq!(
        Category::GpuDriver.value_of("open-source (mesa)"),
        Some("open-source (mesa)".to_string())
    );
    assert_eq!(Category::GpuDriver.value_of("SKIP"), None);
    assert_eq!(Category::AurHelper.value_of("SKIP (install manually later)"), None);
    assert_eq!(Category::Greeter.value_of("sddm"), None);
    assert_eq!(Category::Uwsm.value_of("anything"), None);
}

#[test]
fn every_select_category_ends_with_skip_and_stores_package_names() {
    for category in Category::all() {
        if category.kind() != PromptKind::Select {
            continue;
        }
        let choices = category.choices();
        let last = choices.last().unwrap();
        assert!(last.label.starts_with("SKIP"));
        assert_eq!(last.value, None);
        for choice in &choices[..choices.len() - 1] {
            let value = choice.value.clone().unwrap();
            assert!(choice.label.starts_with(&value));
            assert_eq!(category.value_of(&choice.label), Some(value));
        }
    }
}

#[test]
fn an_answer_changes_the_field_of_its_category_only() {
    let mut config = InstallConfig::default();
    record_answer(&mut config, Category::Terminal, &picked("kitty (default)"));
    let mut expected = InstallConfig::default();
    expected.terminal = Some("kitty".to_string());
    assert_eq!(config, expected);

    record_answer(&mut config, Category::Shell, &picked("fish"));
    expected.shell = Some("fish".to_string());
    assert_eq!(config, expected);

    record_answer(&mut config, Category::XdgPortal, &Answer::Confirmed { yes: true });
    expected.xdg_portal = true;
    assert_eq!(config, expected);

    record_answer(
        &mut config,
        Category::WallpaperUtils,
        &Answer::PickedMany { labels: names(&["swww", "wpaperd"]) },
    );
    expected.wallpaper_utils = names(&["swww", "wpaperd"]);
    assert_eq!(config, expected);

    record_answer(&mut config, Category::Audio, &picked("pipewire (recommended)"));
    expected.audio = Some("pipewire".to_string());
    assert_eq!(config, expected);
}

#[test]
fn each_category_has_its_own_field() {
    let mut config = InstallConfig::default();
    let answers = [
        (Category::AurHelper, "paru"),
        (Category::Greeter, "gdm"),
        (Category::GpuDriver, "amd"),
        (Category::HyprlandVersion, "hyprland-git"),
        (Category::Terminal, "foot"),
        (Category::Shell, "zsh"),
        (Category::NotificationDaemon, "mako"),
        (Category::Audio, "pulseaudio"),
        (Category::AuthAgent, "polkit-gnome"),
        (Category::StatusBar, "eww"),
        (Category::AppLauncher, "wofi"),
        (Category::ColorPicker, "wl-color-picker"),
        (Category::ClipboardManager, "copyq"),
        (Category::GuiFileManager, "nemo"),
        (Category::TuiFileManager, "nnn"),
    ];
    for (category, label) in answers {
        record_answer(&mut config, category, &picked(label));
    }
    for category in [Category::XdgUserDirs, Category::Uwsm, Category::XdgPortal, Category::QtSupport] {
        record_answer(&mut config, category, &Answer::Confirmed { yes: true });
    }
    assert_eq!(
        config,
        InstallConfig {
            dry_run: false,
            aur_helper: Some("paru".to_string()),
            greeter: Some("gdm".to_string()),
            gpu_driver: Some("amd".to_string()),
            hyprland_version: Some("hyprland-git".to_string()),
            uwsm: true,
            xdg_user_dirs: true,
            terminal: Some("foot".to_string()),
            shell: Some("zsh".to_string()),
            notification_daemon: Some("mako".to_string()),
            audio: Some("pulseaudio".to_string()),
            xdg_portal: true,
            auth_agent: Some("polkit-gnome".to_string()),
            qt_support: true,
            status_bar: Some("eww".to_string()),
            wallpaper_utils: vec![],
            app_launcher: Some("wofi".to_string()),
            color_picker: Some("wl-color-picker".to_string()),
            clipboard_manager: Some("copyq".to_string()),
            gui_file_manager: Some("nemo".to_string()),
            tui_file_manager: Some("nnn".to_string()),
        }
    );
}

#[test]
fn an_interrupted_prompt_leaves_the_category_skipped() {
    let mut config = InstallConfig::default();
    config.greeter = Some("sddm".to_string());
    config.qt_support = true;
    config.wallpaper_utils = names(&["swww"]);
    record_answer(&mut config, Category::Greeter, &Answer::Cancelled);
    record_answer(&mut config, Category::QtSupport, &Answer::Cancelled);
    record_answer(&mut config, Category::WallpaperUtils, &Answer::Cancelled);
    assert_eq!(config, InstallConfig::default());
}

#[test]
fn skip_and_unknown_labels_store_nothing() {
    let mut config = InstallConfig::default();
    config.status_bar = Some("waybar".to_string());
    record_answer(&mut config, Category::StatusBar, &picked("SKIP"));
    assert_eq!(config.status_bar, None);
    config.status_bar = Some("waybar".to_string());
    record_answer(&mut config, Category::StatusBar, &picked("taskbar"));
    assert_eq!(config.status_bar, None);
    record_answer(&mut config, Category::Uwsm, &picked("yes"));
    assert!(!config.uwsm);
    record_answer(&mut config, Category::Uwsm, &Answer::Confirmed { yes: false });
    assert!(!config.uwsm);
}

#[test]
fn helper_on_the_system_can_be_kept() {
    assert_eq!(detected_helper(true, true), Some("yay"));
    assert_eq!(detected_helper(true, false), Some("yay"));
    assert_eq!(detected_helper(false, true), Some("paru"));
    assert_eq!(detected_helper(false, false), None);
    assert_eq!(
        keep_question("paru"),
        Question::Confirm { message: "Keep using paru?".to_string(), default: true }
    );
    let mut config = InstallConfig::default();
    assert!(record_kept_helper(&mut config, "paru", &Answer::Confirmed { yes: true }));
    assert_eq!(config.aur_helper, Some("paru".to_string()));

    let mut config = InstallConfig::default();
    config.aur_helper = Some("yay".to_string());
    assert!(!record_kept_helper(&mut config, "paru", &Answer::Confirmed { yes: false }));
    assert!(!record_kept_helper(&mut config, "paru", &Answer::Cancelled));
    assert_eq!(config.aur_helper, Some("yay".to_string()));
}

#[test]
fn mode_and_go_ahead_questions() {
    assert_eq!(
        dry_run_question(),
        Question::Confirm {
            message: "Run in DRY RUN mode? (No actual installation or file changes)".to_string(),
            default: false,
        }
    );
    let mut config = InstallConfig::default();
    assert_eq!(
        go_ahead_question(&config),
        Question::Confirm { message: "Proceed with installation?".to_string(), default: true }
    );
    record_dry_run(&mut config, &Answer::Confirmed { yes: true });
    assert!(config.dry_run);
    assert_eq!(
        go_ahead_question(&config),
        Question::Confirm { message: "Continue with dry run?".to_string(), default: true }
    );
    record_dry_run(&mut config, &Answer::Cancelled);
    assert!(!config.dry_run);
    assert_eq!(
        update_question(),
        Question::Confirm {
            message: "Would you like to update your hyprland.conf with exec-once statements?"
                .to_string(),
            default: true,
        }
    );
    assert_eq!(
        start_question(),
        Question::Confirm { message: "Would you like to start Hyprland now?".to_string(), default: false }
    );
    assert!(Answer::Confirmed { yes: true }.is_yes());
    assert!(!Answer::Cancelled.is_yes());
    assert!(!Answer::Typed { text: "yes".to_string() }.is_yes());
}

#[test]
fn the_permission_warning_is_for_live_runs_without_root() {
    let mut config = InstallConfig::default();
    assert!(permission_warning_due(&config, false));
    assert!(!permission_warning_due(&config, true));
    config.dry_run = true;
    assert!(!permission_warning_due(&config, false));
    assert!(!permission_warning_due(&config, true));
}

#[test]
fn a_new_record_has_every_category_skipped() {
    let config = InstallConfig::default();
    assert!(!config.dry_run);
    assert_eq!(config.aur_helper, None);
    assert!(config.wallpaper_utils.is_empty());
    assert!(!config.uwsm && !config.xdg_user_dirs && !config.xdg_portal && !config.qt_support);
}
