use hyprland_installer::config::InstallConfig;
use hyprland_installer::generator::generate_exec_once_statements;
use hyprland_installer::planner::{plan_installation, wallpaper_is_official, InstallPlan};

fn names(rows: &[&str]) -> Vec<String> {
    rows.iter().map(|row| row.to_string()).collect()
}

#[test]
fn blank_configuration_has_an_empty_plan() {
    let plan = plan_installation(&InstallConfig::default());
    assert_eq!(
        plan,
        InstallPlan { packages: vec![], aur_packages: vec![], services: vec![] }
    );
}

#[test]
fn hyprpaper_and_swww_are_official() {
    let mut config = InstallConfig::default();
    config.wallpaper_utils = names(&["hyprpaper", "swww"]);
    let plan = plan_installation(&config);
    assert_eq!(plan.packages, names(&["hyprpaper", "swww"]));
    assert!(!plan.aur_packages.contains(&"hyprpaper".to_string()));
    assert!(!plan.aur_packages.contains(&"swww".to_string()));
    assert!(plan.aur_packages.is_empty());
}

#[test]
fn wpaperd_comes_from_the_helper() {
    let mut config = InstallConfig::default();
    config.wallpaper_utils = names(&["wpaperd"]);
    let plan = plan_installation(&config);
    assert_eq!(plan.aur_packages, names(&["wpaperd"]));
    assert!(!plan.packages.contains(&"wpaperd".to_string()));
    assert!(plan.packages.is_empty());
}

#[test]
fn wallpaper_utilities_are_routed_one_by_one() {
    let mut config = InstallConfig::default();
    config.wallpaper_utils = names(&["waypaper", "swww", "swaybg", "hyprpaper", "mpvpaper"]);
    let plan = plan_installation(&config);
    assert_eq!(plan.packages, names(&["swww", "hyprpaper"]));
    assert_eq!(plan.aur_packages, names(&["waypaper", "swaybg", "mpvpaper"]));
    assert!(wallpaper_is_official("hyprpaper"));
    assert!(wallpaper_is_official("swww"));
    assert!(!wallpaper_is_official("wpaperd"));
    assert!(!wallpaper_is_official(""));
}

#[test]
fn gpu_drivers_expand() {
    let cases: [(&str, &[&str]); 5] = [
        ("nvidia", &["nvidia", "nvidia-utils", "nvidia-settings"]),
        ("amd", &["mesa", "vulkan-radeon", "libva-mesa-driver"]),
        ("intel", &["mesa", "vulkan-intel", "intel-media-driver"]),
        ("open-source (mesa)", &["mesa"]),
        ("matrox", &[]),
    ];
    for (gpu, packages) in cases {
        let mut config = InstallConfig::default();
        config.gpu_driver = Some(gpu.to_string());
        let plan = plan_installation(&config);
        assert_eq!(plan.packages, names(packages));
        assert!(plan.aur_packages.is_empty());
        assert!(plan.services.is_empty());
    }
}

#[test]
fn audio_systems_expand() {
    let mut config = InstallConfig::default();
    config.audio = Some("pipewire".to_string());
    assert_eq!(
        plan_installation(&config).packages,
        names(&["pipewire", "pipewire-pulse", "pipewire-alsa", "pipewire-jack", "wireplumber"])
    );
    config.audio = Some("pulseaudio".to_string());
    assert_eq!(plan_installation(&config).packages, names(&["pulseaudio", "pulseaudio-alsa"]));
    config.audio = Some("jack".to_string());
    assert!(plan_installation(&config).packages.is_empty());
}

#[test]
fn portal_and_qt_expand_to_two_packages_each() {
    let mut config = InstallConfig::default();
    config.xdg_portal = true;
    config.qt_support = true;
    assert_eq!(
        plan_installation(&config).packages,
        names(&["xdg-desktop-portal-hyprland", "xdg-desktop-portal", "qt5-wayland", "qt6-wayland"])
    );
}

#[test]
fn default_hyprland_is_official_other_variants_are_not() {
    let mut config = InstallConfig::default();
    config.hyprland_version = Some("hyprland".to_string());
    let plan = plan_installation(&config);
    assert_eq!(plan.packages, names(&["hyprland"]));
    assert!(plan.aur_packages.is_empty());
    for variant in ["hyprland-git", "hyprland-meta"] {
        config.hyprland_version = Some(variant.to_string());
        let plan = plan_installation(&config);
        assert!(plan.packages.is_empty());
        assert_eq!(plan.aur_packages, names(&[variant]));
    }
}

#[test]
fn session_manager_is_one_helper_package() {
    let mut config = InstallConfig::default();
    config.uwsm = true;
    let plan = plan_installation(&config);
    assert!(plan.packages.is_empty());
    assert_eq!(plan.aur_packages, names(&["uwsm"]));
}

#[test]
fn clipboard_managers_bring_the_bridge_except_copyq() {
    let mut config = InstallConfig::default();
    for manager in ["cliphist", "clipman", "clipse", "wl-clip-persist"] {
        config.clipboard_manager = Some(manager.to_string());
        assert_eq!(plan_installation(&config).packages, names(&[manager, "wl-clipboard"]));
    }
    config.clipboard_manager = Some("copyq".to_string());
    assert_eq!(plan_installation(&config).packages, names(&["copyq"]));
}

#[test]
fn display_manager_is_installed_and_enabled() {
    let mut config = InstallConfig::default();
    config.greeter = Some("sddm".to_string());
    let plan = plan_installation(&config);
    assert_eq!(plan.packages, names(&["sddm"]));
    assert_eq!(plan.services, names(&["sddm.service"]));
    config.greeter = Some("greetd".to_string());
    assert_eq!(plan_installation(&config).services, names(&["greetd.service"]));
}

#[test]
fn plain_categories_map_one_to_one() {
    let mut config = InstallConfig::default();
    config.terminal = Some("kitty".to_string());
    config.shell = Some("zsh".to_string());
    config.notification_daemon = Some("mako".to_string());
    config.auth_agent = Some("polkit-gnome".to_string());
    config.status_bar = Some("waybar".to_string());
    config.app_launcher = Some("rofi".to_string());
    config.color_picker = Some("hyprpicker".to_string());
    config.gui_file_manager = Some("thunar".to_string());
    config.tui_file_manager = Some("yazi".to_string());
    config.xdg_user_dirs = true;
    let plan = plan_installation(&config);
    assert_eq!(
        plan.packages,
        names(&[
            "xdg-user-dirs",
            "kitty",
            "zsh",
            "mako",
            "polkit-gnome",
            "waybar",
            "rofi",
            "hyprpicker",
            "thunar",
            "yazi",
        ])
    );
    assert!(plan.aur_packages.is_empty());
    assert!(plan.services.is_empty());
}

fn full_configuration() -> InstallConfig {
    InstallConfig {
        dry_run: false,
        aur_helper: Some("yay".to_string()),
        greeter: Some("sddm".to_string()),
        gpu_driver: Some("amd".to_string()),
        hyprland_version: Some("hyprland-git".to_string()),
        uwsm: true,
        xdg_user_dirs: true,
        terminal: Some("foot".to_string()),
        shell: Some("fish".to_string()),
        notification_daemon: Some("dunst".to_string()),
        audio: Some("pulseaudio".to_string()),
        xdg_portal: true,
        auth_agent: Some("hyprpolkitagent".to_string()),
        qt_support: true,
        status_bar: Some("eww".to_string()),
        wallpaper_utils: names(&["swaybg", "hyprpaper"]),
        app_launcher: Some("fuzzel".to_string()),
        color_picker: Some("wl-color-picker".to_string()),
        clipboard_manager: Some("cliphist".to_string()),
        gui_file_manager: Some("nemo".to_string()),
        tui_file_manager: Some("lf".to_string()),
    }
}

#[test]
fn full_configuration_keeps_category_order() {
    let plan = plan_installation(&full_configuration());
    assert_eq!(
        plan.packages,
        names(&[
            "sddm",
            "mesa",
            "vulkan-radeon",
            "libva-mesa-driver",
            "xdg-user-dirs",
            "foot",
            "fish",
            "dunst",
            "pulseaudio",
            "pulseaudio-alsa",
            "xdg-desktop-portal-hyprland",
            "xdg-desktop-portal",
            "hyprpolkitagent",
            "qt5-wayland",
            "qt6-wayland",
            "eww",
            "hyprpaper",
            "fuzzel",
            "wl-color-picker",
            "cliphist",
            "wl-clipboard",
            "nemo",
            "lf",
        ])
    );
    assert_eq!(plan.aur_packages, names(&["hyprland-git", "uwsm", "swaybg"]));
    assert_eq!(plan.services, names(&["sddm.service"]));
}

#[test]
fn helper_choice_is_no_package() {
    let mut config = InstallConfig::default();
    config.aur_helper = Some("paru".to_string());
    let plan = plan_installation(&config);
    assert!(plan.packages.is_empty());
    assert!(plan.aur_packages.is_empty());
}

#[test]
fn plan_is_the_same_on_every_call() {
    let config = full_configuration();
    let first = plan_installation(&config);
    let _ = generate_exec_once_statements(&config);
    let second = plan_installation(&config);
    assert_eq!(first, second);
    let mut dry = config.clone();
    dry.dry_run = true;
    assert_eq!(plan_installation(&dry), first);
}
