//! The record of the user's choices.

use vstd::prelude::*;
use crate::text::{opt_text, texts};

verus! {

/// Everything the wizard asks for. A category the user skipped is `None`
/// (or `false`, or an empty list); nothing is ever left undecided.
#[derive(Debug, Clone, PartialEq, Eq)]
pub struct InstallConfig {
    /// Preview only: nothing outside the process may change.
    pub dry_run: bool,
    pub aur_helper: Option<String>,
    pub greeter: Option<String>,
    pub gpu_driver: Option<String>,
    pub hyprland_version: Option<String>,
    pub uwsm: bool,
    pub xdg_user_dirs: bool,
    pub terminal: Option<String>,
    pub shell: Option<String>,
    pub notification_daemon: Option<String>,
    pub audio: Option<String>,
    pub xdg_portal: bool,
    pub auth_agent: Option<String>,
    pub qt_support: bool,
    pub status_bar: Option<String>,
    /// The only category with several concurrent choices, in selection order.
    pub wallpaper_utils: Vec<String>,
    pub app_launcher: Option<String>,
    pub color_picker: Option<String>,
    pub clipboard_manager: Option<String>,
    pub gui_file_manager: Option<String>,
    pub tui_file_manager: Option<String>,
}

/// The mathematical content of an [`InstallConfig`].
pub struct ConfigView {
    pub dry_run: bool,
    pub aur_helper: Option<Seq<char>>,
    pub greeter: Option<Seq<char>>,
    pub gpu_driver: Option<Seq<char>>,
    pub hyprland_version: Option<Seq<char>>,
    pub uwsm: bool,
    pub xdg_user_dirs: bool,
    pub terminal: Option<Seq<char>>,
    pub shell: Option<Seq<char>>,
    pub notification_daemon: Option<Seq<char>>,
    pub audio: Option<Seq<char>>,
    pub xdg_portal: bool,
    pub auth_agent: Option<Seq<char>>,
    pub qt_support: bool,
    pub status_bar: Option<Seq<char>>,
    pub wallpaper_utils: Seq<Seq<char>>,
    pub app_launcher: Option<Seq<char>>,
    pub color_picker: Option<Seq<char>>,
    pub clipboard_manager: Option<Seq<char>>,
    pub gui_file_manager: Option<Seq<char>>,
    pub tui_file_manager: Option<Seq<char>>,
}

impl ConfigView {
    /// The record before any question was asked: every category skipped.
    pub open spec fn blank() -> ConfigView {
        ConfigView {
            dry_run: false,
            aur_helper: None,
            greeter: None,
            gpu_driver: None,
            hyprland_version: None,
            uwsm: false,
            xdg_user_dirs: false,
            terminal: None,
            shell: None,
            notification_daemon: None,
            audio: None,
            xdg_portal: false,
            auth_agent: None,
            qt_support: false,
            status_bar: None,
            wallpaper_utils: Seq::empty(),
            app_launcher: None,
            color_picker: None,
            clipboard_manager: None,
            gui_file_manager: None,
            tui_file_manager: None,
        }
    }
}

impl View for InstallConfig {
    type V = ConfigView;

    open spec fn view(&self) -> ConfigView {
        ConfigView {
            dry_run: self.dry_run,
            aur_helper: opt_text(self.aur_helper),
            greeter: opt_text(self.greeter),
            gpu_driver: opt_text(self.gpu_driver),
            hyprland_version: opt_text(self.hyprland_version),
            uwsm: self.uwsm,
            xdg_user_dirs: self.xdg_user_dirs,
            terminal: opt_text(self.terminal),
            shell: opt_text(self.shell),
            notification_daemon: opt_text(self.notification_daemon),
            audio: opt_text(self.audio),
            xdg_portal: self.xdg_portal,
            auth_agent: opt_text(self.auth_agent),
            qt_support: self.qt_support,
            status_bar: opt_text(self.status_bar),
            wallpaper_utils: texts(self.wallpaper_utils@),
            app_launcher: opt_text(self.app_launcher),
            color_picker: opt_text(self.color_picker),
            clipboard_manager: opt_text(self.clipboard_manager),
            gui_file_manager: opt_text(self.gui_file_manager),
            tui_file_manager: opt_text(self.tui_file_manager),
        }
    }
}

impl Default for InstallConfig {
    fn default() -> (config: InstallConfig)
        ensures
            config@ == ConfigView::blank(),
    {
        let config = InstallConfig {
            dry_run: false,
            aur_helper: None,
            greeter: None,
            gpu_driver: None,
            hyprland_version: None,
            uwsm: false,
            xdg_user_dirs: false,
            terminal: None,
            shell: None,
            notification_daemon: None,
            audio: None,
            xdg_portal: false,
            auth_agent: None,
            qt_support: false,
            status_bar: None,
            wallpaper_utils: Vec::new(),
            app_launcher: None,
            color_picker: None,
            clipboard_manager: None,
            gui_file_manager: None,
            tui_file_manager: None,
        };
        assert(config@.wallpaper_utils =~= Seq::empty());
        config
    }
}

} // verus!
