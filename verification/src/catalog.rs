//! The questions of the wizard and the choices on offer.
//!
//! Each category has one question. A category with a list of choices shows a
//! label for each and stores the value that belongs to the label; the entry
//! that skips the category has no value.

use vstd::prelude::*;
use crate::text::{opt_text, push_line, str_eq, texts};

verus! {

/// One selectable aspect of the desktop.
#[derive(Debug, Clone, Copy, PartialEq, Eq, Structural)]
pub enum Category {
    /// The helper that builds packages of the user repository.
    AurHelper,
    /// The display manager.
    Greeter,
    /// The GPU driver.
    GpuDriver,
    /// The compositor package.
    HyprlandVersion,
    /// Whether the user's standard directories are created.
    XdgUserDirs,
    /// Whether the session manager is installed.
    Uwsm,
    /// The terminal emulator.
    Terminal,
    /// The shell.
    Shell,
    /// The notification daemon.
    NotificationDaemon,
    /// The audio system.
    Audio,
    /// Whether the desktop portal is installed.
    XdgPortal,
    /// The authentication agent.
    AuthAgent,
    /// Whether Qt applications get Wayland support.
    QtSupport,
    /// The status bar.
    StatusBar,
    /// The wallpaper utilities: any number of them.
    WallpaperUtils,
    /// The application launcher.
    AppLauncher,
    /// The color picker.
    ColorPicker,
    /// The clipboard manager.
    ClipboardManager,
    /// The graphical file manager.
    GuiFileManager,
    /// The terminal file manager.
    TuiFileManager,
}

/// How a category is asked for.
#[derive(Debug, Clone, Copy, PartialEq, Eq, Structural)]
pub enum PromptKind {
    /// Yes or no.
    Confirm,
    /// One of a list.
    Select,
    /// Any number of a list.
    MultiSelect,
}

/// An entry of a category's list.
#[derive(Debug, Clone, PartialEq, Eq)]
pub struct Choice {
    /// What the user is shown.
    pub label: String,
    /// What is stored: the package's name, or nothing for the entry that
    /// skips the category.
    pub value: Option<String>,
}

/// The mathematical content of a [`Choice`].
pub struct ChoiceView {
    pub label: Seq<char>,
    pub value: Option<Seq<char>>,
}

impl View for Choice {
    type V = ChoiceView;

    open spec fn view(&self) -> ChoiceView {
        ChoiceView {
            label: self.label@,
            value: match self.value {
                Some(name) => Some(name@),
                None => None,
            },
        }
    }
}

/// The views of a list of choices, in order.
pub open spec fn choice_views(list: Seq<Choice>) -> Seq<ChoiceView> {
    Seq::new(list.len(), |i: int| list[i]@)
}

/// The entry that stores `value` under `label`.
pub open spec fn offer(label: Seq<char>, value: Seq<char>) -> ChoiceView {
    ChoiceView { label, value: Some(value) }
}

/// The entry that skips the category.
pub open spec fn skip(label: Seq<char>) -> ChoiceView {
    ChoiceView { label, value: None }
}

/// The categories in the order in which they are asked for.
pub open spec fn wizard_order() -> Seq<Category> {
    seq![
        Category::AurHelper,
        Category::Greeter,
        Category::GpuDriver,
        Category::HyprlandVersion,
        Category::XdgUserDirs,
        Category::Uwsm,
        Category::Terminal,
        Category::Shell,
        Category::NotificationDaemon,
        Category::Audio,
        Category::XdgPortal,
        Category::AuthAgent,
        Category::QtSupport,
        Category::StatusBar,
        Category::WallpaperUtils,
        Category::AppLauncher,
        Category::ColorPicker,
        Category::ClipboardManager,
        Category::GuiFileManager,
        Category::TuiFileManager,
    ]
}

/// The number of the step in which the category is asked for. The terminal
/// and the shell share a step, and so do the two file managers.
pub open spec fn step_of(category: Category) -> int {
    match category {
        Category::AurHelper => 1,
        Category::Greeter => 2,
        Category::GpuDriver => 3,
        Category::HyprlandVersion => 4,
        Category::XdgUserDirs => 5,
        Category::Uwsm => 6,
        Category::Terminal => 7,
        Category::Shell => 7,
        Category::NotificationDaemon => 8,
        Category::Audio => 9,
        Category::XdgPortal => 10,
        Category::AuthAgent => 11,
        Category::QtSupport => 12,
        Category::StatusBar => 13,
        Category::WallpaperUtils => 14,
        Category::AppLauncher => 15,
        Category::ColorPicker => 16,
        Category::ClipboardManager => 17,
        Category::GuiFileManager => 18,
        Category::TuiFileManager => 18,
    }
}

/// How the category is asked for.
pub open spec fn kind_of(category: Category) -> PromptKind {
    match category {
        Category::AurHelper => PromptKind::Select,
        Category::Greeter => PromptKind::Select,
        Category::GpuDriver => PromptKind::Select,
        Category::HyprlandVersion => PromptKind::Select,
        Category::XdgUserDirs => PromptKind::Confirm,
        Category::Uwsm => PromptKind::Confirm,
        Category::Terminal => PromptKind::Select,
        Category::Shell => PromptKind::Select,
        Category::NotificationDaemon => PromptKind::Select,
        Category::Audio => PromptKind::Select,
        Category::XdgPortal => PromptKind::Confirm,
        Category::AuthAgent => PromptKind::Select,
        Category::QtSupport => PromptKind::Confirm,
        Category::StatusBar => PromptKind::Select,
        Category::WallpaperUtils => PromptKind::MultiSelect,
        Category::AppLauncher => PromptKind::Select,
        Category::ColorPicker => PromptKind::Select,
        Category::ClipboardManager => PromptKind::Select,
        Category::GuiFileManager => PromptKind::Select,
        Category::TuiFileManager => PromptKind::Select,
    }
}

/// The question of the category.
pub open spec fn message_of(category: Category) -> Seq<char> {
    match category {
        Category::AurHelper => "Select an AUR helper to install:"@,
        Category::Greeter => "Select a display manager:"@,
        Category::GpuDriver => "Select your GPU driver:"@,
        Category::HyprlandVersion => "Select Hyprland package:"@,
        Category::XdgUserDirs => "Install xdg-user-dirs?"@,
        Category::Uwsm => "Install UWSM?"@,
        Category::Terminal => "Select a terminal emulator:"@,
        Category::Shell => "Select a shell:"@,
        Category::NotificationDaemon => "Select a notification daemon:"@,
        Category::Audio => "Select audio system:"@,
        Category::XdgPortal => "Install XDG Desktop Portal (xdg-desktop-portal-hyprland)?"@,
        Category::AuthAgent => "Select authentication agent:"@,
        Category::QtSupport => "Install Qt5/Qt6 Wayland support?"@,
        Category::StatusBar => "Select a status bar:"@,
        Category::WallpaperUtils => "Select wallpaper utilities (Space to select, Enter to confirm):"@,
        Category::AppLauncher => "Select an application launcher:"@,
        Category::ColorPicker => "Select a color picker:"@,
        Category::ClipboardManager => "Select a clipboard manager:"@,
        Category::GuiFileManager => "Select GUI file manager:"@,
        Category::TuiFileManager => "Select TUI file manager:"@,
    }
}

/// The answer that a yes-or-no question proposes.
pub open spec fn proposed(category: Category) -> bool {
    match category {
        Category::XdgUserDirs => true,
        Category::Uwsm => false,
        Category::XdgPortal => true,
        Category::QtSupport => true,
        _ => false,
    }
}

/// The choices of [`Category::AurHelper`].
pub open spec fn aur_helper_options() -> Seq<ChoiceView> {
    seq![
        offer("yay (recommended)"@, "yay"@),
        offer("paru"@, "paru"@),
        skip("SKIP (install manually later)"@),
    ]
}

/// The choices of [`Category::Greeter`].
pub open spec fn greeter_options() -> Seq<ChoiceView> {
    seq![
        offer("sddm (default)"@, "sddm"@),
        offer("gdm"@, "gdm"@),
        offer("lightdm"@, "lightdm"@),
        offer("greetd"@, "greetd"@),
        skip("SKIP"@),
    ]
}

/// The choices of [`Category::GpuDriver`].
pub open spec fn gpu_driver_options() -> Seq<ChoiceView> {
    seq![
        offer("nvidia"@, "nvidia"@),
        offer("amd"@, "amd"@),
        offer("intel"@, "intel"@),
        offer("open-source (mesa)"@, "open-source (mesa)"@),
        skip("SKIP"@),
    ]
}

/// The choices of [`Category::HyprlandVersion`].
pub open spec fn hyprland_version_options() -> Seq<ChoiceView> {
    seq![
        offer("hyprland (default)"@, "hyprland"@),
        offer("hyprland-git"@, "hyprland-git"@),
        offer("hyprland-meta"@, "hyprland-meta"@),
        skip("SKIP"@),
    ]
}

/// The choices of [`Category::Terminal`].
pub open spec fn terminal_options() -> Seq<ChoiceView> {
    seq![
        offer("kitty (default)"@, "kitty"@),
        offer("foot"@, "foot"@),
        offer("alacritty"@, "alacritty"@),
        offer("ghostty"@, "ghostty"@),
        skip("SKIP"@),
    ]
}

/// The choices of [`Category::Shell`].
pub open spec fn shell_options() -> Seq<ChoiceView> {
    seq![
        offer("bash (default)"@, "bash"@),
        offer("zsh"@, "zsh"@),
        offer("fish"@, "fish"@),
        skip("SKIP"@),
    ]
}

/// The choices of [`Category::NotificationDaemon`].
pub open spec fn notification_daemon_options() -> Seq<ChoiceView> {
    seq![
        offer("dunst"@, "dunst"@),
        offer("mako"@, "mako"@),
        offer("fnott"@, "fnott"@),
        offer("swaync"@, "swaync"@),
        skip("SKIP"@),
    ]
}

/// The choices of [`Category::Audio`].
pub open spec fn audio_options() -> Seq<ChoiceView> {
    seq![
        offer("pipewire (recommended)"@, "pipewire"@),
        offer("pulseaudio"@, "pulseaudio"@),
        skip("SKIP"@),
    ]
}

/// The choices of [`Category::AuthAgent`].
pub open spec fn auth_agent_options() -> Seq<ChoiceView> {
    seq![
        offer("hyprpolkitagent (default)"@, "hyprpolkitagent"@),
        offer("polkit-kde-agent"@, "polkit-kde-agent"@),
        offer("polkit-gnome"@, "polkit-gnome"@),
        skip("SKIP"@),
    ]
}

/// The choices of [`Category::StatusBar`].
pub open spec fn status_bar_options() -> Seq<ChoiceView> {
    seq![
        offer("waybar (default)"@, "waybar"@),
        offer("polybar"@, "polybar"@),
        offer("eww"@, "eww"@),
        offer("ironbar"@, "ironbar"@),
        skip("SKIP"@),
    ]
}

/// The choices of [`Category::WallpaperUtils`].
pub open spec fn wallpaper_utils_options() -> Seq<ChoiceView> {
    seq![
        offer("hyprpaper"@, "hyprpaper"@),
        offer("waypaper"@, "waypaper"@),
        offer("swww"@, "swww"@),
        offer("swaybg"@, "swaybg"@),
        offer("mpvpaper"@, "mpvpaper"@),
        offer("wpaperd"@, "wpaperd"@),
    ]
}

/// The choices of [`Category::AppLauncher`].
pub open spec fn app_launcher_options() -> Seq<ChoiceView> {
    seq![
        offer("rofi (default)"@, "rofi"@),
        offer("wofi"@, "wofi"@),
        offer("tofi"@, "tofi"@),
        offer("fuzzel"@, "fuzzel"@),
        offer("bemenu"@, "bemenu"@),
        offer("anyrun"@, "anyrun"@),
        offer("walker"@, "walker"@),
        skip("SKIP"@),
    ]
}

/// The choices of [`Category::ColorPicker`].
pub open spec fn color_picker_options() -> Seq<ChoiceView> {
    seq![
        offer("hyprpicker (default)"@, "hyprpicker"@),
        offer("wl-color-picker"@, "wl-color-picker"@),
        skip("SKIP"@),
    ]
}

/// The choices of [`Category::ClipboardManager`].
pub open spec fn clipboard_manager_options() -> Seq<ChoiceView> {
    seq![
        offer("cliphist (default)"@, "cliphist"@),
        offer("clipman"@, "clipman"@),
        offer("clipse"@, "clipse"@),
        offer("copyq"@, "copyq"@),
        offer("wl-clip-persist"@, "wl-clip-persist"@),
        skip("SKIP"@),
    ]
}

/// The choices of [`Category::GuiFileManager`].
pub open spec fn gui_file_manager_options() -> Seq<ChoiceView> {
    seq![
        offer("dolphin (default)"@, "dolphin"@),
        offer("nautilus"@, "nautilus"@),
        offer("nemo"@, "nemo"@),
        offer("thunar"@, "thunar"@),
        skip("SKIP"@),
    ]
}

/// The choices of [`Category::TuiFileManager`].
pub open spec fn tui_file_manager_options() -> Seq<ChoiceView> {
    seq![
        offer("lf"@, "lf"@),
        offer("nnn"@, "nnn"@),
        offer("ranger"@, "ranger"@),
        offer("yazi"@, "yazi"@),
        skip("SKIP"@),
    ]
}

/// The choices of a category; none for a yes-or-no question.
pub open spec fn catalog(category: Category) -> Seq<ChoiceView> {
    match category {
        Category::AurHelper => aur_helper_options(),
        Category::Greeter => greeter_options(),
        Category::GpuDriver => gpu_driver_options(),
        Category::HyprlandVersion => hyprland_version_options(),
        Category::Terminal => terminal_options(),
        Category::Shell => shell_options(),
        Category::NotificationDaemon => notification_daemon_options(),
        Category::Audio => audio_options(),
        Category::AuthAgent => auth_agent_options(),
        Category::StatusBar => status_bar_options(),
        Category::WallpaperUtils => wallpaper_utils_options(),
        Category::AppLauncher => app_launcher_options(),
        Category::ColorPicker => color_picker_options(),
        Category::ClipboardManager => clipboard_manager_options(),
        Category::GuiFileManager => gui_file_manager_options(),
        Category::TuiFileManager => tui_file_manager_options(),
        _ => Seq::empty(),
    }
}

/// The labels of a list of choices, in order.
pub open spec fn labels_of(options: Seq<ChoiceView>) -> Seq<Seq<char>> {
    Seq::new(options.len(), |i: int| options[i].label)
}

/// The value of the first choice from index `from` on that has the label;
/// nothing where there is no such choice or it is the one that skips.
pub open spec fn value_from(options: Seq<ChoiceView>, label: Seq<char>, from: int) -> Option<
    Seq<char>,
>
    decreases options.len() - from,
{
    if from < 0 || from >= options.len() {
        None
    } else if options[from].label == label {
        options[from].value
    } else {
        value_from(options, label, from + 1)
    }
}

/// The value that the category stores for the label.
pub open spec fn value_for(category: Category, label: Seq<char>) -> Option<Seq<char>> {
    value_from(catalog(category), label, 0)
}

/// Appends the entry that stores `value` under `label`.
fn put(list: &mut Vec<Choice>, label: &str, value: &str)
    ensures
        choice_views(final(list)@) == choice_views(old(list)@).push(offer(label@, value@)),
{
    list.push(Choice { label: label.to_owned(), value: Some(value.to_owned()) });
    assert(choice_views(list@) =~= choice_views(old(list)@).push(offer(label@, value@)));
}

/// Appends the entry that skips the category.
fn put_skip(list: &mut Vec<Choice>, label: &str)
    ensures
        choice_views(final(list)@) == choice_views(old(list)@).push(skip(label@)),
{
    list.push(Choice { label: label.to_owned(), value: None });
    assert(choice_views(list@) =~= choice_views(old(list)@).push(skip(label@)));
}

/// An empty list of choices.
fn no_choices() -> (list: Vec<Choice>)
    ensures
        choice_views(list@) == Seq::<ChoiceView>::empty(),
{
    let list: Vec<Choice> = Vec::new();
    assert(choice_views(list@) =~= Seq::<ChoiceView>::empty());
    list
}

/// The choices of [`Category::AurHelper`], as a list.
fn aur_helper_choices() -> (list: Vec<Choice>)
    ensures
        choice_views(list@) == aur_helper_options(),
{
    let mut list = no_choices();
    put(&mut list, "yay (recommended)", "yay");
    put(&mut list, "paru", "paru");
    put_skip(&mut list, "SKIP (install manually later)");
    list
}

/// The choices of [`Category::Greeter`], as a list.
fn greeter_choices() -> (list: Vec<Choice>)
    ensures
        choice_views(list@) == greeter_options(),
{
    let mut list = no_choices();
    put(&mut list, "sddm (default)", "sddm");
    put(&mut list, "gdm", "gdm");
    put(&mut list, "lightdm", "lightdm");
    put(&mut list, "greetd", "greetd");
    put_skip(&mut list, "SKIP");
    list
}

/// The choices of [`Category::GpuDriver`], as a list.
fn gpu_driver_choices() -> (list: Vec<Choice>)
    ensures
        choice_views(list@) == gpu_driver_options(),
{
    let mut list = no_choices();
    put(&mut list, "nvidia", "nvidia");
    put(&mut list, "amd", "amd");
    put(&mut list, "intel", "intel");
    put(&mut list, "open-source (mesa)", "open-source (mesa)");
    put_skip(&mut list, "SKIP");
    list
}

/// The choices of [`Category::HyprlandVersion`], as a list.
fn hyprland_version_choices() -> (list: Vec<Choice>)
    ensures
        choice_views(list@) == hyprland_version_options(),
{
    let mut list = no_choices();
    put(&mut list, "hyprland (default)", "hyprland");
    put(&mut list, "hyprland-git", "hyprland-git");
    put(&mut list, "hyprland-meta", "hyprland-meta");
    put_skip(&mut list, "SKIP");
    list
}

/// The choices of [`Category::Terminal`], as a list.
fn terminal_choices() -> (list: Vec<Choice>)
    ensures
        choice_views(list@) == terminal_options(),
{
    let mut list = no_choices();
    put(&mut list, "kitty (default)", "kitty");
    put(&mut list, "foot", "foot");
    put(&mut list, "alacritty", "alacritty");
    put(&mut list, "ghostty", "ghostty");
    put_skip(&mut list, "SKIP");
    list
}

/// The choices of [`Category::Shell`], as a list.
fn shell_choices() -> (list: Vec<Choice>)
    ensures
        choice_views(list@) == shell_options(),
{
    let mut list = no_choices();
    put(&mut list, "bash (default)", "bash");
    put(&mut list, "zsh", "zsh");
    put(&mut list, "fish", "fish");
    put_skip(&mut list, "SKIP");
    list
}

/// The choices of [`Category::NotificationDaemon`], as a list.
fn notification_daemon_choices() -> (list: Vec<Choice>)
    ensures
        choice_views(list@) == notification_daemon_options(),
{
    let mut list = no_choices();
    put(&mut list, "dunst", "dunst");
    put(&mut list, "mako", "mako");
    put(&mut list, "fnott", "fnott");
    put(&mut list, "swaync", "swaync");
    put_skip(&mut list, "SKIP");
    list
}

/// The choices of [`Category::Audio`], as a list.
fn audio_choices() -> (list: Vec<Choice>)
    ensures
        choice_views(list@) == audio_options(),
{
    let mut list = no_choices();
    put(&mut list, "pipewire (recommended)", "pipewire");
    put(&mut list, "pulseaudio", "pulseaudio");
    put_skip(&mut list, "SKIP");
    list
}

/// The choices of [`Category::AuthAgent`], as a list.
fn auth_agent_choices() -> (list: Vec<Choice>)
    ensures
        choice_views(list@) == auth_agent_options(),
{
    let mut list = no_choices();
    put(&mut list, "hyprpolkitagent (default)", "hyprpolkitagent");
    put(&mut list, "polkit-kde-agent", "polkit-kde-agent");
    put(&mut list, "polkit-gnome", "polkit-gnome");
    put_skip(&mut list, "SKIP");
    list
}

/// The choices of [`Category::StatusBar`], as a list.
fn status_bar_choices() -> (list: Vec<Choice>)
    ensures
        choice_views(list@) == status_bar_options(),
{
    let mut list = no_choices();
    put(&mut list, "waybar (default)", "waybar");
    put(&mut list, "polybar", "polybar");
    put(&mut list, "eww", "eww");
    put(&mut list, "ironbar", "ironbar");
    put_skip(&mut list, "SKIP");
    list
}

/// The choices of [`Category::WallpaperUtils`], as a list.
fn wallpaper_utils_choices() -> (list: Vec<Choice>)
    ensures
        choice_views(list@) == wallpaper_utils_options(),
{
    let mut list = no_choices();
    put(&mut list, "hyprpaper", "hyprpaper");
    put(&mut list, "waypaper", "waypaper");
    put(&mut list, "swww", "swww");
    put(&mut list, "swaybg", "swaybg");
    put(&mut list, "mpvpaper", "mpvpaper");
    put(&mut list, "wpaperd", "wpaperd");
    list
}

/// The choices of [`Category::AppLauncher`], as a list.
fn app_launcher_choices() -> (list: Vec<Choice>)
    ensures
        choice_views(list@) == app_launcher_options(),
{
    let mut list = no_choices();
    put(&mut list, "rofi (default)", "rofi");
    put(&mut list, "wofi", "wofi");
    put(&mut list, "tofi", "tofi");
    put(&mut list, "fuzzel", "fuzzel");
    put(&mut list, "bemenu", "bemenu");
    put(&mut list, "anyrun", "anyrun");
    put(&mut list, "walker", "walker");
    put_skip(&mut list, "SKIP");
    list
}

/// The choices of [`Category::ColorPicker`], as a list.
fn color_picker_choices() -> (list: Vec<Choice>)
    ensures
        choice_views(list@) == color_picker_options(),
{
    let mut list = no_choices();
    put(&mut list, "hyprpicker (default)", "hyprpicker");
    put(&mut list, "wl-color-picker", "wl-color-picker");
    put_skip(&mut list, "SKIP");
    list
}

/// The choices of [`Category::ClipboardManager`], as a list.
fn clipboard_manager_choices() -> (list: Vec<Choice>)
    ensures
        choice_views(list@) == clipboard_manager_options(),
{
    let mut list = no_choices();
    put(&mut list, "cliphist (default)", "cliphist");
    put(&mut list, "clipman", "clipman");
    put(&mut list, "clipse", "clipse");
    put(&mut list, "copyq", "copyq");
    put(&mut list, "wl-clip-persist", "wl-clip-persist");
    put_skip(&mut list, "SKIP");
    list
}

/// The choices of [`Category::GuiFileManager`], as a list.
fn gui_file_manager_choices() -> (list: Vec<Choice>)
    ensures
        choice_views(list@) == gui_file_manager_options(),
{
    let mut list = no_choices();
    put(&mut list, "dolphin (default)", "dolphin");
    put(&mut list, "nautilus", "nautilus");
    put(&mut list, "nemo", "nemo");
    put(&mut list, "thunar", "thunar");
    put_skip(&mut list, "SKIP");
    list
}

/// The choices of [`Category::TuiFileManager`], as a list.
fn tui_file_manager_choices() -> (list: Vec<Choice>)
    ensures
        choice_views(list@) == tui_file_manager_options(),
{
    let mut list = no_choices();
    put(&mut list, "lf", "lf");
    put(&mut list, "nnn", "nnn");
    put(&mut list, "ranger", "ranger");
    put(&mut list, "yazi", "yazi");
    put_skip(&mut list, "SKIP");
    list
}

impl Category {
    /// The categories in the order in which they are asked for.
    pub fn all() -> (order: Vec<Category>)
        ensures
            order@ == wizard_order(),
    {
        let mut order: Vec<Category> = Vec::new();
        order.push(Category::AurHelper);
        order.push(Category::Greeter);
        order.push(Category::GpuDriver);
        order.push(Category::HyprlandVersion);
        order.push(Category::XdgUserDirs);
        order.push(Category::Uwsm);
        order.push(Category::Terminal);
        order.push(Category::Shell);
        order.push(Category::NotificationDaemon);
        order.push(Category::Audio);
        order.push(Category::XdgPortal);
        order.push(Category::AuthAgent);
        order.push(Category::QtSupport);
        order.push(Category::StatusBar);
        order.push(Category::WallpaperUtils);
        order.push(Category::AppLauncher);
        order.push(Category::ColorPicker);
        order.push(Category::ClipboardManager);
        order.push(Category::GuiFileManager);
        order.push(Category::TuiFileManager);
        assert(order@ =~= wizard_order());
        order
    }

    /// The number of the step in which the category is asked for.
    pub fn step(self) -> (number: u8)
        ensures
            number == step_of(self),
    {
        match self {
            Category::AurHelper => 1,
            Category::Greeter => 2,
            Category::GpuDriver => 3,
            Category::HyprlandVersion => 4,
            Category::XdgUserDirs => 5,
            Category::Uwsm => 6,
            Category::Terminal => 7,
            Category::Shell => 7,
            Category::NotificationDaemon => 8,
            Category::Audio => 9,
            Category::XdgPortal => 10,
            Category::AuthAgent => 11,
            Category::QtSupport => 12,
            Category::StatusBar => 13,
            Category::WallpaperUtils => 14,
            Category::AppLauncher => 15,
            Category::ColorPicker => 16,
            Category::ClipboardManager => 17,
            Category::GuiFileManager => 18,
            Category::TuiFileManager => 18,
        }
    }

    /// How the category is asked for.
    pub fn kind(self) -> (kind: PromptKind)
        ensures
            kind == kind_of(self),
    {
        match self {
            Category::AurHelper => PromptKind::Select,
            Category::Greeter => PromptKind::Select,
            Category::GpuDriver => PromptKind::Select,
            Category::HyprlandVersion => PromptKind::Select,
            Category::XdgUserDirs => PromptKind::Confirm,
            Category::Uwsm => PromptKind::Confirm,
            Category::Terminal => PromptKind::Select,
            Category::Shell => PromptKind::Select,
            Category::NotificationDaemon => PromptKind::Select,
            Category::Audio => PromptKind::Select,
            Category::XdgPortal => PromptKind::Confirm,
            Category::AuthAgent => PromptKind::Select,
            Category::QtSupport => PromptKind::Confirm,
            Category::StatusBar => PromptKind::Select,
            Category::WallpaperUtils => PromptKind::MultiSelect,
            Category::AppLauncher => PromptKind::Select,
            Category::ColorPicker => PromptKind::Select,
            Category::ClipboardManager => PromptKind::Select,
            Category::GuiFileManager => PromptKind::Select,
            Category::TuiFileManager => PromptKind::Select,
        }
    }

    /// The question of the category.
    pub fn message(self) -> (message: &'static str)
        ensures
            message@ == message_of(self),
    {
        match self {
            Category::AurHelper => "Select an AUR helper to install:",
            Category::Greeter => "Select a display manager:",
            Category::GpuDriver => "Select your GPU driver:",
            Category::HyprlandVersion => "Select Hyprland package:",
            Category::XdgUserDirs => "Install xdg-user-dirs?",
            Category::Uwsm => "Install UWSM?",
            Category::Terminal => "Select a terminal emulator:",
            Category::Shell => "Select a shell:",
            Category::NotificationDaemon => "Select a notification daemon:",
            Category::Audio => "Select audio system:",
            Category::XdgPortal => "Install XDG Desktop Portal (xdg-desktop-portal-hyprland)?",
            Category::AuthAgent => "Select authentication agent:",
            Category::QtSupport => "Install Qt5/Qt6 Wayland support?",
            Category::StatusBar => "Select a status bar:",
            Category::WallpaperUtils => "Select wallpaper utilities (Space to select, Enter to confirm):",
            Category::AppLauncher => "Select an application launcher:",
            Category::ColorPicker => "Select a color picker:",
            Category::ClipboardManager => "Select a clipboard manager:",
            Category::GuiFileManager => "Select GUI file manager:",
            Category::TuiFileManager => "Select TUI file manager:",
        }
    }

    /// The answer that a yes-or-no question proposes.
    pub fn default_answer(self) -> (answer: bool)
        ensures
            answer == proposed(self),
    {
        match self {
            Category::XdgUserDirs => true,
            Category::Uwsm => false,
            Category::XdgPortal => true,
            Category::QtSupport => true,
            _ => false,
        }
    }

    /// The choices of the category, in the order in which they are shown.
    pub fn choices(self) -> (list: Vec<Choice>)
        ensures
            choice_views(list@) == catalog(self),
    {
        match self {
            Category::AurHelper => aur_helper_choices(),
            Category::Greeter => greeter_choices(),
            Category::GpuDriver => gpu_driver_choices(),
            Category::HyprlandVersion => hyprland_version_choices(),
            Category::Terminal => terminal_choices(),
            Category::Shell => shell_choices(),
            Category::NotificationDaemon => notification_daemon_choices(),
            Category::Audio => audio_choices(),
            Category::AuthAgent => auth_agent_choices(),
            Category::StatusBar => status_bar_choices(),
            Category::WallpaperUtils => wallpaper_utils_choices(),
            Category::AppLauncher => app_launcher_choices(),
            Category::ColorPicker => color_picker_choices(),
            Category::ClipboardManager => clipboard_manager_choices(),
            Category::GuiFileManager => gui_file_manager_choices(),
            Category::TuiFileManager => tui_file_manager_choices(),
            _ => no_choices(),
        }
    }

    /// The labels of the category's choices, as a prompt shows them.
    pub fn labels(self) -> (labels: Vec<String>)
        ensures
            texts(labels@) == labels_of(catalog(self)),
    {
        let list = self.choices();
        let mut labels: Vec<String> = Vec::new();
        let mut i: usize = 0;
        while i < list.len()
            invariant
                i <= list.len(),
                choice_views(list@) == catalog(self),
                texts(labels@) == labels_of(catalog(self)).take(i as int),
            decreases list.len() - i,
        {
            push_line(&mut labels, list[i].label.as_str());
            assert(choice_views(list@)[i as int] == list@[i as int]@);
            assert(texts(labels@) =~= labels_of(catalog(self)).take(i + 1));
            i += 1;
        }
        assert(texts(labels@) =~= labels_of(catalog(self)));
        labels
    }

    /// The value that the category stores for the label: see [`value_for`].
    pub fn value_of(self, label: &str) -> (value: Option<String>)
        ensures
            opt_text(value) == value_for(self, label@),
    {
        let list = self.choices();
        let mut i: usize = 0;
        while i < list.len()
            invariant
                i <= list.len(),
                choice_views(list@) == catalog(self),
                value_for(self, label@) == value_from(catalog(self), label@, i as int),
            decreases list.len() - i,
        {
            assert(choice_views(list@)[i as int] == list@[i as int]@);
            if str_eq(list[i].label.as_str(), label) {
                return match &list[i].value {
                    Some(name) => Some(name.clone()),
                    None => None,
                };
            }
            i += 1;
        }
        None
    }
}

} // verus!
