//! From a configuration to what has to be installed and enabled.
//!
//! A plan is three ordered lists: packages of the official repositories,
//! packages that only a helper can build from the user repository, and
//! services to enable. It is computed afresh from the configuration each time.

use vstd::prelude::*;
use crate::config::{ConfigView, InstallConfig};
use crate::text::{glue, opt_text, push_line, str_eq, texts};

verus! {

/// What to install and enable.
#[derive(Debug, Clone, PartialEq, Eq)]
pub struct InstallPlan {
    /// Packages of the official repositories, in category order.
    pub packages: Vec<String>,
    /// Packages that a helper builds from the user repository.
    pub aur_packages: Vec<String>,
    /// Units to enable, one `<name>.service` per display manager.
    pub services: Vec<String>,
}

/// The mathematical content of an [`InstallPlan`].
pub struct PlanView {
    pub official: Seq<Seq<char>>,
    pub helper: Seq<Seq<char>>,
    pub services: Seq<Seq<char>>,
}

impl View for InstallPlan {
    type V = PlanView;

    open spec fn view(&self) -> PlanView {
        PlanView {
            official: texts(self.packages@),
            helper: texts(self.aur_packages@),
            services: texts(self.services@),
        }
    }
}

/// The chosen value as a list of one, or the empty list for a skipped category.
pub open spec fn chosen(choice: Option<Seq<char>>) -> Seq<Seq<char>> {
    match choice {
        Some(name) => seq![name],
        None => Seq::empty(),
    }
}

/// The names if they are wanted, else nothing.
pub open spec fn when(wanted: bool, names: Seq<Seq<char>>) -> Seq<Seq<char>> {
    if wanted {
        names
    } else {
        Seq::empty()
    }
}

/// The driver packages of a GPU choice. An unknown driver needs none.
pub open spec fn gpu_packages(gpu: Option<Seq<char>>) -> Seq<Seq<char>> {
    if gpu == Some("nvidia"@) {
        seq!["nvidia"@, "nvidia-utils"@, "nvidia-settings"@]
    } else if gpu == Some("amd"@) {
        seq!["mesa"@, "vulkan-radeon"@, "libva-mesa-driver"@]
    } else if gpu == Some("intel"@) {
        seq!["mesa"@, "vulkan-intel"@, "intel-media-driver"@]
    } else if gpu == Some("open-source (mesa)"@) {
        seq!["mesa"@]
    } else {
        Seq::empty()
    }
}

/// The packages of an audio choice. An unknown system needs none.
pub open spec fn audio_packages(audio: Option<Seq<char>>) -> Seq<Seq<char>> {
    if audio == Some("pipewire"@) {
        seq![
            "pipewire"@,
            "pipewire-pulse"@,
            "pipewire-alsa"@,
            "pipewire-jack"@,
            "wireplumber"@,
        ]
    } else if audio == Some("pulseaudio"@) {
        seq!["pulseaudio"@, "pulseaudio-alsa"@]
    } else {
        Seq::empty()
    }
}

/// Whether the compositor variant is the one in the official repositories.
pub open spec fn is_official_hyprland(variant: Seq<char>) -> bool {
    variant == "hyprland"@
}

/// Whether the wallpaper utility is in the official repositories.
pub open spec fn is_official_wallpaper(name: Seq<char>) -> bool {
    name == "hyprpaper"@ || name == "swww"@
}

/// The selected wallpaper utilities that are (`official`) or are not in the
/// official repositories, in selection order.
pub open spec fn wallpaper_packages(utils: Seq<Seq<char>>, official: bool) -> Seq<Seq<char>>
    decreases utils.len(),
{
    if utils.len() == 0 {
        Seq::empty()
    } else {
        let before = wallpaper_packages(utils.drop_last(), official);
        if is_official_wallpaper(utils.last()) == official {
            before.push(utils.last())
        } else {
            before
        }
    }
}

/// The clipboard manager and, unless it is `copyq`, the clipboard bridge it
/// pastes through.
pub open spec fn clipboard_packages(choice: Option<Seq<char>>) -> Seq<Seq<char>> {
    match choice {
        Some(name) => if name == "copyq"@ {
            seq![name]
        } else {
            seq![name, "wl-clipboard"@]
        },
        None => Seq::empty(),
    }
}

/// The packages of the official repositories that `c` calls for.
pub open spec fn official_packages(c: ConfigView) -> Seq<Seq<char>> {
    chosen(c.greeter) + gpu_packages(c.gpu_driver) + when(
        c.hyprland_version.is_some() && is_official_hyprland(c.hyprland_version.unwrap()),
        seq!["hyprland"@],
    ) + when(c.xdg_user_dirs, seq!["xdg-user-dirs"@]) + chosen(c.terminal) + chosen(c.shell)
        + chosen(c.notification_daemon) + audio_packages(c.audio) + when(
        c.xdg_portal,
        seq!["xdg-desktop-portal-hyprland"@, "xdg-desktop-portal"@],
    ) + chosen(c.auth_agent) + when(c.qt_support, seq!["qt5-wayland"@, "qt6-wayland"@]) + chosen(
        c.status_bar,
    ) + wallpaper_packages(c.wallpaper_utils, true) + chosen(c.app_launcher) + chosen(
        c.color_picker,
    ) + clipboard_packages(c.clipboard_manager) + chosen(c.gui_file_manager) + chosen(
        c.tui_file_manager,
    )
}

/// The packages that `c` calls for and only a helper can provide.
pub open spec fn helper_packages(c: ConfigView) -> Seq<Seq<char>> {
    when(
        c.hyprland_version.is_some() && !is_official_hyprland(c.hyprland_version.unwrap()),
        chosen(c.hyprland_version),
    ) + when(c.uwsm, seq!["uwsm"@]) + wallpaper_packages(c.wallpaper_utils, false)
}

/// The unit of a display manager.
pub open spec fn service_name(greeter: Seq<char>) -> Seq<char> {
    greeter + ".service"@
}

/// The services that `c` calls for: the display manager's, if one is chosen.
pub open spec fn services_to_enable(c: ConfigView) -> Seq<Seq<char>> {
    match c.greeter {
        Some(name) => seq![service_name(name)],
        None => Seq::empty(),
    }
}

/// The plan that `c` calls for.
pub open spec fn installation_plan(c: ConfigView) -> PlanView {
    PlanView {
        official: official_packages(c),
        helper: helper_packages(c),
        services: services_to_enable(c),
    }
}

/// Appends the chosen value, if the category was not skipped.
fn push_chosen(list: &mut Vec<String>, choice: &Option<String>)
    ensures
        texts(final(list)@) == texts(old(list)@) + chosen(opt_text(*choice)),
{
    match choice {
        Some(name) => {
            push_line(list, name.as_str());
        },
        None => {},
    }
    assert(texts(list@) =~= texts(old(list)@) + chosen(opt_text(*choice)));
}

/// Appends the packages of the GPU driver.
fn push_gpu_packages(list: &mut Vec<String>, gpu: &Option<String>)
    ensures
        texts(final(list)@) == texts(old(list)@) + gpu_packages(opt_text(*gpu)),
{
    match gpu {
        Some(name) => {
            let name = name.as_str();
            if str_eq(name, "nvidia") {
                push_line(list, "nvidia");
                push_line(list, "nvidia-utils");
                push_line(list, "nvidia-settings");
            } else if str_eq(name, "amd") {
                push_line(list, "mesa");
                push_line(list, "vulkan-radeon");
                push_line(list, "libva-mesa-driver");
            } else if str_eq(name, "intel") {
                push_line(list, "mesa");
                push_line(list, "vulkan-intel");
                push_line(list, "intel-media-driver");
            } else if str_eq(name, "open-source (mesa)") {
                push_line(list, "mesa");
            }
        },
        None => {},
    }
    assert(texts(list@) =~= texts(old(list)@) + gpu_packages(opt_text(*gpu)));
}

/// Appends the packages of the audio system.
fn push_audio_packages(list: &mut Vec<String>, audio: &Option<String>)
    ensures
        texts(final(list)@) == texts(old(list)@) + audio_packages(opt_text(*audio)),
{
    match audio {
        Some(name) => {
            let name = name.as_str();
            if str_eq(name, "pipewire") {
                push_line(list, "pipewire");
                push_line(list, "pipewire-pulse");
                push_line(list, "pipewire-alsa");
                push_line(list, "pipewire-jack");
                push_line(list, "wireplumber");
            } else if str_eq(name, "pulseaudio") {
                push_line(list, "pulseaudio");
                push_line(list, "pulseaudio-alsa");
            }
        },
        None => {},
    }
    assert(texts(list@) =~= texts(old(list)@) + audio_packages(opt_text(*audio)));
}

/// Appends the clipboard manager and, where needed, the bridge.
fn push_clipboard_packages(list: &mut Vec<String>, choice: &Option<String>)
    ensures
        texts(final(list)@) == texts(old(list)@) + clipboard_packages(opt_text(*choice)),
{
    match choice {
        Some(name) => {
            push_line(list, name.as_str());
            if !str_eq(name.as_str(), "copyq") {
                push_line(list, "wl-clipboard");
            }
        },
        None => {},
    }
    assert(texts(list@) =~= texts(old(list)@) + clipboard_packages(opt_text(*choice)));
}

/// Whether the wallpaper utility is in the official repositories.
pub fn wallpaper_is_official(name: &str) -> (official: bool)
    ensures
        official == is_official_wallpaper(name@),
{
    str_eq(name, "hyprpaper") || str_eq(name, "swww")
}

/// Sends each selected wallpaper utility to the list it belongs to.
fn route_wallpaper_utils(official: &mut Vec<String>, helper: &mut Vec<String>, utils: &Vec<String>)
    ensures
        texts(final(official)@) == texts(old(official)@) + wallpaper_packages(texts(utils@), true),
        texts(final(helper)@) == texts(old(helper)@) + wallpaper_packages(texts(utils@), false),
{
    let ghost names = texts(utils@);
    let mut i: usize = 0;
    assert(texts(official@) =~= texts(old(official)@) + wallpaper_packages(names.take(0), true));
    assert(texts(helper@) =~= texts(old(helper)@) + wallpaper_packages(names.take(0), false));
    while i < utils.len()
        invariant
            i <= utils.len(),
            names == texts(utils@),
            texts(official@) == texts(old(official)@) + wallpaper_packages(
                names.take(i as int),
                true,
            ),
            texts(helper@) == texts(old(helper)@) + wallpaper_packages(names.take(i as int), false),
        decreases utils.len() - i,
    {
        assert(names.take(i + 1).drop_last() =~= names.take(i as int));
        assert(names.take(i + 1).last() == utils@[i as int]@);
        if wallpaper_is_official(utils[i].as_str()) {
            push_line(official, utils[i].as_str());
        } else {
            push_line(helper, utils[i].as_str());
        }
        assert(texts(official@) =~= texts(old(official)@) + wallpaper_packages(
            names.take(i + 1),
            true,
        ));
        assert(texts(helper@) =~= texts(old(helper)@) + wallpaper_packages(
            names.take(i + 1),
            false,
        ));
        i += 1;
    }
    assert(names.take(utils.len() as int) =~= names);
}

/// Appends `name` if it is wanted.
fn push_when(list: &mut Vec<String>, wanted: bool, name: &str)
    ensures
        texts(final(list)@) == texts(old(list)@) + when(wanted, seq![name@]),
{
    if wanted {
        push_line(list, name);
    }
    assert(texts(list@) =~= texts(old(list)@) + when(wanted, seq![name@]));
}

/// Appends `first` and `second` if they are wanted.
fn push_when_both(list: &mut Vec<String>, wanted: bool, first: &str, second: &str)
    ensures
        texts(final(list)@) == texts(old(list)@) + when(wanted, seq![first@, second@]),
{
    if wanted {
        push_line(list, first);
        push_line(list, second);
    }
    assert(texts(list@) =~= texts(old(list)@) + when(wanted, seq![first@, second@]));
}

/// Sends the compositor variant to the list it belongs to.
fn route_hyprland(official: &mut Vec<String>, helper: &mut Vec<String>, variant: &Option<String>)
    ensures
        texts(final(official)@) == texts(old(official)@) + when(
            opt_text(*variant).is_some() && is_official_hyprland(opt_text(*variant).unwrap()),
            seq!["hyprland"@],
        ),
        texts(final(helper)@) == texts(old(helper)@) + when(
            opt_text(*variant).is_some() && !is_official_hyprland(opt_text(*variant).unwrap()),
            chosen(opt_text(*variant)),
        ),
{
    match variant {
        Some(name) => {
            if str_eq(name.as_str(), "hyprland") {
                push_line(official, "hyprland");
            } else {
                push_line(helper, name.as_str());
            }
        },
        None => {},
    }
    assert(texts(official@) =~= texts(old(official)@) + when(
        opt_text(*variant).is_some() && is_official_hyprland(opt_text(*variant).unwrap()),
        seq!["hyprland"@],
    ));
    assert(texts(helper@) =~= texts(old(helper)@) + when(
        opt_text(*variant).is_some() && !is_official_hyprland(opt_text(*variant).unwrap()),
        chosen(opt_text(*variant)),
    ));
}

/// The units of the chosen display manager.
fn services_for(greeter: &Option<String>) -> (services: Vec<String>)
    ensures
        texts(services@) == match opt_text(*greeter) {
            Some(name) => seq![service_name(name)],
            None => Seq::empty(),
        },
{
    let mut services: Vec<String> = Vec::new();
    match greeter {
        Some(name) => {
            let unit = glue(name.as_str(), ".service");
            push_line(&mut services, unit.as_str());
            assert(texts(services@) =~= seq![service_name(name@)]);
        },
        None => {
            assert(texts(services@) =~= Seq::<Seq<char>>::empty());
        },
    }
    services
}

/// The plan for `config`: exactly [`installation_plan`] of its view. The
/// result depends on nothing but the configuration, and not on `dry_run`.
pub fn plan_installation(config: &InstallConfig) -> (plan: InstallPlan)
    ensures
        plan@ == installation_plan(config@),
{
    let mut packages: Vec<String> = Vec::new();
    let mut aur_packages: Vec<String> = Vec::new();
    let services = services_for(&config.greeter);

    push_chosen(&mut packages, &config.greeter);
    assert(texts(packages@) =~= chosen(config@.greeter));
    push_gpu_packages(&mut packages, &config.gpu_driver);
    route_hyprland(&mut packages, &mut aur_packages, &config.hyprland_version);
    assert(texts(aur_packages@) =~= when(
        config@.hyprland_version.is_some() && !is_official_hyprland(
            config@.hyprland_version.unwrap(),
        ),
        chosen(config@.hyprland_version),
    ));
    push_when(&mut packages, config.xdg_user_dirs, "xdg-user-dirs");
    push_when(&mut aur_packages, config.uwsm, "uwsm");
    push_chosen(&mut packages, &config.terminal);
    push_chosen(&mut packages, &config.shell);
    push_chosen(&mut packages, &config.notification_daemon);
    push_audio_packages(&mut packages, &config.audio);
    push_when_both(
        &mut packages,
        config.xdg_portal,
        "xdg-desktop-portal-hyprland",
        "xdg-desktop-portal",
    );
    push_chosen(&mut packages, &config.auth_agent);
    push_when_both(&mut packages, config.qt_support, "qt5-wayland", "qt6-wayland");
    push_chosen(&mut packages, &config.status_bar);
    route_wallpaper_utils(&mut packages, &mut aur_packages, &config.wallpaper_utils);
    push_chosen(&mut packages, &config.app_launcher);
    push_chosen(&mut packages, &config.color_picker);
    push_clipboard_packages(&mut packages, &config.clipboard_manager);
    push_chosen(&mut packages, &config.gui_file_manager);
    push_chosen(&mut packages, &config.tui_file_manager);
    InstallPlan { packages, aur_packages, services }
}

/// Configurations with the same selections have the same plan, whatever was
/// computed before and whether or not either is a dry run.
pub proof fn lemma_plan_depends_on_selections_only(a: InstallConfig, b: InstallConfig)
    requires
        a@ == (ConfigView { dry_run: a@.dry_run, ..b@ }),
    ensures
        installation_plan(a@) == installation_plan(b@),
{
}

} // verus!
