//! The autostart lines that a configuration calls for.
//!
//! Lines come in groups, one per category, in a fixed order. A group is the
//! lines of the category and one blank line behind them. A category that was
//! skipped, or whose value has no autostart command, has no group. The only
//! comment is the remark on the session manager, which has no command.

use vstd::prelude::*;
use crate::config::{ConfigView, InstallConfig};
use crate::patcher::{no_rule, no_rules};
use crate::text::{opt_text, push_line, push_lines, str_eq, texts};

verus! {

/// Environment variables for the proprietary NVIDIA driver; nothing for any
/// other driver.
pub open spec fn gpu_lines(gpu: Option<Seq<char>>) -> Seq<Seq<char>> {
    if gpu == Some("nvidia"@) {
        seq![
            "env = LIBVA_DRIVER_NAME,nvidia"@,
            "env = XDG_SESSION_TYPE,wayland"@,
            "env = GBM_BACKEND,nvidia-drm"@,
            "env = __GLX_VENDOR_LIBRARY_NAME,nvidia"@,
            Seq::<char>::empty(),
        ]
    } else {
        Seq::empty()
    }
}

/// The line that starts a notification daemon, where one is known.
pub open spec fn notification_command(name: Seq<char>) -> Option<Seq<char>> {
    if name == "dunst"@ {
        Some("exec-once = dunst"@)
    } else if name == "mako"@ {
        Some("exec-once = mako"@)
    } else if name == "fnott"@ {
        Some("exec-once = fnott"@)
    } else if name == "swaync"@ {
        Some("exec-once = swaync"@)
    } else {
        None
    }
}

/// The line that starts an authentication agent, where one is known.
pub open spec fn auth_agent_command(name: Seq<char>) -> Option<Seq<char>> {
    if name == "hyprpolkitagent"@ {
        Some("exec-once = hyprpolkitagent"@)
    } else if name == "polkit-kde-agent"@ {
        Some("exec-once = /usr/lib/polkit-kde-authentication-agent-1"@)
    } else if name == "polkit-gnome"@ {
        Some("exec-once = /usr/lib/polkit-gnome/polkit-gnome-authentication-agent-1"@)
    } else {
        None
    }
}

/// The line that starts a status bar, where one is known.
pub open spec fn status_bar_command(name: Seq<char>) -> Option<Seq<char>> {
    if name == "waybar"@ {
        Some("exec-once = waybar"@)
    } else if name == "polybar"@ {
        Some("exec-once = polybar"@)
    } else if name == "eww"@ {
        Some("exec-once = eww daemon && eww open bar"@)
    } else if name == "ironbar"@ {
        Some("exec-once = ironbar"@)
    } else {
        None
    }
}

/// The line that starts a wallpaper utility, where one is known.
pub open spec fn wallpaper_command(name: Seq<char>) -> Option<Seq<char>> {
    if name == "hyprpaper"@ {
        Some("exec-once = hyprpaper"@)
    } else if name == "swww"@ {
        Some("exec-once = swww-daemon"@)
    } else if name == "swaybg"@ {
        Some("exec-once = swaybg -i /path/to/wallpaper.png  # Update path"@)
    } else if name == "mpvpaper"@ {
        Some("exec-once = mpvpaper '*' /path/to/video.mp4  # Update path"@)
    } else if name == "wpaperd"@ {
        Some("exec-once = wpaperd"@)
    } else {
        None
    }
}

/// The line that starts a clipboard manager, where one is known.
pub open spec fn clipboard_command(name: Seq<char>) -> Option<Seq<char>> {
    if name == "cliphist"@ {
        Some("exec-once = wl-paste --type text --watch cliphist store"@)
    } else if name == "clipman"@ {
        Some("exec-once = wl-paste -t text --watch clipman store"@)
    } else if name == "clipse"@ {
        Some("exec-once = clipse -listen"@)
    } else if name == "copyq"@ {
        Some("exec-once = copyq"@)
    } else if name == "wl-clip-persist"@ {
        Some("exec-once = wl-clip-persist --clipboard both"@)
    } else {
        None
    }
}

/// A group of one command: the command and a blank line. Empty without a
/// command.
pub open spec fn command_group(command: Option<Seq<char>>) -> Seq<Seq<char>> {
    match command {
        Some(line) => seq![line, Seq::<char>::empty()],
        None => Seq::empty(),
    }
}

/// The group of the notification daemon.
pub open spec fn notification_lines(choice: Option<Seq<char>>) -> Seq<Seq<char>> {
    match choice {
        Some(name) => command_group(notification_command(name)),
        None => Seq::empty(),
    }
}

/// The group of the authentication agent.
pub open spec fn auth_agent_lines(choice: Option<Seq<char>>) -> Seq<Seq<char>> {
    match choice {
        Some(name) => command_group(auth_agent_command(name)),
        None => Seq::empty(),
    }
}

/// The group of the status bar.
pub open spec fn status_bar_lines(choice: Option<Seq<char>>) -> Seq<Seq<char>> {
    match choice {
        Some(name) => command_group(status_bar_command(name)),
        None => Seq::empty(),
    }
}

/// The group of the clipboard manager.
pub open spec fn clipboard_lines(choice: Option<Seq<char>>) -> Seq<Seq<char>> {
    match choice {
        Some(name) => command_group(clipboard_command(name)),
        None => Seq::empty(),
    }
}

/// The three daemons of PipeWire; nothing for any other audio system.
pub open spec fn audio_lines(audio: Option<Seq<char>>) -> Seq<Seq<char>> {
    if audio == Some("pipewire"@) {
        seq![
            "exec-once = /usr/bin/pipewire"@,
            "exec-once = /usr/bin/pipewire-pulse"@,
            "exec-once = /usr/bin/wireplumber"@,
            Seq::<char>::empty(),
        ]
    } else {
        Seq::empty()
    }
}

/// The two lines that hand the session environment to the desktop portal.
pub open spec fn portal_lines(enabled: bool) -> Seq<Seq<char>> {
    if enabled {
        seq![
            "exec-once = dbus-update-activation-environment --systemd WAYLAND_DISPLAY XDG_CURRENT_DESKTOP"@,
            "exec-once = systemctl --user import-environment WAYLAND_DISPLAY XDG_CURRENT_DESKTOP"@,
            Seq::<char>::empty(),
        ]
    } else {
        Seq::empty()
    }
}

/// The commands of the selected wallpaper utilities, in selection order. A
/// utility without a known command is passed over.
pub open spec fn wallpaper_commands(utils: Seq<Seq<char>>) -> Seq<Seq<char>>
    decreases utils.len(),
{
    if utils.len() == 0 {
        Seq::empty()
    } else {
        let before = wallpaper_commands(utils.drop_last());
        match wallpaper_command(utils.last()) {
            Some(line) => before.push(line),
            None => before,
        }
    }
}

/// The wallpaper group: the commands of the selected utilities and a blank
/// line. Empty where no selected utility has a command.
pub open spec fn wallpaper_lines(utils: Seq<Seq<char>>) -> Seq<Seq<char>> {
    if wallpaper_commands(utils).len() == 0 {
        Seq::empty()
    } else {
        wallpaper_commands(utils).push(Seq::<char>::empty())
    }
}

/// A remark that the session manager is started by systemd, not from here.
pub open spec fn uwsm_lines(enabled: bool) -> Seq<Seq<char>> {
    if enabled {
        seq!["# UWSM is configured via systemd units"@, Seq::<char>::empty()]
    } else {
        Seq::empty()
    }
}

/// The whole autostart block of a configuration, group after group.
pub open spec fn exec_once_lines(c: ConfigView) -> Seq<Seq<char>> {
    gpu_lines(c.gpu_driver) + notification_lines(c.notification_daemon) + audio_lines(c.audio)
        + portal_lines(c.xdg_portal) + auth_agent_lines(c.auth_agent) + status_bar_lines(
        c.status_bar,
    ) + wallpaper_lines(c.wallpaper_utils) + clipboard_lines(c.clipboard_manager) + uwsm_lines(
        c.uwsm,
    )
}

/// The line that starts the notification daemon, where one is known.
fn find_notification_command(name: &str) -> (found: Option<&'static str>)
    ensures
        match found {
            Some(line) => notification_command(name@) == Some(line@),
            None => notification_command(name@).is_none(),
        },
{
    if str_eq(name, "dunst") {
        Some("exec-once = dunst")
    } else if str_eq(name, "mako") {
        Some("exec-once = mako")
    } else if str_eq(name, "fnott") {
        Some("exec-once = fnott")
    } else if str_eq(name, "swaync") {
        Some("exec-once = swaync")
    } else {
        None
    }
}

/// The line that starts the authentication agent, where one is known.
fn find_auth_agent_command(name: &str) -> (found: Option<&'static str>)
    ensures
        match found {
            Some(line) => auth_agent_command(name@) == Some(line@),
            None => auth_agent_command(name@).is_none(),
        },
{
    if str_eq(name, "hyprpolkitagent") {
        Some("exec-once = hyprpolkitagent")
    } else if str_eq(name, "polkit-kde-agent") {
        Some("exec-once = /usr/lib/polkit-kde-authentication-agent-1")
    } else if str_eq(name, "polkit-gnome") {
        Some("exec-once = /usr/lib/polkit-gnome/polkit-gnome-authentication-agent-1")
    } else {
        None
    }
}

/// The line that starts the status bar, where one is known.
fn find_status_bar_command(name: &str) -> (found: Option<&'static str>)
    ensures
        match found {
            Some(line) => status_bar_command(name@) == Some(line@),
            None => status_bar_command(name@).is_none(),
        },
{
    if str_eq(name, "waybar") {
        Some("exec-once = waybar")
    } else if str_eq(name, "polybar") {
        Some("exec-once = polybar")
    } else if str_eq(name, "eww") {
        Some("exec-once = eww daemon && eww open bar")
    } else if str_eq(name, "ironbar") {
        Some("exec-once = ironbar")
    } else {
        None
    }
}

/// The line that starts the wallpaper utility, where one is known.
fn find_wallpaper_command(name: &str) -> (found: Option<&'static str>)
    ensures
        match found {
            Some(line) => wallpaper_command(name@) == Some(line@),
            None => wallpaper_command(name@).is_none(),
        },
{
    if str_eq(name, "hyprpaper") {
        Some("exec-once = hyprpaper")
    } else if str_eq(name, "swww") {
        Some("exec-once = swww-daemon")
    } else if str_eq(name, "swaybg") {
        Some("exec-once = swaybg -i /path/to/wallpaper.png  # Update path")
    } else if str_eq(name, "mpvpaper") {
        Some("exec-once = mpvpaper '*' /path/to/video.mp4  # Update path")
    } else if str_eq(name, "wpaperd") {
        Some("exec-once = wpaperd")
    } else {
        None
    }
}

/// The line that starts the clipboard manager, where one is known.
fn find_clipboard_command(name: &str) -> (found: Option<&'static str>)
    ensures
        match found {
            Some(line) => clipboard_command(name@) == Some(line@),
            None => clipboard_command(name@).is_none(),
        },
{
    if str_eq(name, "cliphist") {
        Some("exec-once = wl-paste --type text --watch cliphist store")
    } else if str_eq(name, "clipman") {
        Some("exec-once = wl-paste -t text --watch clipman store")
    } else if str_eq(name, "clipse") {
        Some("exec-once = clipse -listen")
    } else if str_eq(name, "copyq") {
        Some("exec-once = copyq")
    } else if str_eq(name, "wl-clip-persist") {
        Some("exec-once = wl-clip-persist --clipboard both")
    } else {
        None
    }
}

/// Appends the group of one command, if there is a command.
fn push_command_group(lines: &mut Vec<String>, command: Option<&str>)
    ensures
        texts(final(lines)@) == texts(old(lines)@) + command_group(
            match command {
                Some(line) => Some(line@),
                None => None,
            },
        ),
{
    match command {
        Some(line) => {
            push_line(lines, line);
            push_line(lines, "");
            proof {
                reveal_strlit("");
                assert(""@ =~= Seq::<char>::empty());
                assert(texts(lines@) =~= texts(old(lines)@) + seq![line@, Seq::<char>::empty()]);
            }
        },
        None => {
            assert(texts(lines@) =~= texts(old(lines)@) + Seq::<Seq<char>>::empty());
        },
    }
}

/// Appends the group of the GPU driver.
fn push_gpu_lines(lines: &mut Vec<String>, gpu: &Option<String>)
    ensures
        texts(final(lines)@) == texts(old(lines)@) + gpu_lines(opt_text(*gpu)),
{
    let nvidia = match gpu {
        Some(name) => str_eq(name.as_str(), "nvidia"),
        None => false,
    };
    if nvidia {
        push_line(lines, "env = LIBVA_DRIVER_NAME,nvidia");
        push_line(lines, "env = XDG_SESSION_TYPE,wayland");
        push_line(lines, "env = GBM_BACKEND,nvidia-drm");
        push_line(lines, "env = __GLX_VENDOR_LIBRARY_NAME,nvidia");
        push_line(lines, "");
        proof {
            reveal_strlit("");
            assert(""@ =~= Seq::<char>::empty());
        }
    }
    assert(texts(lines@) =~= texts(old(lines)@) + gpu_lines(opt_text(*gpu)));
}

/// Appends the group of the audio system.
fn push_audio_lines(lines: &mut Vec<String>, audio: &Option<String>)
    ensures
        texts(final(lines)@) == texts(old(lines)@) + audio_lines(opt_text(*audio)),
{
    let pipewire = match audio {
        Some(name) => str_eq(name.as_str(), "pipewire"),
        None => false,
    };
    if pipewire {
        push_line(lines, "exec-once = /usr/bin/pipewire");
        push_line(lines, "exec-once = /usr/bin/pipewire-pulse");
        push_line(lines, "exec-once = /usr/bin/wireplumber");
        push_line(lines, "");
        proof {
            reveal_strlit("");
            assert(""@ =~= Seq::<char>::empty());
        }
    }
    assert(texts(lines@) =~= texts(old(lines)@) + audio_lines(opt_text(*audio)));
}

/// Appends the group of the desktop portal.
fn push_portal_lines(lines: &mut Vec<String>, enabled: bool)
    ensures
        texts(final(lines)@) == texts(old(lines)@) + portal_lines(enabled),
{
    if enabled {
        push_line(
            lines,
            "exec-once = dbus-update-activation-environment --systemd WAYLAND_DISPLAY XDG_CURRENT_DESKTOP",
        );
        push_line(
            lines,
            "exec-once = systemctl --user import-environment WAYLAND_DISPLAY XDG_CURRENT_DESKTOP",
        );
        push_line(lines, "");
        proof {
            reveal_strlit("");
            assert(""@ =~= Seq::<char>::empty());
        }
    }
    assert(texts(lines@) =~= texts(old(lines)@) + portal_lines(enabled));
}

/// The commands of the selected wallpaper utilities, in selection order.
fn wallpaper_command_lines(utils: &Vec<String>) -> (commands: Vec<String>)
    ensures
        texts(commands@) == wallpaper_commands(texts(utils@)),
{
    let ghost names = texts(utils@);
    let mut commands: Vec<String> = Vec::new();
    assert(texts(commands@) =~= wallpaper_commands(names.take(0)));
    let mut i: usize = 0;
    while i < utils.len()
        invariant
            i <= utils.len(),
            names == texts(utils@),
            texts(commands@) == wallpaper_commands(names.take(i as int)),
        decreases utils.len() - i,
    {
        assert(names.take(i + 1).drop_last() =~= names.take(i as int));
        assert(names.take(i + 1).last() == utils@[i as int]@);
        match find_wallpaper_command(utils[i].as_str()) {
            Some(line) => {
                push_line(&mut commands, line);
            },
            None => {},
        }
        i += 1;
    }
    assert(names.take(utils.len() as int) =~= names);
    commands
}

/// Appends the group of the wallpaper utilities.
fn push_wallpaper_lines(lines: &mut Vec<String>, utils: &Vec<String>)
    ensures
        texts(final(lines)@) == texts(old(lines)@) + wallpaper_lines(texts(utils@)),
{
    let commands = wallpaper_command_lines(utils);
    if commands.len() > 0 {
        push_lines(lines, &commands);
        push_line(lines, "");
        proof {
            reveal_strlit("");
            assert(""@ =~= Seq::<char>::empty());
        }
    }
    assert(texts(lines@) =~= texts(old(lines)@) + wallpaper_lines(texts(utils@)));
}

/// Appends the remark on the session manager.
fn push_uwsm_lines(lines: &mut Vec<String>, enabled: bool)
    ensures
        texts(final(lines)@) == texts(old(lines)@) + uwsm_lines(enabled),
{
    if enabled {
        push_line(lines, "# UWSM is configured via systemd units");
        push_line(lines, "");
        proof {
            reveal_strlit("");
            assert(""@ =~= Seq::<char>::empty());
        }
    }
    assert(texts(lines@) =~= texts(old(lines)@) + uwsm_lines(enabled));
}

/// The autostart lines for `config`: exactly [`exec_once_lines`] of its view.
/// The result depends on nothing but the configuration.
pub fn generate_exec_once_statements(config: &InstallConfig) -> (statements: Vec<String>)
    ensures
        texts(statements@) == exec_once_lines(config@),
{
    let mut statements: Vec<String> = Vec::new();
    assert(texts(statements@) =~= Seq::<Seq<char>>::empty());
    push_gpu_lines(&mut statements, &config.gpu_driver);
    let notification = match &config.notification_daemon {
        Some(name) => find_notification_command(name.as_str()),
        None => None,
    };
    push_command_group(&mut statements, notification);
    push_audio_lines(&mut statements, &config.audio);
    push_portal_lines(&mut statements, config.xdg_portal);
    let agent = match &config.auth_agent {
        Some(name) => find_auth_agent_command(name.as_str()),
        None => None,
    };
    push_command_group(&mut statements, agent);
    let bar = match &config.status_bar {
        Some(name) => find_status_bar_command(name.as_str()),
        None => None,
    };
    push_command_group(&mut statements, bar);
    push_wallpaper_lines(&mut statements, &config.wallpaper_utils);
    let clipboard = match &config.clipboard_manager {
        Some(name) => find_clipboard_command(name.as_str()),
        None => None,
    };
    push_command_group(&mut statements, clipboard);
    push_uwsm_lines(&mut statements, config.uwsm);
    assert(texts(statements@) =~= exec_once_lines(config@));
    statements
}

/// Every line that [`gpu_lines`], [`audio_lines`], [`portal_lines`] and
/// [`uwsm_lines`] give is without a rule.
proof fn lemma_fixed_groups_without_rule(c: ConfigView)
    ensures
        no_rules(gpu_lines(c.gpu_driver)),
        no_rules(audio_lines(c.audio)),
        no_rules(portal_lines(c.xdg_portal)),
        no_rules(uwsm_lines(c.uwsm)),
{
    reveal_strlit("env = LIBVA_DRIVER_NAME,nvidia");
    assert(no_rule("env = LIBVA_DRIVER_NAME,nvidia"@));
    reveal_strlit("env = XDG_SESSION_TYPE,wayland");
    assert(no_rule("env = XDG_SESSION_TYPE,wayland"@));
    reveal_strlit("env = GBM_BACKEND,nvidia-drm");
    assert(no_rule("env = GBM_BACKEND,nvidia-drm"@));
    reveal_strlit("env = __GLX_VENDOR_LIBRARY_NAME,nvidia");
    assert(no_rule("env = __GLX_VENDOR_LIBRARY_NAME,nvidia"@));
    reveal_strlit("exec-once = /usr/bin/pipewire");
    assert(no_rule("exec-once = /usr/bin/pipewire"@));
    reveal_strlit("exec-once = /usr/bin/pipewire-pulse");
    assert(no_rule("exec-once = /usr/bin/pipewire-pulse"@));
    reveal_strlit("exec-once = /usr/bin/wireplumber");
    assert(no_rule("exec-once = /usr/bin/wireplumber"@));
    reveal_strlit("exec-once = dbus-update-activation-environment --systemd WAYLAND_DISPLAY XDG_CURRENT_DESKTOP");
    assert(no_rule("exec-once = dbus-update-activation-environment --systemd WAYLAND_DISPLAY XDG_CURRENT_DESKTOP"@));
    reveal_strlit("exec-once = systemctl --user import-environment WAYLAND_DISPLAY XDG_CURRENT_DESKTOP");
    assert(no_rule("exec-once = systemctl --user import-environment WAYLAND_DISPLAY XDG_CURRENT_DESKTOP"@));
    reveal_strlit("# UWSM is configured via systemd units");
    assert(no_rule("# UWSM is configured via systemd units"@));
}

/// The line that starts a notification daemon is without a rule.
proof fn lemma_notification_command_without_rule(name: Seq<char>)
    ensures
        notification_command(name) matches Some(line) ==> no_rule(line),
{
    reveal_strlit("exec-once = dunst");
    assert(no_rule("exec-once = dunst"@));
    reveal_strlit("exec-once = mako");
    assert(no_rule("exec-once = mako"@));
    reveal_strlit("exec-once = fnott");
    assert(no_rule("exec-once = fnott"@));
    reveal_strlit("exec-once = swaync");
    assert(no_rule("exec-once = swaync"@));
}

/// The line that starts an authentication agent is without a rule.
proof fn lemma_auth_agent_command_without_rule(name: Seq<char>)
    ensures
        auth_agent_command(name) matches Some(line) ==> no_rule(line),
{
    reveal_strlit("exec-once = hyprpolkitagent");
    assert(no_rule("exec-once = hyprpolkitagent"@));
    reveal_strlit("exec-once = /usr/lib/polkit-kde-authentication-agent-1");
    assert(no_rule("exec-once = /usr/lib/polkit-kde-authentication-agent-1"@));
    reveal_strlit("exec-once = /usr/lib/polkit-gnome/polkit-gnome-authentication-agent-1");
    assert(no_rule("exec-once = /usr/lib/polkit-gnome/polkit-gnome-authentication-agent-1"@));
}

/// The line that starts a status bar is without a rule.
proof fn lemma_status_bar_command_without_rule(name: Seq<char>)
    ensures
        status_bar_command(name) matches Some(line) ==> no_rule(line),
{
    reveal_strlit("exec-once = waybar");
    assert(no_rule("exec-once = waybar"@));
    reveal_strlit("exec-once = polybar");
    assert(no_rule("exec-once = polybar"@));
    reveal_strlit("exec-once = eww daemon && eww open bar");
    assert(no_rule("exec-once = eww daemon && eww open bar"@));
    reveal_strlit("exec-once = ironbar");
    assert(no_rule("exec-once = ironbar"@));
}

/// The line that starts a wallpaper utility is without a rule.
proof fn lemma_wallpaper_command_without_rule(name: Seq<char>)
    ensures
        wallpaper_command(name) matches Some(line) ==> no_rule(line),
{
    reveal_strlit("exec-once = hyprpaper");
    assert(no_rule("exec-once = hyprpaper"@));
    reveal_strlit("exec-once = swww-daemon");
    assert(no_rule("exec-once = swww-daemon"@));
    reveal_strlit("exec-once = swaybg -i /path/to/wallpaper.png  # Update path");
    assert(no_rule("exec-once = swaybg -i /path/to/wallpaper.png  # Update path"@));
    reveal_strlit("exec-once = mpvpaper '*' /path/to/video.mp4  # Update path");
    assert(no_rule("exec-once = mpvpaper '*' /path/to/video.mp4  # Update path"@));
    reveal_strlit("exec-once = wpaperd");
    assert(no_rule("exec-once = wpaperd"@));
}

/// The line that starts a clipboard manager is without a rule.
proof fn lemma_clipboard_command_without_rule(name: Seq<char>)
    ensures
        clipboard_command(name) matches Some(line) ==> no_rule(line),
{
    reveal_strlit("exec-once = wl-paste --type text --watch cliphist store");
    assert(no_rule("exec-once = wl-paste --type text --watch cliphist store"@));
    reveal_strlit("exec-once = wl-paste -t text --watch clipman store");
    assert(no_rule("exec-once = wl-paste -t text --watch clipman store"@));
    reveal_strlit("exec-once = clipse -listen");
    assert(no_rule("exec-once = clipse -listen"@));
    reveal_strlit("exec-once = copyq");
    assert(no_rule("exec-once = copyq"@));
    reveal_strlit("exec-once = wl-clip-persist --clipboard both");
    assert(no_rule("exec-once = wl-clip-persist --clipboard both"@));
}

/// The commands of the wallpaper utilities are without a rule.
proof fn lemma_wallpaper_commands_without_rule(utils: Seq<Seq<char>>)
    ensures
        no_rules(wallpaper_commands(utils)),
    decreases utils.len(),
{
    if utils.len() > 0 {
        lemma_wallpaper_commands_without_rule(utils.drop_last());
        lemma_wallpaper_command_without_rule(utils.last());
    }
}

/// Lists of lines without a rule, one after the other, are such a list.
proof fn lemma_no_rules_both(first: Seq<Seq<char>>, second: Seq<Seq<char>>)
    requires
        no_rules(first),
        no_rules(second),
    ensures
        no_rules(first + second),
{
    assert forall|j: int| 0 <= j < (first + second).len() implies no_rule(
        #[trigger] (first + second)[j],
    ) by {
        if j < first.len() {
            assert((first + second)[j] == first[j]);
        } else {
            assert((first + second)[j] == second[j - first.len()]);
        }
    }
}

/// The wallpaper group is without a rule.
proof fn lemma_wallpaper_lines_without_rule(utils: Seq<Seq<char>>)
    ensures
        no_rules(wallpaper_lines(utils)),
{
    lemma_wallpaper_commands_without_rule(utils);
    let tail = seq![Seq::<char>::empty()];
    assert(no_rules(tail));
    lemma_no_rules_both(wallpaper_commands(utils), tail);
    assert(wallpaper_commands(utils).push(Seq::<char>::empty()) =~= wallpaper_commands(utils)
        + tail);
}

/// No generated line holds two `=` side by side, so none holds a marker:
/// the block for a configuration can always be found again.
pub proof fn lemma_generated_lines_without_rule(c: ConfigView)
    ensures
        no_rules(exec_once_lines(c)),
{
    let gpu = gpu_lines(c.gpu_driver);
    let notification = notification_lines(c.notification_daemon);
    let audio = audio_lines(c.audio);
    let portal = portal_lines(c.xdg_portal);
    let agent = auth_agent_lines(c.auth_agent);
    let bar = status_bar_lines(c.status_bar);
    let wallpaper = wallpaper_lines(c.wallpaper_utils);
    let clipboard = clipboard_lines(c.clipboard_manager);
    let uwsm = uwsm_lines(c.uwsm);

    lemma_fixed_groups_without_rule(c);
    lemma_wallpaper_lines_without_rule(c.wallpaper_utils);
    assert(no_rules(notification)) by {
        if c.notification_daemon.is_some() {
            lemma_notification_command_without_rule(c.notification_daemon.unwrap());
        }
    }
    assert(no_rules(agent)) by {
        if c.auth_agent.is_some() {
            lemma_auth_agent_command_without_rule(c.auth_agent.unwrap());
        }
    }
    assert(no_rules(bar)) by {
        if c.status_bar.is_some() {
            lemma_status_bar_command_without_rule(c.status_bar.unwrap());
        }
    }
    assert(no_rules(clipboard)) by {
        if c.clipboard_manager.is_some() {
            lemma_clipboard_command_without_rule(c.clipboard_manager.unwrap());
        }
    }
    lemma_no_rules_both(gpu, notification);
    lemma_no_rules_both(gpu + notification, audio);
    lemma_no_rules_both(gpu + notification + audio, portal);
    lemma_no_rules_both(gpu + notification + audio + portal, agent);
    lemma_no_rules_both(gpu + notification + audio + portal + agent, bar);
    lemma_no_rules_both(gpu + notification + audio + portal + agent + bar, wallpaper);
    lemma_no_rules_both(
        gpu + notification + audio + portal + agent + bar + wallpaper,
        clipboard,
    );
    lemma_no_rules_both(
        gpu + notification + audio + portal + agent + bar + wallpaper + clipboard,
        uwsm,
    );
}

/// Configurations with the same content have the same lines, character for
/// character.
pub proof fn lemma_lines_depend_on_config_only(a: InstallConfig, b: InstallConfig)
    requires
        a@ == b@,
    ensures
        exec_once_lines(a@) == exec_once_lines(b@),
{
}

} // verus!
