//! The table that shows the choices before the installation begins.

use vstd::prelude::*;
use vstd::string::*;
use crate::config::{ConfigView, InstallConfig};
use crate::text::{glue, join, join_strings, opt_text, push_line, texts};

verus! {

/// The text between double quotes, with the escapes that `Debug` writes for
/// a `str`.
pub uninterp spec fn quoted(text: Seq<char>) -> Seq<char>;

/// `Debug` formatting of a `str` (`format!("{:?}", ..)`): the contract only
/// gives the result its name, [`quoted`], as a function of the characters.
#[verifier::external_body]
fn quote(text: &str) -> (shown: String)
    ensures
        shown@ == quoted(text@),
{
    format!("{:?}", text)
}

/// A row: the title, padded to the width of the first column, and the value.
pub open spec fn row(title: Seq<char>, shown: Seq<char>) -> Seq<char> {
    title + shown
}

/// What a row shows for a single choice: the name in quotes, or `"None"`.
pub open spec fn shown_choice(choice: Option<Seq<char>>) -> Seq<char> {
    quoted(
        match choice {
            Some(name) => name,
            None => "None"@,
        },
    )
}

/// What a row shows for a yes-or-no choice.
pub open spec fn shown_flag(flag: bool) -> Seq<char> {
    if flag {
        "Yes"@
    } else {
        "No"@
    }
}

/// What a row shows for the wallpaper utilities: the names with commas
/// between them, in quotes, or `"None"`.
pub open spec fn shown_list(names: Seq<Seq<char>>) -> Seq<char> {
    quoted(
        if names.len() == 0 {
            "None"@
        } else {
            join(names, ", "@)
        },
    )
}

/// The rows that a dry run puts before the table.
pub open spec fn mode_rows(dry_run: bool) -> Seq<Seq<char>> {
    if dry_run {
        seq!["MODE:                 DRY RUN (No changes will be made)"@, Seq::<char>::empty()]
    } else {
        Seq::empty()
    }
}

/// The table: one row per category in the order of the wizard, and an empty
/// row at the end.
pub open spec fn summary(c: ConfigView) -> Seq<Seq<char>> {
    mode_rows(c.dry_run).push(row("AUR Helper:            "@, shown_choice(c.aur_helper))).push(
        row("Display Manager:       "@, shown_choice(c.greeter)),
    ).push(row("GPU Driver:            "@, shown_choice(c.gpu_driver))).push(
        row("Hyprland Version:      "@, shown_choice(c.hyprland_version)),
    ).push(row("XDG User Directories:  "@, shown_flag(c.xdg_user_dirs))).push(
        row("UWSM:                  "@, shown_flag(c.uwsm)),
    ).push(row("Terminal:              "@, shown_choice(c.terminal))).push(
        row("Shell:                 "@, shown_choice(c.shell)),
    ).push(row("Notification Daemon:   "@, shown_choice(c.notification_daemon))).push(
        row("Audio System:          "@, shown_choice(c.audio)),
    ).push(row("XDG Portal:            "@, shown_flag(c.xdg_portal))).push(
        row("Auth Agent:            "@, shown_choice(c.auth_agent)),
    ).push(row("Qt Support:            "@, shown_flag(c.qt_support))).push(
        row("Status Bar:            "@, shown_choice(c.status_bar)),
    ).push(row("Wallpaper Utils:       "@, shown_list(c.wallpaper_utils))).push(
        row("App Launcher:          "@, shown_choice(c.app_launcher)),
    ).push(row("Color Picker:          "@, shown_choice(c.color_picker))).push(
        row("Clipboard Manager:     "@, shown_choice(c.clipboard_manager)),
    ).push(row("GUI File Manager:      "@, shown_choice(c.gui_file_manager))).push(
        row("TUI File Manager:      "@, shown_choice(c.tui_file_manager)),
    ).push(Seq::<char>::empty())
}

/// A row of the table from its title and the value as it is shown.
pub fn summary_row(title: &str, shown: &str) -> (text: String)
    ensures
        text@ == row(title@, shown@),
{
    glue(title, shown)
}

/// Appends the row of a single choice.
fn push_choice_row(rows: &mut Vec<String>, title: &str, choice: &Option<String>)
    ensures
        texts(final(rows)@) == texts(old(rows)@).push(
            row(title@, shown_choice(opt_text(*choice))),
        ),
{
    let shown = match choice {
        Some(name) => quote(name.as_str()),
        None => quote("None"),
    };
    let text = summary_row(title, shown.as_str());
    push_line(rows, text.as_str());
}

/// Appends the row of a yes-or-no choice.
fn push_flag_row(rows: &mut Vec<String>, title: &str, flag: bool)
    ensures
        texts(final(rows)@) == texts(old(rows)@).push(row(title@, shown_flag(flag))),
{
    let shown = if flag {
        "Yes"
    } else {
        "No"
    };
    let text = summary_row(title, shown);
    push_line(rows, text.as_str());
}

/// Appends the row of the wallpaper utilities.
fn push_list_row(rows: &mut Vec<String>, title: &str, names: &Vec<String>)
    ensures
        texts(final(rows)@) == texts(old(rows)@).push(row(title@, shown_list(texts(names@)))),
{
    let shown = if names.len() == 0 {
        quote("None")
    } else {
        let joined = join_strings(names, ", ");
        quote(joined.as_str())
    };
    let text = summary_row(title, shown.as_str());
    push_line(rows, text.as_str());
}

/// The table of the choices in `config`: see [`summary`].
pub fn summary_lines(config: &InstallConfig) -> (rows: Vec<String>)
    ensures
        texts(rows@) == summary(config@),
{
    let mut rows: Vec<String> = Vec::new();
    if config.dry_run {
        push_line(&mut rows, "MODE:                 DRY RUN (No changes will be made)");
        push_line(&mut rows, "");
    }
    proof {
        reveal_strlit("");
        assert(""@ =~= Seq::<char>::empty());
        assert(texts(rows@) =~= mode_rows(config.dry_run));
    }
    push_choice_row(&mut rows, "AUR Helper:            ", &config.aur_helper);
    push_choice_row(&mut rows, "Display Manager:       ", &config.greeter);
    push_choice_row(&mut rows, "GPU Driver:            ", &config.gpu_driver);
    push_choice_row(&mut rows, "Hyprland Version:      ", &config.hyprland_version);
    push_flag_row(&mut rows, "XDG User Directories:  ", config.xdg_user_dirs);
    push_flag_row(&mut rows, "UWSM:                  ", config.uwsm);
    push_choice_row(&mut rows, "Terminal:              ", &config.terminal);
    push_choice_row(&mut rows, "Shell:                 ", &config.shell);
    push_choice_row(&mut rows, "Notification Daemon:   ", &config.notification_daemon);
    push_choice_row(&mut rows, "Audio System:          ", &config.audio);
    push_flag_row(&mut rows, "XDG Portal:            ", config.xdg_portal);
    push_choice_row(&mut rows, "Auth Agent:            ", &config.auth_agent);
    push_flag_row(&mut rows, "Qt Support:            ", config.qt_support);
    push_choice_row(&mut rows, "Status Bar:            ", &config.status_bar);
    push_list_row(&mut rows, "Wallpaper Utils:       ", &config.wallpaper_utils);
    push_choice_row(&mut rows, "App Launcher:          ", &config.app_launcher);
    push_choice_row(&mut rows, "Color Picker:          ", &config.color_picker);
    push_choice_row(&mut rows, "Clipboard Manager:     ", &config.clipboard_manager);
    push_choice_row(&mut rows, "GUI File Manager:      ", &config.gui_file_manager);
    push_choice_row(&mut rows, "TUI File Manager:      ", &config.tui_file_manager);
    push_line(&mut rows, "");
    rows
}

} // verus!
