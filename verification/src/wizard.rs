//! Asking the questions and keeping the answers.
//!
//! The caller shows each [`Question`] and hands back an [`Answer`]. An answer
//! changes the one field of its category; a prompt that was interrupted
//! leaves the category skipped, and the wizard goes on.

use vstd::prelude::*;
use vstd::string::*;
use crate::catalog::{
    catalog, kind_of, labels_of, message_of, proposed, value_for, Category, PromptKind,
};
use crate::config::{ConfigView, InstallConfig};
use crate::text::{glue, opt_text, push_lines, texts};

verus! {

/// What the user is asked.
#[derive(Debug, Clone, PartialEq, Eq)]
pub enum Question {
    /// Yes or no, with the answer that is proposed.
    Confirm { message: String, default: bool },
    /// One of the options.
    Select { message: String, options: Vec<String> },
    /// Any number of the options.
    MultiSelect { message: String, options: Vec<String> },
    /// A line of text.
    Text { message: String },
}

/// The mathematical content of a [`Question`].
pub enum QuestionView {
    Confirm { message: Seq<char>, default: bool },
    Select { message: Seq<char>, options: Seq<Seq<char>> },
    MultiSelect { message: Seq<char>, options: Seq<Seq<char>> },
    Text { message: Seq<char> },
}

impl View for Question {
    type V = QuestionView;

    open spec fn view(&self) -> QuestionView {
        match self {
            Question::Confirm { message, default } => QuestionView::Confirm {
                message: message@,
                default: *default,
            },
            Question::Select { message, options } => QuestionView::Select {
                message: message@,
                options: texts(options@),
            },
            Question::MultiSelect { message, options } => QuestionView::MultiSelect {
                message: message@,
                options: texts(options@),
            },
            Question::Text { message } => QuestionView::Text { message: message@ },
        }
    }
}

/// What the user said.
#[derive(Debug, Clone, PartialEq, Eq)]
pub enum Answer {
    /// Yes or no.
    Confirmed { yes: bool },
    /// The label of the option that was picked.
    Picked { label: String },
    /// The labels of the options that were picked, in the order shown.
    PickedMany { labels: Vec<String> },
    /// The line that was typed.
    Typed { text: String },
    /// The prompt was interrupted or failed.
    Cancelled,
}

/// The mathematical content of an [`Answer`].
pub enum AnswerView {
    Confirmed { yes: bool },
    Picked { label: Seq<char> },
    PickedMany { labels: Seq<Seq<char>> },
    Typed { text: Seq<char> },
    Cancelled,
}

impl View for Answer {
    type V = AnswerView;

    open spec fn view(&self) -> AnswerView {
        match self {
            Answer::Confirmed { yes } => AnswerView::Confirmed { yes: *yes },
            Answer::Picked { label } => AnswerView::Picked { label: label@ },
            Answer::PickedMany { labels } => AnswerView::PickedMany { labels: texts(labels@) },
            Answer::Typed { text } => AnswerView::Typed { text: text@ },
            Answer::Cancelled => AnswerView::Cancelled,
        }
    }
}

/// The question of a category.
pub open spec fn question_for(category: Category) -> QuestionView {
    match kind_of(category) {
        PromptKind::Confirm => QuestionView::Confirm {
            message: message_of(category),
            default: proposed(category),
        },
        PromptKind::Select => QuestionView::Select {
            message: message_of(category),
            options: labels_of(catalog(category)),
        },
        PromptKind::MultiSelect => QuestionView::MultiSelect {
            message: message_of(category),
            options: labels_of(catalog(category)),
        },
    }
}

/// Whether the answer is a yes. Anything else counts as no.
pub open spec fn agreed(answer: AnswerView) -> bool {
    answer == (AnswerView::Confirmed { yes: true })
}

/// The value that a single choice stores: that of the picked label, and
/// nothing for any other answer.
pub open spec fn picked(category: Category, answer: AnswerView) -> Option<Seq<char>> {
    match answer {
        AnswerView::Picked { label } => value_for(category, label),
        _ => None,
    }
}

/// What a multiple choice stores: the picked labels as they are, and
/// nothing for any other answer.
pub open spec fn picked_many(answer: AnswerView) -> Seq<Seq<char>> {
    match answer {
        AnswerView::PickedMany { labels } => labels,
        _ => Seq::empty(),
    }
}

/// The configuration after the answer to the category's question: the
/// field of the category is replaced, every other field kept.
pub open spec fn recorded(c: ConfigView, category: Category, answer: AnswerView) -> ConfigView {
    match category {
        Category::AurHelper => ConfigView { aur_helper: picked(category, answer), ..c },
        Category::Greeter => ConfigView { greeter: picked(category, answer), ..c },
        Category::GpuDriver => ConfigView { gpu_driver: picked(category, answer), ..c },
        Category::HyprlandVersion => ConfigView { hyprland_version: picked(category, answer), ..c },
        Category::XdgUserDirs => ConfigView { xdg_user_dirs: agreed(answer), ..c },
        Category::Uwsm => ConfigView { uwsm: agreed(answer), ..c },
        Category::Terminal => ConfigView { terminal: picked(category, answer), ..c },
        Category::Shell => ConfigView { shell: picked(category, answer), ..c },
        Category::NotificationDaemon => ConfigView {
            notification_daemon: picked(category, answer),
            ..c
        },
        Category::Audio => ConfigView { audio: picked(category, answer), ..c },
        Category::XdgPortal => ConfigView { xdg_portal: agreed(answer), ..c },
        Category::AuthAgent => ConfigView { auth_agent: picked(category, answer), ..c },
        Category::QtSupport => ConfigView { qt_support: agreed(answer), ..c },
        Category::StatusBar => ConfigView { status_bar: picked(category, answer), ..c },
        Category::WallpaperUtils => ConfigView { wallpaper_utils: picked_many(answer), ..c },
        Category::AppLauncher => ConfigView { app_launcher: picked(category, answer), ..c },
        Category::ColorPicker => ConfigView { color_picker: picked(category, answer), ..c },
        Category::ClipboardManager => ConfigView {
            clipboard_manager: picked(category, answer),
            ..c
        },
        Category::GuiFileManager => ConfigView { gui_file_manager: picked(category, answer), ..c },
        Category::TuiFileManager => ConfigView { tui_file_manager: picked(category, answer), ..c },
    }
}

/// The helper that is found on the system: `yay` before `paru`.
pub open spec fn detected(yay_installed: bool, paru_installed: bool) -> Option<Seq<char>> {
    if yay_installed {
        Some("yay"@)
    } else if paru_installed {
        Some("paru"@)
    } else {
        None
    }
}

/// The question whether the helper that was found is kept.
pub open spec fn keep_question_for(installed: Seq<char>) -> QuestionView {
    QuestionView::Confirm { message: "Keep using "@ + installed + "?"@, default: true }
}

/// The question that settles the mode before anything else is asked.
pub open spec fn dry_run_question_view() -> QuestionView {
    QuestionView::Confirm {
        message: "Run in DRY RUN mode? (No actual installation or file changes)"@,
        default: false,
    }
}

/// The question that stands between the summary and the installation.
pub open spec fn go_ahead_question_for(dry_run: bool) -> QuestionView {
    QuestionView::Confirm {
        message: if dry_run {
            "Continue with dry run?"@
        } else {
            "Proceed with installation?"@
        },
        default: true,
    }
}

/// The question whether the configuration file is to be patched.
pub open spec fn update_question_view() -> QuestionView {
    QuestionView::Confirm {
        message: "Would you like to update your hyprland.conf with exec-once statements?"@,
        default: true,
    }
}

/// The question whether the compositor is started at the end of a live run.
pub open spec fn start_question_view() -> QuestionView {
    QuestionView::Confirm { message: "Would you like to start Hyprland now?"@, default: false }
}

impl Answer {
    /// Whether the answer is a yes: see [`agreed`].
    pub fn is_yes(&self) -> (yes: bool)
        ensures
            yes == agreed(self@),
    {
        match self {
            Answer::Confirmed { yes } => *yes,
            _ => false,
        }
    }

    /// The value that the answer gives a single choice: see [`picked`].
    pub fn value_in(&self, category: Category) -> (value: Option<String>)
        ensures
            opt_text(value) == picked(category, self@),
    {
        match self {
            Answer::Picked { label } => category.value_of(label.as_str()),
            _ => None,
        }
    }

    /// What the answer gives a multiple choice: see [`picked_many`].
    pub fn values(&self) -> (values: Vec<String>)
        ensures
            texts(values@) == picked_many(self@),
    {
        let mut values: Vec<String> = Vec::new();
        assert(texts(values@) =~= Seq::<Seq<char>>::empty());
        match self {
            Answer::PickedMany { labels } => {
                push_lines(&mut values, labels);
                assert(texts(values@) =~= texts(labels@));
            },
            _ => {},
        }
        values
    }
}

/// The question of a category: see [`question_for`].
pub fn question(category: Category) -> (asked: Question)
    ensures
        asked@ == question_for(category),
{
    let message = category.message().to_owned();
    match category.kind() {
        PromptKind::Confirm => Question::Confirm { message, default: category.default_answer() },
        PromptKind::Select => Question::Select { message, options: category.labels() },
        PromptKind::MultiSelect => Question::MultiSelect { message, options: category.labels() },
    }
}

/// Keeps the answer to the category's question: see [`recorded`].
pub fn record_answer(config: &mut InstallConfig, category: Category, answer: &Answer)
    ensures
        final(config)@ == recorded(old(config)@, category, answer@),
{
    match category {
        Category::AurHelper => {
            config.aur_helper = answer.value_in(category);
        },
        Category::Greeter => {
            config.greeter = answer.value_in(category);
        },
        Category::GpuDriver => {
            config.gpu_driver = answer.value_in(category);
        },
        Category::HyprlandVersion => {
            config.hyprland_version = answer.value_in(category);
        },
        Category::XdgUserDirs => {
            config.xdg_user_dirs = answer.is_yes();
        },
        Category::Uwsm => {
            config.uwsm = answer.is_yes();
        },
        Category::Terminal => {
            config.terminal = answer.value_in(category);
        },
        Category::Shell => {
            config.shell = answer.value_in(category);
        },
        Category::NotificationDaemon => {
            config.notification_daemon = answer.value_in(category);
        },
        Category::Audio => {
            config.audio = answer.value_in(category);
        },
        Category::XdgPortal => {
            config.xdg_portal = answer.is_yes();
        },
        Category::AuthAgent => {
            config.auth_agent = answer.value_in(category);
        },
        Category::QtSupport => {
            config.qt_support = answer.is_yes();
        },
        Category::StatusBar => {
            config.status_bar = answer.value_in(category);
        },
        Category::WallpaperUtils => {
            config.wallpaper_utils = answer.values();
        },
        Category::AppLauncher => {
            config.app_launcher = answer.value_in(category);
        },
        Category::ColorPicker => {
            config.color_picker = answer.value_in(category);
        },
        Category::ClipboardManager => {
            config.clipboard_manager = answer.value_in(category);
        },
        Category::GuiFileManager => {
            config.gui_file_manager = answer.value_in(category);
        },
        Category::TuiFileManager => {
            config.tui_file_manager = answer.value_in(category);
        },
    }
}

/// The helper that is found on the system, given which of the two are.
pub fn detected_helper(yay_installed: bool, paru_installed: bool) -> (found: Option<&'static str>)
    ensures
        match found {
            Some(name) => detected(yay_installed, paru_installed) == Some(name@),
            None => detected(yay_installed, paru_installed).is_none(),
        },
{
    if yay_installed {
        Some("yay")
    } else if paru_installed {
        Some("paru")
    } else {
        None
    }
}

/// The question whether the helper that was found is kept.
pub fn keep_question(installed: &str) -> (asked: Question)
    ensures
        asked@ == keep_question_for(installed@),
{
    let mut message = glue("Keep using ", installed);
    message.append("?");
    Question::Confirm { message, default: true }
}

/// Keeps the helper that was found, if the user agreed. The result says
/// whether it was kept: the question of [`Category::AurHelper`] is then not
/// asked. Otherwise the configuration stays as it was.
pub fn record_kept_helper(config: &mut InstallConfig, installed: &str, answer: &Answer) -> (kept:
    bool)
    ensures
        kept == agreed(answer@),
        final(config)@ == if kept {
            ConfigView { aur_helper: Some(installed@), ..old(config)@ }
        } else {
            old(config)@
        },
{
    if answer.is_yes() {
        config.aur_helper = Some(installed.to_owned());
        true
    } else {
        false
    }
}

/// The question that settles the mode before anything else is asked.
pub fn dry_run_question() -> (asked: Question)
    ensures
        asked@ == dry_run_question_view(),
{
    Question::Confirm {
        message: "Run in DRY RUN mode? (No actual installation or file changes)".to_owned(),
        default: false,
    }
}

/// Keeps the mode: a dry run only on a plain yes.
pub fn record_dry_run(config: &mut InstallConfig, answer: &Answer)
    ensures
        final(config)@ == (ConfigView { dry_run: agreed(answer@), ..old(config)@ }),
{
    config.dry_run = answer.is_yes();
}

/// Whether the user is to be warned that the installer lacks privileges:
/// once, before a live run that is not started as `root`. The run goes on.
pub fn permission_warning_due(config: &InstallConfig, is_root: bool) -> (due: bool)
    ensures
        due == (!config.dry_run && !is_root),
{
    !config.dry_run && !is_root
}

/// The question that stands between the summary and the installation. Only a
/// plain yes lets the installation begin.
pub fn go_ahead_question(config: &InstallConfig) -> (asked: Question)
    ensures
        asked@ == go_ahead_question_for(config.dry_run),
{
    let message = if config.dry_run {
        "Continue with dry run?"
    } else {
        "Proceed with installation?"
    };
    Question::Confirm { message: message.to_owned(), default: true }
}

/// The question whether the configuration file is to be patched.
pub fn update_question() -> (asked: Question)
    ensures
        asked@ == update_question_view(),
{
    Question::Confirm {
        message: "Would you like to update your hyprland.conf with exec-once statements?".to_owned(),
        default: true,
    }
}

/// The question whether the compositor is started at the end of a live run.
pub fn start_question() -> (asked: Question)
    ensures
        asked@ == start_question_view(),
{
    Question::Confirm {
        message: "Would you like to start Hyprland now?".to_owned(),
        default: false,
    }
}

} // verus!
