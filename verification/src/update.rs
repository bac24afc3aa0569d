//! Deciding what becomes of the configuration file.
//!
//! The decision needs the configuration and the text of the file, if the
//! file is there. It never asks for the file itself to be created: without a
//! file, the block goes into a file of another name beside it.

use vstd::prelude::*;
use vstd::string::*;
use crate::config::{ConfigView, InstallConfig};
use crate::generator::{
    exec_once_lines, generate_exec_once_statements, lemma_generated_lines_without_rule,
};
use crate::patcher::{
    block_body, end_marker, lemma_no_rule_no_marker, lemma_rows_without_rule, lemma_splice_twice,
    patched, place_block, render_block, spliced, start_marker, PatchError, MARKER_END,
    MARKER_START,
};
use crate::search::first_occurrence;
use crate::text::{glue, join, join_strings, push_line, push_lines, texts};

verus! {

/// The configuration file, below the configuration directory.
pub const CONFIG_FILE: &'static str = "hypr/hyprland.conf";

/// The file that takes the block where there is no configuration file, in
/// the same directory.
pub const SIDECAR_FILE: &'static str = "hyprland-autostart.conf";

/// What a backup's name has in place of the configuration file's extension.
pub const BACKUP_EXTENSION: &'static str = "conf.backup";

/// The rows that open the sidecar file: what it is and how to include it.
pub const SIDECAR_HEADER: &'static str =
    "# Auto-generated autostart configuration\n# Generated by hyprland-installer\n# Include this in your main hyprland.conf with: source = ~/.config/hypr/hyprland-autostart.conf\n\n";

/// What is done about the configuration file.
#[derive(Debug, Clone, PartialEq, Eq)]
pub enum ConfigUpdate {
    /// Dry run: nothing is written. The rows are what would be added, between
    /// the two markers; there are none where nothing would be.
    Preview { rows: Vec<String> },
    /// The configuration calls for no autostart line: nothing is written.
    Nothing,
    /// There is no configuration file: the text goes to [`SIDECAR_FILE`].
    CreateSidecar { content: String },
    /// The configuration file is backed up, then takes this text.
    Rewrite { content: String },
}

/// The mathematical content of a [`ConfigUpdate`].
pub enum UpdateView {
    Preview { rows: Seq<Seq<char>> },
    Nothing,
    CreateSidecar { content: Seq<char> },
    Rewrite { content: Seq<char> },
}

impl View for ConfigUpdate {
    type V = UpdateView;

    open spec fn view(&self) -> UpdateView {
        match self {
            ConfigUpdate::Preview { rows } => UpdateView::Preview { rows: texts(rows@) },
            ConfigUpdate::Nothing => UpdateView::Nothing,
            ConfigUpdate::CreateSidecar { content } => UpdateView::CreateSidecar {
                content: content@,
            },
            ConfigUpdate::Rewrite { content } => UpdateView::Rewrite { content: content@ },
        }
    }
}

/// Which paths go back to the unprivileged user after a write as `root`.
#[derive(Debug, Clone, Copy, PartialEq, Eq, Structural)]
pub enum Handover {
    /// The written file alone.
    File,
    /// The directory of the written file, with all that is in it.
    DirectoryTree,
}

/// The rows of a preview: the lines between the two markers, or nothing.
pub open spec fn preview_rows(lines: Seq<Seq<char>>) -> Seq<Seq<char>> {
    if lines.len() == 0 {
        Seq::empty()
    } else {
        seq![start_marker()] + lines + seq![end_marker()]
    }
}

/// The text of the sidecar file: three rows that say what the file is and
/// how to include it, an empty row, and the lines.
pub open spec fn sidecar_text(lines: Seq<Seq<char>>) -> Seq<char> {
    SIDECAR_HEADER@ + join(lines, "\n"@) + "\n"@
}

/// What is done about the configuration file, whose text is `existing` if
/// the file is there.
pub open spec fn config_update(c: ConfigView, existing: Option<Seq<char>>) -> UpdateView {
    let lines = exec_once_lines(c);
    if c.dry_run {
        UpdateView::Preview { rows: preview_rows(lines) }
    } else if lines.len() == 0 {
        UpdateView::Nothing
    } else {
        match existing {
            None => UpdateView::CreateSidecar { content: sidecar_text(lines) },
            Some(content) => UpdateView::Rewrite { content: patched(content, lines) },
        }
    }
}

/// Whether the update writes a file.
pub open spec fn writes(update: UpdateView) -> bool {
    update is CreateSidecar || update is Rewrite
}

/// The text of the sidecar file for `lines`.
pub fn render_sidecar(lines: &Vec<String>) -> (content: String)
    ensures
        content@ == sidecar_text(texts(lines@)),
{
    let body = join_strings(lines, "\n");
    let mut content = glue(SIDECAR_HEADER, body.as_str());
    content.append("\n");
    content
}

/// The rows that a dry run shows for `lines`.
pub fn render_preview(lines: &Vec<String>) -> (rows: Vec<String>)
    ensures
        texts(rows@) == preview_rows(texts(lines@)),
{
    let mut rows: Vec<String> = Vec::new();
    if lines.len() > 0 {
        push_line(&mut rows, MARKER_START);
        push_lines(&mut rows, lines);
        push_line(&mut rows, MARKER_END);
    }
    assert(texts(rows@) =~= preview_rows(texts(lines@)));
    rows
}

/// Decides what becomes of the configuration file: see [`config_update`].
///
/// `existing` is the text of the file, or `None` where there is no file. A
/// dry run writes nothing, and without a file the file is not created:
/// the block goes to the sidecar.
pub fn plan_config_update(config: &InstallConfig, existing: Option<&str>) -> (update: ConfigUpdate)
    ensures
        update@ == config_update(
            config@,
            match existing {
                Some(content) => Some(content@),
                None => None,
            },
        ),
        config.dry_run ==> !writes(update@),
        existing.is_none() ==> !(update@ is Rewrite),
{
    let lines = generate_exec_once_statements(config);
    if config.dry_run {
        ConfigUpdate::Preview { rows: render_preview(&lines) }
    } else if lines.len() == 0 {
        ConfigUpdate::Nothing
    } else {
        match existing {
            None => ConfigUpdate::CreateSidecar { content: render_sidecar(&lines) },
            Some(content) => {
                let block = render_block(&lines);
                ConfigUpdate::Rewrite { content: place_block(content, block.as_str()) }
            },
        }
    }
}

impl ConfigUpdate {
    /// Whether a copy of the existing file is to be made before the write.
    /// A failed copy is reported and does not stop the write.
    pub fn backs_up_first(&self) -> (yes: bool)
        ensures
            yes == (self@ is Rewrite),
    {
        match self {
            ConfigUpdate::Rewrite { .. } => true,
            _ => false,
        }
    }

    /// What goes back to the unprivileged user after a successful write by
    /// `root`: the sidecar alone, or the whole directory of the patched file.
    pub fn handover(&self) -> (scope: Option<Handover>)
        ensures
            scope == match self@ {
                UpdateView::CreateSidecar { .. } => Some(Handover::File),
                UpdateView::Rewrite { .. } => Some(Handover::DirectoryTree),
                _ => None::<Handover>,
            },
    {
        match self {
            ConfigUpdate::CreateSidecar { .. } => Some(Handover::File),
            ConfigUpdate::Rewrite { .. } => Some(Handover::DirectoryTree),
            _ => None,
        }
    }
}

/// The generated lines hold no end marker, so the block for a configuration
/// is never refused for its own content.
pub proof fn lemma_generated_block_is_accepted(c: ConfigView)
    ensures
        first_occurrence(block_body(exec_once_lines(c)), end_marker(), 0).is_none(),
        forall|content: Seq<char>|
            #[trigger] spliced(content, exec_once_lines(c)) != Err::<Seq<char>, PatchError>(
                PatchError::MarkerInBlock,
            ),
{
    lemma_generated_lines_without_rule(c);
    lemma_rows_without_rule(exec_once_lines(c));
    lemma_no_rule_no_marker(block_body(exec_once_lines(c)));
}

/// Updating is idempotent: a file that was rewritten for a configuration is
/// rewritten to the very same text when it is updated again for the same
/// configuration. The block and all that surrounds it stay as they are.
pub proof fn lemma_update_twice(c: ConfigView, content: Seq<char>)
    ensures
        config_update(c, Some(content)) matches UpdateView::Rewrite { content: once }
            ==> config_update(c, Some(once)) == (UpdateView::Rewrite { content: once }),
{
    lemma_generated_block_is_accepted(c);
    lemma_splice_twice(content, exec_once_lines(c));
}

/// A dry run writes nothing, whatever the file holds.
pub proof fn lemma_dry_run_writes_nothing(c: ConfigView, existing: Option<Seq<char>>)
    requires
        c.dry_run,
    ensures
        !writes(config_update(c, existing)),
{
}

} // verus!
