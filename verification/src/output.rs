//! Output formats and the result a command hands over for printing.
use vstd::prelude::*;

use crate::models::{PaneContent, PanesOutput, SessionsOutput, TabsOutput};

verus! {

/// How results are printed: compact JSON, a human table, or nothing.
#[derive(Debug, Clone, Copy, PartialEq, Eq, Structural)]
pub enum OutputFormat {
    Json,
    Table,
    Quiet,
}

/// What a command produced, to be printed in the chosen format.
#[derive(Debug)]
pub enum Emission {
    Sessions(SessionsOutput),
    Tabs(TabsOutput),
    Panes(PanesOutput),
    Content(PaneContent),
    /// A mutation that ran: printed as `{"ok":true}`.
    Done,
    /// A mutation that did not run: the full zellij command line it would
    /// have run, printed as `{"dry_run":true,"command":[...]}`.
    DryRun(Vec<String>),
    /// A pane was opened: `{"pane_id":...}`.
    OpenedPane(String),
    /// A tab was opened: `{"tab_id":...}`.
    OpenedTab(u32),
}

/// `--quiet` overrides `--format`.
pub fn effective_format(quiet: bool, format: OutputFormat) -> (f: OutputFormat)
    ensures
        f == (if quiet { OutputFormat::Quiet } else { format }),
{
    if quiet {
        OutputFormat::Quiet
    } else {
        format
    }
}

} // verus!
