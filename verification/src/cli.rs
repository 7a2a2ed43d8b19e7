//! The command surface: global options, resources and their verbs.
use vstd::prelude::*;

use crate::output::OutputFormat;

verus! {

/// Global options and the resource to act on.
pub struct Cli {
    pub format: OutputFormat,
    pub dry_run: bool,
    pub quiet: bool,
    pub session: Option<String>,
    pub no_guard: bool,
    pub resource: Resource,
}

#[allow(inconsistent_fields)]
pub enum Resource {
    Sessions { verb: SessionsVerb },
    Tabs { verb: TabsVerb },
    Panes { verb: PanesVerb },
}

pub enum SessionsVerb {
    List,
}

pub enum TabsVerb {
    List,
    Focus { tab: String },
    Open { name: Option<String>, layout: Option<String>, command: Vec<String> },
}

pub enum PanesVerb {
    List { tab: Option<String> },
    Read { pane: String, full: bool, ansi: bool },
    Write { pane: String, text: String },
    SendKeys { pane: String, keys: Vec<String> },
    Focus { pane: String },
    Open {
        direction: Option<String>,
        floating: bool,
        name: Option<String>,
        cwd: Option<String>,
        tab_id: Option<u32>,
        command: Vec<String>,
    },
}

} // verus!
