//! The records read from zellij and the records this program reports.
use vstd::prelude::*;

verus! {

/// One pane as `zellij action list-panes --json` describes it.
#[derive(Debug)]
pub struct ZellijPaneInfo {
    pub id: u32,
    pub is_plugin: bool,
    pub is_selectable: bool,
    pub title: String,
    pub pane_command: Option<String>,
    pub pane_cwd: Option<String>,
    pub is_focused: bool,
    pub is_floating: bool,
    pub is_suppressed: bool,
    pub tab_id: u32,
    pub tab_position: u32,
    pub tab_name: String,
}

/// The focused tab as `zellij action current-tab-info --json` describes it.
#[derive(Debug)]
pub struct ZellijTabInfo {
    pub position: u32,
    pub name: String,
    pub active: bool,
    pub tab_id: u32,
}

#[derive(Debug)]
pub struct SessionsOutput {
    pub sessions: Vec<Session>,
}

#[derive(Debug)]
pub struct Session {
    pub name: String,
}

#[derive(Debug)]
pub struct TabsOutput {
    pub tabs: Vec<Tab>,
}

#[derive(Debug)]
pub struct Tab {
    pub index: u32,
    pub name: String,
    pub active: bool,
    pub tab_id: u32,
}

#[derive(Debug)]
pub struct PanesOutput {
    pub panes: Vec<Pane>,
}

#[derive(Debug)]
pub struct Pane {
    pub id: String,
    pub command: Option<String>,
    pub cwd: Option<String>,
    pub title: Option<String>,
    pub focused: bool,
    pub floating: bool,
    pub tab_id: u32,
    pub tab_name: String,
}

#[derive(Debug)]
pub struct PaneContent {
    pub pane_id: String,
    pub content: String,
}

} // verus!
