//! Programmatic control of Zellij sessions, tabs and panes: reference
//! resolution, the self-write guard, zellij argument lists, listings and
//! structured errors, each with a verified contract.
pub mod cli;
pub mod commands;
pub mod error;
pub mod identity;
pub mod models;
pub mod output;
pub mod safety;
pub mod text;
pub mod zellij;
