//! Decision logic of a batch downloader for media playlists, with
//! machine-checked contracts.
//!
//! The crate starts no process, reads no file and never waits. Its owner
//! reports what happened and carries out what the crate answers.
//!
//! - `retry`: whether a failed attempt is followed by another one.
//! - `status`: the status of a job, the steps between statuses, and the
//!   table of statuses.
//! - `progress`: progress figures from the text that the tool prints.
//! - `runner`: the lifecycle of one job.
//! - `orchestrator`: the batch, its slots and its controls.
//! - `command`: the command line of the tool.
//! - `playlist`, `naming`, `selection`, `settings`, `resolve`: what is
//!   fetched, where to, and with which settings.
//! - `tui`, `screens`, `wizard`, `downloads`: the decisions of the front
//!   ends.
//! - `text`, `ordered`, `classic`: helpers.
//! - `outside`: what is taken on trust from other crates.

pub mod classic;
pub mod command;
pub mod downloads;
pub mod items;
pub mod naming;
pub mod orchestrator;
pub mod ordered;
pub mod outside;
pub mod playlist;
pub mod progress;
pub mod resolve;
pub mod retry;
pub mod runner;
pub mod screens;
pub mod selection;
pub mod settings;
pub mod status;
pub mod text;
pub mod tui;
pub mod wizard;
