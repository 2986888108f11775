//! Interactive pruning of local version-control branches, with companion
//! utilities from the same toolbox.
//!
//! The heart of the crate is the per-branch decision engine: a state machine
//! that decides, for each local branch, whether to skip it, prompt the
//! operator, delete it locally, and whether to delete its upstream branch on
//! the remote. The engine itself performs no input or output; a driver feeds
//! it the facts about a branch and the outcomes of prompts, upstream lookups
//! and pushes, and carries out the actions it emits.

pub mod engine;
pub mod fs_tools;
pub mod gh_cli_auth;
pub mod jbg_fs;
pub mod linked_list;
pub mod refname;
pub mod run;
pub mod trace;
pub mod versioner;
