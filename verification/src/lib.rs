use vstd::prelude::*;

pub mod activity;
pub mod args;
pub mod command;
pub mod display;
pub mod git;
pub mod github;
pub mod handle;
pub mod hints;
pub mod keys;
pub mod laws;
pub mod loading;
pub mod orgs;
pub mod panel;
pub mod screens;
pub mod sort;
pub mod state;
pub mod text;
pub mod types;
pub mod views;

verus! {
} // verus!
