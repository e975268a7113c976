//! Synchronises many git working copies from one controller: the rules that
//! resolve configuration, the decisions of the side-channel engine and of the
//! per-repository workflow, and the parsing of what git prints.
pub mod apply;
pub mod cli;
pub mod config;
pub mod discovery;
pub mod engine;
pub mod git;
pub mod message;
pub mod order;
pub mod report;
pub mod selector;
pub mod state;
pub mod text;
pub mod workflow;
