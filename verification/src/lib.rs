//! A verified core for a commit-drafting command-line assistant: a
//! command-line lexer, parser, colorizer and execution planner, together
//! with the pure helpers the surrounding tool is built from.

pub mod config;
pub mod executor;
pub mod git_cmds;
pub mod gitmoji;
pub mod parser;
pub mod prompts;
pub mod render;
pub mod report;
pub mod spinner;
pub mod suggest;
pub mod text;
