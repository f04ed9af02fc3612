//! A verified command-line processing pipeline for a small
//! line-oriented shell: tokenizing a raw input line into shell-style
//! words, recognising and applying output/error redirection
//! operators, classifying the command as a builtin or an external
//! program, and executing the builtins — all against an output
//! channel abstraction that gathers what a command writes, so that a
//! redirection applies uniformly to builtins and external commands.
//! Everything that touches the world outside — reading lines, opening
//! redirection targets, probing the file system, spawning processes —
//! is left to the surrounding program, which hands plain values in
//! and carries the gathered output to its destination.

pub mod builtins;
pub mod dispatch;
pub mod external;
pub mod redirect;
pub mod search;
pub mod sink;
pub mod text;
pub mod tokens;
