//! A small C build tool's core logic: project configuration, command-line
//! parsing, compiler command construction and include scanning.

pub mod text;
pub mod deps;
pub mod paths;
pub mod config;
pub mod lua;
pub mod pch;
pub mod commands;
pub mod project;
pub mod cli;
