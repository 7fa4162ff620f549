//! Configuration resolution for a Node.js version manager: settings from
//! flags, environment and defaults, and the on-disk directory layout.

pub mod text;
pub mod options;
mod outside;
pub mod config;
pub mod directories;
