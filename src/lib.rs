//! Turns a built application and its packaging manifest into a desktop
//! installer: a disk image with an arranged Finder window, or an archive tree.
//!
//! The library resolves the manifest into a package plan, lays out the
//! staging tree as a list of filesystem steps, drives the disk-image tools
//! as a step machine, and converts icons. The program around it reads the
//! files, runs the tools and carries out the steps.

pub mod args;
pub mod context;
pub mod error;
pub mod icon;
pub mod linux;
pub mod macos;
pub mod manifest;
pub mod paths;
pub mod platform;
pub mod staging;
pub mod text;
pub mod tpl;
pub mod utils;
pub mod windows;
