//! Builds a bootable disk image from container images and a kernel.
//!
//! The library decides what a build does and in which order; it touches
//! neither the file system nor any process. A driver asks a [`run::Build`]
//! for its next request, carries it out and reports what came of it.

pub mod bootcfg;
pub mod command;
pub mod config;
pub mod error;
pub mod image;
pub mod laws;
pub mod layout;
pub mod model;
pub mod plan;
pub mod run;
pub mod text;
