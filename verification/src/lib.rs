//! Application bundle assembly: the rules that lay out a built application and
//! its vendored runtime framework as an operating-system bundle.
//!
//! The library plans and the caller carries out. [`assemble`] gives the whole
//! run as a list of actions: the builds of the binaries, then the steps on the
//! file tree that make the bundle. [`next_action`] tells, after each action,
//! what the run does next. Nothing here touches the disk or starts a process.
//!
//! What a plan leaves on disk is stated over a model of the file tree
//! ([`tree`]), and proved there: a new bundle holds nothing of an old one, the
//! runtime framework is placed once, each helper kind gets one bundle of its
//! own ([`guarantees`]), and copying a directory file by file leaves a mirror
//! of it, however often it is done ([`mirror`]).

pub mod assembly;
pub mod builder;
pub mod bundle;
pub mod config;
pub mod copy;
pub mod descriptor;
pub mod error;
pub mod guarantees;
pub mod helper;
pub mod manifest;
pub mod mirror;
pub mod path;
pub mod step;
pub mod text;
pub mod tree;

pub use assembly::{assemble, next_action};
pub use builder::build_bin;
pub use bundle::bundle;
pub use copy::copy_directory;
