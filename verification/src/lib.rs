//! Provisioning and supervision of a Minecraft server: carrying out the
//! installation plan of a build, finding out which build is installed,
//! installing a modpack, and telling whether a detached server is alive.
//!
//! The library itself neither touches a file nor talks to a network. What
//! needs such work is written as a machine that names one piece of work at
//! a time and takes its outcome before it names the next: an `Executor` for
//! an installation plan, an `Installer` for a modpack and an `Identifier`
//! for what is installed. The program around the library does the work and
//! reports back. The one thing the library looks at on its own is the
//! process table of the machine, for `detached::status`.

pub mod catalog;
pub mod commands;
pub mod detached;
pub mod identify;
pub mod installer;
pub mod modpack;
pub mod outcome;
pub mod plan;
pub mod progress;
pub mod text;
