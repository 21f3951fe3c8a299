//! Bare Git repositories on remote hosts, created over SSH from host profiles
//! that a local configuration file keeps.
//!
//! This crate holds what is decided on the way: which parameters apply
//! ([`init::resolver`]), which command the remote shell is given and why it reads
//! it as meant ([`init::builder`], [`shell`]), how the SSH client is called
//! ([`init::executor`]), and what its outcome means ([`init::interpreter`]);
//! beside that the profile store ([`config`]) and the questions of the
//! configuration wizard ([`wizard`]). Reading files, asking the user and running
//! the SSH client are left to the program around it.

pub mod cli;
pub mod config;
pub mod init;
pub mod shell;
pub mod text;
pub mod wizard;
