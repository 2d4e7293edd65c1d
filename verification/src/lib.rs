//! The logic of a small command-line front end to the operating system's
//! service manager (systemd, launchd, the Windows service control manager
//! and the like): `install`, `remove`, `start` and `stop` a service.
//!
//! One invocation reads one command line and asks the manager for at most
//! one thing. The library decides; it neither prints nor calls the manager.
//!
//! * [`command`] reads the argument vector as a [`command::Command`].
//! * [`text`] cuts the argument line of `install` at its single spaces.
//! * [`label`] turns the service's name into the manager's label for it.
//! * [`service`] is the dispatcher: it hands out one
//!   [`service::Action`] at a time and takes the reply to each.
//! * [`error`] lists the ways in which an invocation fails, with the
//!   diagnostic and the exit status of each.

pub mod command;
pub mod error;
pub mod label;
pub mod service;
pub mod text;
