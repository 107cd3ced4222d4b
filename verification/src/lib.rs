//! A reconciler for the configuration of a machine.
//!
//! The desired state of a machine is written down once: its keyboard layout,
//! its users, its packages, its services and so on, one record for each
//! domain. A run loads the desired state of a domain, establishes the
//! observed state from what the system tells, computes the delta between the
//! two, and plans the actions that apply the delta.
//!
//! The library decides and plans; it does not touch the system. What it has
//! to know of the system it asks for, as a [`probe::Question`], and what is
//! to be done it hands out, as a [`function::Action`]. Every decision on the
//! way is stated over a mathematical model of the data and proved:
//!
//! - [`structure`] holds the records and their models, [`item`] their
//!   equality and copying;
//! - [`get_config`] loads the desired state, [`get_system`] reads the
//!   observed state off the findings, [`get_diff`] computes the delta, and
//!   [`function`] plans its application; [`data_types`] holds the snapshot
//!   triple of each domain and runs a pass;
//! - [`entry`] treats the lists that are checked entry by entry;
//! - [`text`] reads and writes the text in which the system speaks, and
//!   [`helper`] edits the content of files;
//! - [`args`] names the commands, [`dispatch`] decides what a command comes
//!   to and lays down the order of a run, [`version`] keeps the history of
//!   configurations, and [`disk_management`], [`chroot`] and [`setup`] plan
//!   an installation;
//! - [`laws`] states what holds of the reconciliation as a whole.

pub mod args;
pub mod chroot;
pub mod data_types;
pub mod disk_management;
pub mod dispatch;
pub mod entry;
pub mod function;
pub mod get_config;
pub mod get_diff;
pub mod get_system;
pub mod get_system_from_other;
pub mod helper;
pub mod item;
pub mod laws;
pub mod probe;
pub mod setup;
pub mod structure;
pub mod text;
pub mod version;
