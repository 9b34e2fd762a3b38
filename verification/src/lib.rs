//! The core of a browser for the memory map of a running process.
//!
//! The regions of a process are read once, in ascending order of their addresses.
//! [`grouping`] gathers each run of consecutive regions with one label into a group
//! and builds the matrix of groups. Two panes move through the matrix: the path
//! pane ([`path_list`]) shows one entry per group, narrowed by a fuzzy filter, and
//! the segment pane ([`segment`]) shows the members of the group whose entry is
//! chosen there. [`app`] holds the session and keeps the two panes in line,
//! [`handler`] says what each key does, and [`ui`] prepares the panes for drawing.
//!
//! Every function is verified against its contract, except the items that hand work
//! to other code: the fuzzy matcher in [`search`], the formatters in [`format`] and
//! a few items of the standard library in [`std_specs`]. Their contracts are taken on
//! trust, and each says so.

pub mod app;
pub mod format;
pub mod grouping;
pub mod handler;
pub mod path_list;
pub mod region;
pub mod search;
pub mod segment;
pub mod std_specs;
pub mod text;
pub mod ui;
pub mod widgets;
