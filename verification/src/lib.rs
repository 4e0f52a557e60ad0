//! Verified core of an in-process practice overlay: the decisions the overlay
//! takes each frame, the pointer-chain access layer over host memory, the
//! configuration and item-catalogue interpreters and the bookkeeping around
//! hooks, injection and packaging. Drawing, window messages and raw memory
//! access are left to the embedding program, which hands plain values in and
//! carries the resulting actions out.

pub mod bitflag;
pub mod bootstrap;
pub mod catalogue;
pub mod chains;
pub mod config;
pub mod document;
pub mod flags;
pub mod frame_log;
pub mod hook;
pub mod hotkey;
pub mod indicators;
pub mod inject;
pub mod item_spawn;
pub mod item_tree;
pub mod memory;
pub mod packager;
pub mod pointer_chain;
pub mod practice_tool;
pub mod radial;
pub mod stats;
pub mod text;
pub mod ui_mode;
pub mod widgets;
