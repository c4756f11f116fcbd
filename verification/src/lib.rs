//! Verified core of a terminal tool that keeps scattered configuration files
//! in one place by creating symbolic links from a single configuration table.

pub mod text;
pub mod entry;
pub mod table;
pub mod config;
pub mod key;
pub mod app;
pub mod ui;
pub mod pages;
