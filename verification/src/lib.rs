//! Verified core of a lightweight manager for the Logitech G502 LIGHTSPEED mouse.
pub mod text;
pub mod hidpp;
pub mod named_map;
pub mod config;
pub mod device;
pub mod key_table;
pub mod key_facts;
pub mod macro_keys;
pub mod macro_engine;
pub mod controller;
pub mod menu;
pub mod color_picker;
pub mod cli;
pub mod panel;
pub mod probe;
pub mod features;
pub use features::led;
