//! Verified protocol library for Lovesac StealthTech Sound + Charge systems.

pub mod text;
pub mod characteristics;
pub mod response_code;
pub mod commands;
pub mod state;
pub mod laws;
pub mod tables;
pub mod command_json;
pub mod report;
pub mod connection;
pub mod scanner;
pub mod gatt;
pub mod gatt_report;
pub mod docs;
pub mod serve;
pub mod sniff;
