//! Detection, scoring and threat-intelligence logic of the HispanShield
//! endpoint agent, with its behaviour stated in contracts.

pub mod beacon;
pub mod config;
pub mod detection;
pub mod file_monitor;
pub mod firewall;
pub mod hashing;
pub mod heuristic;
pub mod intel;
pub mod ipc;
pub mod jsontext;
pub mod monitor;
pub mod process_monitor;
pub mod records;
pub mod registry_monitor;
pub mod scoring;
pub mod service;
pub mod text;
pub mod winpath;
