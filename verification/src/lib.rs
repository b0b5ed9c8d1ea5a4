//! Verified core of the idps-fw functional test tool: the test-case catalog,
//! the packet builders and their checksums, the judgement of observed
//! outcomes, and the text that is handed to the devices.

pub mod text;
pub mod packet;
pub mod catalog;
pub mod net;
pub mod json;
pub mod exec;
pub mod peer;
pub mod agent_cli;
pub mod traffic;
pub mod adb;
pub mod clock;
pub mod config;
pub mod target;
pub mod verify;
pub mod case_run;
pub mod monitor;
pub mod vsoc;
pub mod provision;
pub mod events;
pub mod settings;
pub mod environment;
pub mod fastprofile;
pub mod depot;
pub mod report;
pub mod preflight;
