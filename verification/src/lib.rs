//! The decision logic of a Windows health checker: the catalogue of checks,
//! which PowerShell script each scan and fix runs, and how a script's output
//! is read back into a verdict for the user.
//!
//! Running the scripts is left to the caller: a scan or a fix is a small
//! state machine that asks for a run and is handed the run's result.

pub mod text;
pub mod number;
pub mod size;
pub mod catalog;
pub mod scripts;
pub mod powershell;
pub mod scan;
pub mod fix;
pub mod registry;
pub mod history;
