//! Loudness-curve analysis core: bounded log store, task registry and pool
//! decisions, console command parsing, window planning for the sample
//! stream, comparison-slot pairing and the interface text tables.

pub mod logger;
pub mod tasks;
pub mod command;
pub mod decode;
pub mod lang;
pub mod slots;
pub mod export;
pub mod energy;
