//! An event-sourced execution engine for a student's learning progress.
//!
//! Commands are decided against state reconstructed by folding the ordered
//! event history; accepted commands produce a batch of events, rejected ones
//! produce a typed error and no events.

pub mod types;
pub mod lesson;
pub mod commands;
pub mod events;
pub mod harness;
pub mod services;
pub mod student;
