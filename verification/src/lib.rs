//! Cascade Agent core library: plans and their state machine, tool results,
//! token budgeting and the decisions of the agent loop.

pub mod agent;
pub mod error;
pub mod json;
pub mod knowledge;
pub mod memory;
pub mod orchestrator;
pub mod planning;
pub mod text;
pub mod time;
pub mod tools;
