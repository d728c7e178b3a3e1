//! Verified decision logic of the SealTask command-line client and agent
//! runner: input validation, retry scheduling, checkpoint state, batch
//! outcome accounting and output sanitization.

pub mod activity;
pub mod agent;
pub mod agent_commands;
pub mod agents;
pub mod attachment;
pub mod auth;
pub mod batch;
pub mod checkpoint;
pub mod claim;
pub mod codec;
pub mod document;
pub mod error;
pub mod text;
pub mod harness;
pub mod operation;
pub mod process;
pub mod resolution;
pub mod run;
pub mod input;
pub mod login;
pub mod schedule;
pub mod service;
