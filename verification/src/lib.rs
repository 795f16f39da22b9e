//! Verified core of an endpoint compliance scanning agent.

pub mod text;
pub mod numfmt;
pub mod commands;
pub mod config;
pub mod cli;
pub mod signing;
pub mod model;
pub mod criteria;
pub mod contract;
pub mod validation;
pub mod executors;
pub mod contracts;
pub mod collectors;
pub mod json;
pub mod json_record;
pub mod output;
pub mod discovery;
pub mod registry;
pub mod scan_api;
