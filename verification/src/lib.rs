//! Verified core of the WraithRun host-triage engine.
mod text_support;
pub mod text;
pub mod time;
pub mod json;
pub mod model;
pub mod confidence;
pub mod derive;
pub mod report;
pub mod summary;
pub mod templates;
pub mod agent;
pub mod sandbox;
pub mod tools;
pub mod records;
pub mod observe;
pub mod json_text;
pub mod digest;
pub mod server;
pub mod catalog;
pub mod tool_query;
pub mod doctor;
pub mod cli;
pub mod run_report;
pub mod plugin;
pub mod config;
pub mod react;
pub mod pack_doctor;
pub mod modes;
pub mod doctor_run;
pub mod bundle;
pub mod baseline;
pub mod output_formats;
pub mod profiles;
pub mod adapter;
pub mod task_input;
