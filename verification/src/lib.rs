//! Verified core of the anaden automation toolkit: the pipeline loop's
//! decisions, routines of pipelines, the strategy catalog, the studio's log,
//! history, connection and authoring state.
#![allow(unused_imports)]

pub mod text;
pub mod paths;
pub mod driver;
pub mod routine;
pub mod routine_runner;
pub mod recovery;
pub mod catalog;
pub mod log_status;
pub mod log_buffer;
pub mod history;
pub mod history_ui;
pub mod connection;
pub mod studio_task;
pub mod authoring;
pub mod authoring_panel;
pub mod childproc;
pub mod cli;
pub mod batch;
pub mod pipeline_step;
pub mod state_machine;
pub mod orchestrator;
pub mod diagnostics;
pub mod authoring_view;
pub mod registry;
