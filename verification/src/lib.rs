//! Evidence-bound target operating contracts: typed artifacts, rule
//! evaluation, validation of privileged control, and claim boundaries.

pub mod digest;
pub mod ids;
pub mod text;
pub mod json;
pub mod contracts;
pub mod error;
pub mod evidence;
pub mod probe;
pub mod procfs;
pub mod run_validation;
pub mod rules;
pub mod target;
pub mod backend;
pub mod control;
pub mod run;
pub mod platform_contract;
pub mod observe;
pub mod workload;
pub mod audit;
pub mod report;
pub mod build_info;
pub mod capability_profile;
pub mod workflow_profile;
pub mod workflow;
pub mod workflow_render;
pub mod privilege;
pub mod experiment;
pub mod load;
pub mod qualification;
pub mod suitability;
