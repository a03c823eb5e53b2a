//! Rule tables evaluated over the evidence store.

pub mod engine;
pub mod operating_contract;
pub mod suitability;
pub mod run_report;
pub mod operating_point;
