//! The v2 artifact envelope, the claim catalog and the evidence store.

pub mod catalog;
pub mod claim;
pub mod envelope;
pub mod store;

pub use catalog::{all_claims, claim_definition, ClaimDefinition};


pub use envelope::{Artifact, Bounds, Claim, DataQuality, DataQualityLevel, Decision, EvidenceRefusalCode, Factors, Kind, Metric, Status, ARTIFACT_SCHEMA_V2};

