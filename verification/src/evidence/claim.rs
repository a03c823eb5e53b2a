//! Claim identifiers.

use vstd::prelude::*;

verus! {

pub const TARGET_SELECTION_PI4_SUFFICIENT: &'static str = "target.selection.pi4_sufficient";
pub const PRODUCTION_READY: &'static str = "target.selection.production_ready";
pub const SELECTION_READY: &'static str = "target.selection.selection_ready";
pub const COUPLING_MEMORY_TO_STORAGE: &'static str = "coupling.memory_to_storage";
pub const THERMAL_SUSTAINED_SOAK: &'static str = "thermal.sustained_soak";
pub const STORAGE_DEFAULT_WRITES_BOUNDED: &'static str = "storage.default_writes_bounded";
pub const NETWORK_BOUNDED_TRANSFER: &'static str = "network.bounded_transfer";
pub const REAL_TIME_PRESSURE_SAFE: &'static str = "latency.real_time_pressure_safe";
pub const OBSERVER_CADENCE_BOUNDED: &'static str = "observer.cadence_bounded";
pub const BATTERY_SAFE: &'static str = "power.battery_safe";
pub const RUN_TARGET_INVENTORY_COLLECTED: &'static str = "run.target_inventory_collected";
pub const RUN_TOOLCHAIN_INVENTORY_COLLECTED: &'static str = "run.toolchain_inventory_collected";
pub const RUN_TOOL_QUALIFICATION_SUMMARY_GENERATED: &'static str =
    "run.tool_qualification_summary_generated";
pub const RUN_PASSIVE_OBSERVATION_COLLECTED: &'static str = "run.passive_observation_collected";
pub const RUN_BOUNDED_LOAD_COMPLETED: &'static str = "run.bounded_load_completed";
pub const RUN_EXPERIMENT_BOUNDED_MATRIX_EXECUTED: &'static str =
    "run.experiment_bounded_matrix_executed";
pub const OPERATING_POINT_BOUNDED_WORKLOAD_MEASURED: &'static str =
    "operating_point.bounded_workload_measured";
pub const OPERATING_POINT_FIXED_CPU_FREQUENCY_VERIFIED: &'static str =
    "operating_point.fixed_cpu_frequency_verified";
pub const OPERATING_POINT_ALL_POINTS_MEASURED: &'static str = "operating_point.all_points_measured";

} // verus!
