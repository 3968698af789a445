//! Attitude stabilisation for a two-wheeled self-balancing vehicle: a
//! fixed-point low-pass filter, a PD controller with a deadband, the
//! per-cycle decisions of the control task and the hardware builder's checks.
pub mod filter;
pub mod hw;
pub mod system;
pub mod task;

pub use filter::LowPassFilter;
pub use hw::{HardwareBuildError, HardwareBuilder, HardwareParts, MotorDrive, MotorParts};
pub use system::{MotorCommand, System, SystemState};
pub use task::{CycleAction, MotorFault, Severity};
