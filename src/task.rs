//! The control task's decisions for one cycle, apart from the waiting and the I/O.
use vstd::prelude::*;
use crate::system::{MotorCommand, System};

verus! {

/// What the control task does with the motors in one cycle.
#[derive(Debug, Clone, Copy, PartialEq, Eq, Structural)]
pub enum CycleAction {
    /// Command the motors with this result of a controller step.
    Drive(MotorCommand),
    /// Leave the motors as they are: the sample could not be read.
    Skip,
}

/// How the motor collaborator failed.
#[derive(Debug, Clone, Copy, PartialEq, Eq, Structural)]
pub enum MotorFault {
    /// The duty was outside what the motor driver accepts.
    InvalidDuty,
    /// Any other actuation error.
    Other,
}

/// Severity of a logged condition.
#[derive(Debug, Clone, Copy, PartialEq, Eq, Structural)]
pub enum Severity {
    Warning,
    Error,
}

/// One control cycle on the sensor's answer: a tilt sample, or `None` when the
/// read failed. A failed read skips the cycle and leaves the controller as it
/// was; a sample steps the controller once at `now` and drives with the result.
pub fn control_cycle(system: &mut System, reading: Option<i32>, now: u64) -> (r: CycleAction)
    ensures
        reading is None ==> r == CycleAction::Skip && final(system)@ == old(system)@,
        reading is Some ==> {
            let tilt = reading->Some_0 as int;
            &&& final(system)@ == old(system)@.stepped(tilt, now as int)
            &&& r is Drive
            &&& r->Drive_0.right as int == old(system)@.right_duty(tilt, now as int)
            &&& r->Drive_0.left as int == -old(system)@.right_duty(tilt, now as int)
        },
{
    match reading {
        Some(tilt) => CycleAction::Drive(system.step(tilt, now)),
        None => CycleAction::Skip,
    }
}

/// How a motor failure is logged: an invalid duty as a warning, anything else
/// as an error; neither stops the task.
pub fn motor_fault_severity(fault: MotorFault) -> (r: Severity)
    ensures
        fault == MotorFault::InvalidDuty ==> r == Severity::Warning,
        fault == MotorFault::Other ==> r == Severity::Error,
{
    match fault {
        MotorFault::InvalidDuty => Severity::Warning,
        MotorFault::Other => Severity::Error,
    }
}

} // verus!
