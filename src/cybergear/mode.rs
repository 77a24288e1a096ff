use vstd::prelude::*;

verus! {

/// Operating mode reported by an actuator.
#[derive(Debug, Clone, Copy, PartialEq, Eq, Structural)]
pub enum MotorModeFeedback {
    Reset,
    Calibration,
    Motor,
}

impl MotorModeFeedback {
    /// The mode named by a mode field value; unknown values read as `Reset`.
    pub open spec fn from_field_spec(field: u32) -> MotorModeFeedback {
        if field == 1 {
            MotorModeFeedback::Calibration
        } else if field == 2 {
            MotorModeFeedback::Motor
        } else {
            MotorModeFeedback::Reset
        }
    }

    pub fn from_field(field: u32) -> (r: MotorModeFeedback)
        ensures
            r == Self::from_field_spec(field),
    {
        match field {
            1 => MotorModeFeedback::Calibration,
            2 => MotorModeFeedback::Motor,
            _ => MotorModeFeedback::Reset,
        }
    }
}

impl Default for MotorModeFeedback {
    fn default() -> (r: MotorModeFeedback)
        ensures
            r == MotorModeFeedback::Reset,
    {
        MotorModeFeedback::Reset
    }
}

} // verus!
