//! The flight state machine: armed or not, feathering down or not, and the
//! base throttle that the motor mixer starts from.

use vstd::prelude::*;

use crate::command_generator::Command;
use crate::constants::{MOTOR_FEATHER, MOTOR_MAX, MOTOR_MIN};

verus! {

#[derive(Clone, Copy, Debug, PartialEq, Eq, Structural)]
pub enum DroneState {
    /// Disarmed: the motors are held at `MOTOR_MIN`.
    Standby,
    /// Armed: the rate controllers fly the drone around the base throttle.
    On,
    /// Failsafe descent at `MOTOR_FEATHER`.
    Feather,
}

/// The state machine's state as a plain value.
pub struct FlightView {
    pub state: DroneState,
    pub throttle: u16,
}

/// The base throttle always matches a disarmed or feathering state.
pub open spec fn consistent(v: FlightView) -> bool {
    &&& v.state == DroneState::Standby ==> v.throttle == MOTOR_MIN
    &&& v.state == DroneState::Feather ==> v.throttle == MOTOR_FEATHER
}

/// The state after a command.
pub open spec fn after_command(v: FlightView, command: Command) -> FlightView {
    match command {
        Command::Throttle(t) => if v.state == DroneState::On {
            FlightView { state: DroneState::On, throttle: t }
        } else {
            v
        },
        Command::Start => if v.state == DroneState::Standby || v.state == DroneState::Feather {
            FlightView { state: DroneState::On, throttle: v.throttle }
        } else {
            v
        },
        Command::Stop => FlightView { state: DroneState::Standby, throttle: MOTOR_MIN },
        Command::Feather => if v.state == DroneState::On || v.state == DroneState::Standby {
            FlightView { state: DroneState::Feather, throttle: MOTOR_FEATHER }
        } else {
            v
        },
    }
}

/// The state after the link has been silent long enough to feather down.
pub open spec fn after_feather_timeout(v: FlightView) -> FlightView {
    if v.state != DroneState::Standby && v.state != DroneState::Feather {
        FlightView { state: DroneState::Feather, throttle: MOTOR_FEATHER }
    } else {
        v
    }
}

/// The state after the link has been silent long enough to disarm.
pub open spec fn after_standby_timeout(v: FlightView) -> FlightView {
    if v.state != DroneState::Standby {
        FlightView { state: DroneState::Standby, throttle: MOTOR_MIN }
    } else {
        v
    }
}

/// PWM duties of the four motors.
#[derive(Clone, Copy, Debug, PartialEq, Eq, Structural)]
pub struct MotorDuties {
    pub front_right: u16,
    pub bottom_right: u16,
    pub bottom_left: u16,
    pub front_left: u16,
}

/// What a control step does with the motors.
#[derive(Clone, Copy, Debug, PartialEq, Eq, Structural)]
pub enum MotorDemand {
    /// Set these duties; the rate controllers do not run.
    Hold(MotorDuties),
    /// Run the rate controllers and mix their outputs around `throttle`,
    /// each motor kept within `min..=max`.
    Mix { throttle: u16, min: u16, max: u16 },
}

/// The flight state machine.
pub struct FlightController {
    throttle: u16,
    state: DroneState,
}

impl View for FlightController {
    type V = FlightView;

    closed spec fn view(&self) -> FlightView {
        FlightView { state: self.state, throttle: self.throttle }
    }
}

impl FlightController {
    #[verifier::type_invariant]
    closed spec fn inv(self) -> bool {
        consistent(self@)
    }

    /// A disarmed controller at minimum throttle.
    pub fn new() -> (controller: Self)
        ensures
            controller@ == (FlightView { state: DroneState::Standby, throttle: MOTOR_MIN }),
            consistent(controller@),
    {
        FlightController { throttle: MOTOR_MIN, state: DroneState::Standby }
    }

    /// Applies a command: a throttle while armed, arming from standby or
    /// feathering, disarming from anywhere, feathering when armed or in standby.
    pub fn iterate_state(&mut self, command: Command)
        ensures
            final(self)@ == after_command(old(self)@, command),
            consistent(final(self)@),
    {
        proof {
            use_type_invariant(&*self);
        }
        match command {
            Command::Throttle(throttle) => {
                if self.state == DroneState::On {
                    *self = FlightController { throttle, state: DroneState::On };
                }
            },
            Command::Start => {
                if self.state == DroneState::Standby || self.state == DroneState::Feather {
                    *self = FlightController { throttle: self.throttle, state: DroneState::On };
                }
            },
            Command::Stop => {
                *self = FlightController { throttle: MOTOR_MIN, state: DroneState::Standby };
            },
            Command::Feather => {
                if self.state == DroneState::On || self.state == DroneState::Standby {
                    *self = FlightController { throttle: MOTOR_FEATHER, state: DroneState::Feather };
                }
            },
        }
    }

    /// The link timed out: an armed drone starts feathering down.
    pub fn set_feather(&mut self)
        ensures
            final(self)@ == after_feather_timeout(old(self)@),
            consistent(final(self)@),
    {
        proof {
            use_type_invariant(&*self);
        }
        if self.state != DroneState::Standby && self.state != DroneState::Feather {
            *self = FlightController { throttle: MOTOR_FEATHER, state: DroneState::Feather };
        }
    }

    /// The link timed out for good: the drone disarms.
    pub fn set_standby(&mut self)
        ensures
            final(self)@ == after_standby_timeout(old(self)@),
            consistent(final(self)@),
    {
        proof {
            use_type_invariant(&*self);
        }
        if self.state != DroneState::Standby {
            *self = FlightController { throttle: MOTOR_MIN, state: DroneState::Standby };
        }
    }

    pub fn get_state(&self) -> (state: DroneState)
        ensures
            state == self@.state,
    {
        self.state
    }

    pub fn get_throttle(&self) -> (throttle: u16)
        ensures
            throttle == self@.throttle,
            consistent(self@),
    {
        proof {
            use_type_invariant(self);
        }
        self.throttle
    }

    /// What one control step does with the motors. Disarmed: hold all four
    /// motors at `MOTOR_MIN` and leave the rate controllers untouched.
    /// Otherwise: mix the rate controllers' outputs around the base throttle
    /// and keep each motor within `MOTOR_MIN..=MOTOR_MAX`.
    pub fn update(&self) -> (demand: MotorDemand)
        ensures
            self@.state == DroneState::Standby ==> demand == MotorDemand::Hold(MotorDuties {
                front_right: MOTOR_MIN,
                bottom_right: MOTOR_MIN,
                bottom_left: MOTOR_MIN,
                front_left: MOTOR_MIN,
            }),
            self@.state != DroneState::Standby ==> demand == (MotorDemand::Mix {
                throttle: self@.throttle,
                min: MOTOR_MIN,
                max: MOTOR_MAX,
            }),
    {
        if self.state == DroneState::Standby {
            MotorDemand::Hold(MotorDuties {
                front_right: MOTOR_MIN,
                bottom_right: MOTOR_MIN,
                bottom_left: MOTOR_MIN,
                front_left: MOTOR_MIN,
            })
        } else {
            MotorDemand::Mix { throttle: self.throttle, min: MOTOR_MIN, max: MOTOR_MAX }
        }
    }
}

/// Whatever the state, a Stop command disarms the drone at minimum throttle.
pub proof fn law_stop_always_disarms(v: FlightView)
    ensures
        after_command(v, Command::Stop) == (FlightView { state: DroneState::Standby, throttle: MOTOR_MIN }),
{
}

/// Every command and every timeout keeps the base throttle consistent with the state.
pub proof fn law_transitions_keep_consistency(v: FlightView, command: Command)
    requires
        consistent(v),
    ensures
        consistent(after_command(v, command)),
        consistent(after_feather_timeout(v)),
        consistent(after_standby_timeout(v)),
{
}

/// The timeouts, Start, Stop and Feather have the same effect applied twice as once.
pub proof fn law_idempotent(v: FlightView)
    ensures
        after_feather_timeout(after_feather_timeout(v)) == after_feather_timeout(v),
        after_standby_timeout(after_standby_timeout(v)) == after_standby_timeout(v),
        after_command(after_command(v, Command::Start), Command::Start) == after_command(v, Command::Start),
        after_command(after_command(v, Command::Stop), Command::Stop) == after_command(v, Command::Stop),
        after_command(after_command(v, Command::Feather), Command::Feather) == after_command(v, Command::Feather),
{
}

/// Arming never changes the base throttle, and a throttle command is
/// ignored unless the drone is armed.
pub proof fn law_throttle_only_when_armed(v: FlightView, t: u16)
    ensures
        after_command(v, Command::Start).throttle == v.throttle,
        v.state != DroneState::On ==> after_command(v, Command::Throttle(t)) == v,
        v.state == DroneState::On ==> after_command(v, Command::Throttle(t)).throttle == t,
{
}

/// After a feathering timeout and then a standby timeout, the drone is
/// disarmed at minimum throttle, whatever state it was in.
pub proof fn law_timeouts_end_disarmed(v: FlightView)
    ensures
        after_standby_timeout(after_feather_timeout(v)).state == DroneState::Standby,
        consistent(v) ==> after_standby_timeout(after_feather_timeout(v)).throttle == MOTOR_MIN,
{
}

/// Each command's effect, state by state:
/// - a throttle command never changes the state; while armed it sets the
///   base throttle to the commanded value, otherwise it is ignored;
/// - Start arms from standby or feathering and keeps the throttle; an armed
///   drone stays as it is;
/// - Stop disarms at `MOTOR_MIN` from any state;
/// - Feather starts feathering at `MOTOR_FEATHER` from standby or armed; a
///   feathering drone stays as it is.
pub proof fn law_command_effects(v: FlightView, t: u16)
    ensures
        after_command(v, Command::Throttle(t)).state == v.state,
        v.state == DroneState::On ==> after_command(v, Command::Throttle(t)).throttle == t,
        v.state != DroneState::On ==> after_command(v, Command::Throttle(t)).throttle == v.throttle,
        v.state != DroneState::On ==> after_command(v, Command::Start).state == DroneState::On,
        after_command(v, Command::Start).throttle == v.throttle,
        v.state == DroneState::On ==> after_command(v, Command::Start) == v,
        after_command(v, Command::Stop).state == DroneState::Standby,
        after_command(v, Command::Stop).throttle == MOTOR_MIN,
        v.state != DroneState::Feather ==> after_command(v, Command::Feather).state == DroneState::Feather,
        v.state != DroneState::Feather ==> after_command(v, Command::Feather).throttle == MOTOR_FEATHER,
        v.state == DroneState::Feather ==> after_command(v, Command::Feather) == v,
{
}

/// The timeouts: feathering takes an armed drone to feathering at
/// `MOTOR_FEATHER` and leaves a disarmed or feathering one alone; standby
/// disarms any drone that is not disarmed, at `MOTOR_MIN`, and leaves a
/// disarmed one alone.
pub proof fn law_timeout_effects(v: FlightView)
    ensures
        v.state == DroneState::On ==> after_feather_timeout(v).state == DroneState::Feather
            && after_feather_timeout(v).throttle == MOTOR_FEATHER,
        v.state != DroneState::On ==> after_feather_timeout(v) == v,
        v.state != DroneState::Standby ==> after_standby_timeout(v).state == DroneState::Standby
            && after_standby_timeout(v).throttle == MOTOR_MIN,
        v.state == DroneState::Standby ==> after_standby_timeout(v) == v,
{
}

/// The consistency rule pins the throttle in the two resting states: 2000
/// (`MOTOR_MIN`) when disarmed, 2500 (`MOTOR_FEATHER`) when feathering,
/// and leaves it free when armed.
pub proof fn law_consistent_means(v: FlightView)
    ensures
        consistent(v) <==> ((v.state == DroneState::Standby ==> v.throttle == 2000) && (v.state
            == DroneState::Feather ==> v.throttle == 2500)),
{
}

} // verus!
