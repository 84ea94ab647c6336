//! The drive motors' bridge: which output gets what, and how its failures are reported.

use vstd::prelude::*;

verus! {

/// What a motor driver was doing when it failed.
#[derive(Clone, Copy, Debug, PartialEq, Eq, Structural)]
pub enum MotorDriverOperation {
    LeftForwardPwm,
    LeftReversePwm,
    RightForwardPwm,
    RightReversePwm,
    Wake,
    Sleep,
}

/// What failed.
#[derive(Debug, PartialEq, Eq)]
pub enum MotorDriverErrorSource<PwmError, SleepError> {
    Pwm(PwmError),
    Sleep(SleepError),
}

/// A motor driver's failure.
#[derive(Debug, PartialEq, Eq)]
pub struct MotorDriverError<PwmError, SleepError> {
    pub operation: MotorDriverOperation,
    pub source: MotorDriverErrorSource<PwmError, SleepError>,
}

impl<PwmError, SleepError> MotorDriverError<PwmError, SleepError> {
    /// A failure of a PWM output.
    pub fn pwm(operation: MotorDriverOperation, source: PwmError) -> (error: Self)
        ensures
            error == (MotorDriverError::<PwmError, SleepError> {
                operation,
                source: MotorDriverErrorSource::Pwm(source),
            }),
    {
        MotorDriverError { operation, source: MotorDriverErrorSource::Pwm(source) }
    }

    /// A failure of the sleep pin.
    pub fn sleep(operation: MotorDriverOperation, source: SleepError) -> (error: Self)
        ensures
            error == (MotorDriverError::<PwmError, SleepError> {
                operation,
                source: MotorDriverErrorSource::Sleep(source),
            }),
    {
        MotorDriverError { operation, source: MotorDriverErrorSource::Sleep(source) }
    }
}

/// A DRV8833's failure.
#[derive(Debug, PartialEq, Eq)]
pub enum DRV8833Error<DigitalError, PwmError> {
    PwmError(PwmError),
    DigitalError(DigitalError),
}

/// One of the two motors.
#[derive(Clone, Copy, Debug, PartialEq, Eq, Structural)]
pub enum Side {
    Left,
    Right,
}

/// Which way a motor is to turn.
#[derive(Clone, Copy, Debug, PartialEq, Eq, Structural)]
pub enum Direction {
    Forward,
    Reverse,
    Stopped,
}

/// What the two outputs of a motor's half-bridge are set to, and what to call each when it fails.
/// The forward output is set first.
#[derive(Clone, Copy, Debug, PartialEq, Eq, Structural)]
pub struct MotorOutputs {
    pub forward: u16,
    pub reverse: u16,
    pub forward_operation: MotorDriverOperation,
    pub reverse_operation: MotorDriverOperation,
}

/// Drives one output with `duty` and the other with nothing, or neither.
pub fn set_motor_outputs(side: Side, direction: Direction, duty: u16) -> (outputs: MotorOutputs)
    ensures
        outputs == outputs_for(side, (MotorCommand { direction, duty })),
{
    let (forward_operation, reverse_operation) = match side {
        Side::Left => (
            MotorDriverOperation::LeftForwardPwm,
            MotorDriverOperation::LeftReversePwm,
        ),
        Side::Right => (
            MotorDriverOperation::RightForwardPwm,
            MotorDriverOperation::RightReversePwm,
        ),
    };
    let (forward, reverse): (u16, u16) = match direction {
        Direction::Forward => (duty, 0),
        Direction::Reverse => (0, duty),
        Direction::Stopped => (0, 0),
    };
    MotorOutputs { forward, reverse, forward_operation, reverse_operation }
}

/// One step of changing speed.
#[derive(Clone, Copy, Debug, PartialEq, Eq, Structural)]
pub enum MotorAction {
    /// Take the bridge out of sleep.
    Wake,
    /// Put the bridge to sleep.
    Sleep,
    /// Set a motor's outputs.
    Drive(MotorOutputs),
}

/// A motor's command: which way, and with what duty.
#[derive(Clone, Copy, Debug, PartialEq, Eq, Structural)]
pub struct MotorCommand {
    pub direction: Direction,
    pub duty: u16,
}

/// The outputs of a motor for a command.
pub open spec fn outputs_for(side: Side, command: MotorCommand) -> MotorOutputs {
    MotorOutputs {
        forward: if command.direction is Forward {
            command.duty
        } else {
            0
        },
        reverse: if command.direction is Reverse {
            command.duty
        } else {
            0
        },
        forward_operation: match side {
            Side::Left => MotorDriverOperation::LeftForwardPwm,
            Side::Right => MotorDriverOperation::RightForwardPwm,
        },
        reverse_operation: match side {
            Side::Left => MotorDriverOperation::LeftReversePwm,
            Side::Right => MotorDriverOperation::RightReversePwm,
        },
    }
}

/// Stopping: both motors off, and only then the bridge to sleep.
pub open spec fn stop_plan() -> Seq<MotorAction> {
    let off = MotorCommand { direction: Direction::Stopped, duty: 0 };
    seq![
        MotorAction::Drive(outputs_for(Side::Left, off)),
        MotorAction::Drive(outputs_for(Side::Right, off)),
        MotorAction::Sleep,
    ]
}

/// Driving: the bridge awake first, then the left motor, then the right one.
pub open spec fn drive_plan(left: MotorCommand, right: MotorCommand) -> Seq<MotorAction> {
    seq![
        MotorAction::Wake,
        MotorAction::Drive(outputs_for(Side::Left, left)),
        MotorAction::Drive(outputs_for(Side::Right, right)),
    ]
}

/// Changing speed: driving, but two stopped motors are a stop.
pub open spec fn speed_plan(left: MotorCommand, right: MotorCommand) -> Seq<MotorAction> {
    if left.direction is Stopped && right.direction is Stopped {
        stop_plan()
    } else {
        drive_plan(left, right)
    }
}

/// What to do, in order, to stop.
pub fn stop() -> (actions: [MotorAction; 3])
    ensures
        actions@ == stop_plan(),
{
    let actions = [
        MotorAction::Drive(set_motor_outputs(Side::Left, Direction::Stopped, 0)),
        MotorAction::Drive(set_motor_outputs(Side::Right, Direction::Stopped, 0)),
        MotorAction::Sleep,
    ];
    assert(actions@ =~= stop_plan());
    actions
}

/// What to do, in order, to drive the motors with a bridge that is left awake at standstill.
pub fn drive(left: MotorCommand, right: MotorCommand) -> (actions: [MotorAction; 3])
    ensures
        actions@ == drive_plan(left, right),
{
    let actions = [
        MotorAction::Wake,
        MotorAction::Drive(set_motor_outputs(Side::Left, left.direction, left.duty)),
        MotorAction::Drive(set_motor_outputs(Side::Right, right.direction, right.duty)),
    ];
    assert(actions@ =~= drive_plan(left, right));
    actions
}

/// What to do, in order, to bring the motors to a speed.
pub fn set_speed(left: MotorCommand, right: MotorCommand) -> (actions: [MotorAction; 3])
    ensures
        actions@ == speed_plan(left, right),
{
    match (left.direction, right.direction) {
        (Direction::Stopped, Direction::Stopped) => stop(),
        _ => drive(left, right),
    }
}

/// A motor is never driven both ways at once, and the bridge only goes to sleep with every output
/// off.
pub proof fn bridge_is_driven_safely(left: MotorCommand, right: MotorCommand, i: int)
    requires
        0 <= i < 3,
    ensures
        speed_plan(left, right).len() == 3,
        speed_plan(left, right)[i] matches MotorAction::Drive(outputs) ==> outputs.forward == 0
            || outputs.reverse == 0,
        speed_plan(left, right)[i] is Sleep ==> i == 2 && forall|k: int|
            0 <= k < 2 ==> (#[trigger] speed_plan(left, right)[k] matches MotorAction::Drive(
                outputs,
            ) && outputs.forward == 0 && outputs.reverse == 0),
        speed_plan(left, right)[i] matches MotorAction::Drive(outputs) && (outputs.forward != 0
            || outputs.reverse != 0) ==> speed_plan(left, right)[0] is Wake,
{
}

/// Each motor gets its own duty on the output of its own direction and nothing on the other, and a
/// stopped one nothing at all; a failing output is named after its motor and direction.
pub proof fn duty_goes_to_the_commanded_output(command: MotorCommand)
    ensures
        forall|side: Side|
            {
                let outputs = #[trigger] outputs_for(side, command);
                &&& command.direction is Forward ==> outputs.forward == command.duty
                    && outputs.reverse == 0
                &&& command.direction is Reverse ==> outputs.forward == 0 && outputs.reverse
                    == command.duty
                &&& command.direction is Stopped ==> outputs.forward == 0 && outputs.reverse == 0
                &&& side is Left <==> outputs.forward_operation is LeftForwardPwm
                &&& side is Left <==> outputs.reverse_operation is LeftReversePwm
                &&& side is Right <==> outputs.forward_operation is RightForwardPwm
                &&& side is Right <==> outputs.reverse_operation is RightReversePwm
            },
{
}

/// As long as one motor is to turn, the bridge is woken and both motors get their own commands, the
/// left one first. With both stopped, both are switched off and the bridge goes to sleep, unless it
/// is to be left awake.
pub proof fn both_motors_get_their_commands(left: MotorCommand, right: MotorCommand)
    ensures
        !(left.direction is Stopped && right.direction is Stopped) ==> speed_plan(left, right)
            == drive_plan(left, right),
        left.direction is Stopped && right.direction is Stopped ==> speed_plan(left, right)
            == stop_plan(),
        drive_plan(left, right).len() == 3,
        drive_plan(left, right)[0] is Wake,
        drive_plan(left, right)[1] == MotorAction::Drive(outputs_for(Side::Left, left)),
        drive_plan(left, right)[2] == MotorAction::Drive(outputs_for(Side::Right, right)),
        stop_plan().len() == 3,
        stop_plan()[0] matches MotorAction::Drive(outputs) && outputs.forward == 0
            && outputs.reverse == 0 && outputs.forward_operation is LeftForwardPwm,
        stop_plan()[1] matches MotorAction::Drive(outputs) && outputs.forward == 0
            && outputs.reverse == 0 && outputs.forward_operation is RightForwardPwm,
        stop_plan()[2] is Sleep,
{
}

} // verus!
