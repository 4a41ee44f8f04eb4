use vstd::prelude::*;
use crate::identity::DeviceIdentity;
use crate::response::PositionResponse;

verus! {

/// Microstep configuration of the stepper-motor driver, with the numeric
/// code its command-line interface expects.
#[derive(Clone, Copy, PartialEq, Eq, Structural, Debug)]
pub enum StepMode {
    Full,
    Half,
    Quarter,
    Eighth,
    Sixteenth,
    ThirtySecond,
    SixtyFourth,
    OneTwentyEighth,
    TwoFiftySixth,
}

pub open spec fn spec_step_mode_code(mode: StepMode) -> u8 {
    match mode {
        StepMode::Full => 0,
        StepMode::Half => 1,
        StepMode::Quarter => 2,
        StepMode::Eighth => 3,
        StepMode::Sixteenth => 4,
        StepMode::ThirtySecond => 5,
        StepMode::SixtyFourth => 7,
        StepMode::OneTwentyEighth => 8,
        StepMode::TwoFiftySixth => 9,
    }
}

impl StepMode {
    pub fn code(&self) -> (r: u8)
        ensures
            r == spec_step_mode_code(*self),
    {
        match self {
            StepMode::Full => 0,
            StepMode::Half => 1,
            StepMode::Quarter => 2,
            StepMode::Eighth => 3,
            StepMode::Sixteenth => 4,
            StepMode::ThirtySecond => 5,
            StepMode::SixtyFourth => 7,
            StepMode::OneTwentyEighth => 8,
            StepMode::TwoFiftySixth => 9,
        }
    }
}

/// One synchronous command of the external stepper-motor driver. The
/// controller decides which commands to issue and in what order; performing
/// them (spawning the driver process) happens at the hardware edge, and any
/// failure there is reported back as a driver fault.
#[derive(Clone, Copy, PartialEq, Eq, Structural, Debug)]
pub enum DriverCommand {
    SetCurrentLimit(u16),
    SetStepMode(StepMode),
    SaveSettings,
    LoadSettings,
    ClearDriverError,
    Energize,
    Deenergize,
    ExitSafeStart,
    EnterSafeStart,
    GoHomeForward,
    GoHomeReverse,
    SetTargetPosition(i32),
    SetTargetRelative(i32),
    SetTargetVelocity(i32),
    HaltAndSetPosition(i32),
    HaltAndHold,
    ResetCommandTimeout,
}

/// The two independent travel-limit sensors of the physical stage.
#[derive(Clone, Copy, PartialEq, Eq, Structural, Debug)]
pub enum LimitSensor {
    Top,
    Bottom,
}

/// Lifecycle of the position controller. It serves requests only in
/// `Ready`; homing runs once, before the first request.
#[derive(Clone, Copy, PartialEq, Eq, Structural, Debug)]
pub enum MotorPhase {
    Homing,
    Ready,
    Moving { target: i32, poll: LimitSensor },
}

/// Targets below the travel origin are pulled up to it; the upper bound is
/// the signed 32-bit maximum.
pub open spec fn spec_clamp(requested: i32) -> i32 {
    if requested < 0 {
        0
    } else {
        requested
    }
}

/// The clamping law: every target below zero is sent as exactly zero, and
/// every other target passes through unchanged, so what goes on the wire is
/// never below the travel origin.
pub proof fn lemma_clamp_law(requested: i32)
    ensures
        requested < 0 ==> spec_clamp(requested) == 0,
        requested >= 0 ==> spec_clamp(requested) == requested,
        spec_clamp(requested) >= 0,
{
}

/// Clamps a client-supplied target to the non-negative travel range.
pub fn clamp_target(requested: i32) -> (r: i32)
    ensures
        r == spec_clamp(requested),
{
    if requested < 0 {
        0
    } else {
        requested
    }
}

/// Which limit sensor a move of the given displacement polls: the stage
/// moves down for positive displacements and up for negative ones, and the
/// two ends have their own sensors.
pub open spec fn spec_poll_direction(delta: i32) -> LimitSensor {
    if delta > 0 {
        LimitSensor::Bottom
    } else {
        LimitSensor::Top
    }
}

/// The driver commands that set up and start the homing run: configure
/// current limit and microstepping, persist the settings, clear any latched
/// fault, energize, leave safe start, and command the reverse home move.
pub open spec fn spec_homing_setup() -> Seq<DriverCommand> {
    seq![
        DriverCommand::SetCurrentLimit(3200),
        DriverCommand::SetStepMode(StepMode::TwoFiftySixth),
        DriverCommand::SaveSettings,
        DriverCommand::LoadSettings,
        DriverCommand::ClearDriverError,
        DriverCommand::Energize,
        DriverCommand::ExitSafeStart,
        DriverCommand::GoHomeReverse,
    ]
}

/// The commands that end the homing run: halt and define the reached limit
/// as position zero, then release the motor and re-arm safe start.
pub open spec fn spec_homing_finish() -> Seq<DriverCommand> {
    seq![
        DriverCommand::HaltAndSetPosition(0),
        DriverCommand::Deenergize,
        DriverCommand::EnterSafeStart,
    ]
}

/// The commands that start an accepted move of displacement `delta`.
pub open spec fn spec_move_setup(delta: i32) -> Seq<DriverCommand> {
    seq![
        DriverCommand::ClearDriverError,
        DriverCommand::Energize,
        DriverCommand::ExitSafeStart,
        DriverCommand::SetTargetRelative(delta),
    ]
}

/// The commands that end a move, whether it completed or was aborted: the
/// stage is never left energized.
pub open spec fn spec_move_finish() -> Seq<DriverCommand> {
    seq![DriverCommand::Deenergize, DriverCommand::EnterSafeStart]
}

/// What the controller does with one position request.
pub enum MoveDecision {
    /// The stage is already at the requested position: no hardware command
    /// is issued and the reply explains the rejection.
    Rejected(PositionResponse),
    /// The move is accepted: issue the commands, then poll the named limit
    /// sensor until it fires.
    Begin { delta: i32, poll: LimitSensor, commands: Vec<DriverCommand> },
}

/// A request for the position the stage already stands at is answered by
/// exactly this decision: a rejection naming that position, with no hardware
/// command issued.
pub open spec fn spec_rejected_decision(r: MoveDecision, position: i32) -> bool {
    match r {
        MoveDecision::Rejected(resp) => {
            &&& !resp.success
            &&& resp.position == position
            &&& resp.valid()
            &&& resp.message@ == "Already at requested position."@
        },
        MoveDecision::Begin { .. } => false,
    }
}

/// An accepted request starts a move of exactly displacement `delta`: it
/// issues the move-setup commands and polls the sensor on the side the stage
/// travels towards.
pub open spec fn spec_begin_decision(r: MoveDecision, delta: i32) -> bool {
    match r {
        MoveDecision::Rejected(_) => false,
        MoveDecision::Begin { delta: d, poll, commands } => {
            &&& d == delta
            &&& poll == spec_poll_direction(delta)
            &&& commands@ == spec_move_setup(delta)
        },
    }
}

/// Server side of the positionable stage. It owns the position, measured in
/// steps from the homed zero point; the bus serializes requests, so at most
/// one move is in flight at a time, which the `phase` field enforces.
pub struct StepperMotorServer {
    pub identity: DeviceIdentity,
    pub position: i32,
    pub phase: MotorPhase,
}

/// The controller state once a homing run ends: at the zero point,
/// ready to serve.
pub open spec fn spec_finish_homing(m: StepperMotorServer) -> StepperMotorServer {
    StepperMotorServer { position: 0, phase: MotorPhase::Ready, ..m }
}

/// Homing is idempotent: however often a homing run ends — once, or again
/// on a restart — the controller stands at position zero, ready to serve.
pub proof fn lemma_homing_idempotent(m: StepperMotorServer)
    ensures
        spec_finish_homing(m).position == 0,
        spec_finish_homing(m).phase is Ready,
        spec_finish_homing(spec_finish_homing(m)) == spec_finish_homing(m),
{
}

impl StepperMotorServer {
    /// The position is meaningful only relative to the homed zero point, so
    /// it never goes below it; an accepted move targets the same range.
    pub open spec fn wf(&self) -> bool {
        &&& self.position >= 0
        &&& (self.phase matches MotorPhase::Moving { target, .. } ==> target >= 0)
    }

    /// Builds the controller in its homing phase, together with the setup
    /// commands to issue. The controller accepts no request before
    /// `finish_homing`.
    pub fn new(subsystem: String, device: String) -> (r: (StepperMotorServer, Vec<DriverCommand>))
        ensures
            r.0.identity.subsystem@ == subsystem@,
            r.0.identity.device@ == device@,
            r.0.phase is Homing,
            r.0.wf(),
            r.1@ == spec_homing_setup(),
    {
        let mut commands: Vec<DriverCommand> = Vec::new();
        commands.push(DriverCommand::SetCurrentLimit(3200));
        commands.push(DriverCommand::SetStepMode(StepMode::TwoFiftySixth));
        commands.push(DriverCommand::SaveSettings);
        commands.push(DriverCommand::LoadSettings);
        commands.push(DriverCommand::ClearDriverError);
        commands.push(DriverCommand::Energize);
        commands.push(DriverCommand::ExitSafeStart);
        commands.push(DriverCommand::GoHomeReverse);
        proof {
            assert(commands@ =~= spec_homing_setup());
        }
        let server = StepperMotorServer {
            identity: DeviceIdentity::new(subsystem, device),
            position: 0,
            phase: MotorPhase::Homing,
        };
        (server, commands)
    }

    /// One iteration of a limit poll, during homing or a move: until the
    /// limit fires, the command-timeout refresh must be issued — the driver
    /// auto-stops without it — and once it fires, polling stops.
    pub fn poll_action(limit_hit: bool) -> (r: Option<DriverCommand>)
        ensures
            limit_hit <==> r is None,
            !limit_hit ==> r == Some(DriverCommand::ResetCommandTimeout),
    {
        if limit_hit {
            None
        } else {
            Some(DriverCommand::ResetCommandTimeout)
        }
    }

    /// Ends the homing run once the top limit fired: the reached point
    /// becomes position zero and the controller starts serving. Returns the
    /// commands that halt, release and re-arm the motor.
    pub fn finish_homing(&mut self) -> (commands: Vec<DriverCommand>)
        requires
            old(self).phase is Homing,
        ensures
            *final(self) == spec_finish_homing(*old(self)),
            final(self).wf(),
            commands@ == spec_homing_finish(),
    {
        let mut commands: Vec<DriverCommand> = Vec::new();
        commands.push(DriverCommand::HaltAndSetPosition(0));
        commands.push(DriverCommand::Deenergize);
        commands.push(DriverCommand::EnterSafeStart);
        proof {
            assert(commands@ =~= spec_homing_finish());
        }
        self.position = 0;
        self.phase = MotorPhase::Ready;
        commands
    }

    /// The homing run failed (the driver could not be reached): issue the
    /// cleanup commands so the stage is not left energized, and keep the
    /// controller out of service rather than serve from an unknown origin.
    pub fn abort_homing(&self) -> (commands: Vec<DriverCommand>)
        requires
            self.phase is Homing,
        ensures
            commands@ == spec_move_finish(),
    {
        let mut commands: Vec<DriverCommand> = Vec::new();
        commands.push(DriverCommand::Deenergize);
        commands.push(DriverCommand::EnterSafeStart);
        proof {
            assert(commands@ =~= spec_move_finish());
        }
        commands
    }

    /// Decides one position request. The effective target is the clamped
    /// request; the displacement is exactly the effective target minus the
    /// position before the move. A zero displacement is rejected — the reply
    /// says the stage is already there, and no hardware command is issued —
    /// and anything else starts a move polling the sensor on the side the
    /// stage travels towards.
    pub fn handle_request(&mut self, requested: i32) -> (r: MoveDecision)
        requires
            old(self).phase is Ready,
            old(self).wf(),
        ensures
            final(self).identity == old(self).identity,
            final(self).position == old(self).position,
            final(self).wf(),
            ({
                let effective = spec_clamp(requested);
                let delta = effective - old(self).position;
                &&& (delta == 0 ==> *final(self) == *old(self))
                &&& (delta == 0 ==> spec_rejected_decision(r, old(self).position))
                &&& (delta != 0 ==> spec_begin_decision(r, delta as i32))
                &&& (delta != 0 ==> final(self).phase == (MotorPhase::Moving {
                    target: effective,
                    poll: spec_poll_direction(delta as i32),
                }))
            }),
    {
        let effective = clamp_target(requested);
        if effective == self.position {
            proof {
                reveal_strlit("Already at requested position.");
            }
            let response = PositionResponse {
                success: false,
                message: String::from_str("Already at requested position."),
                position: self.position,
            };
            return MoveDecision::Rejected(response);
        }
        let delta = effective - self.position;
        let poll = if delta > 0 {
            LimitSensor::Bottom
        } else {
            LimitSensor::Top
        };
        let mut commands: Vec<DriverCommand> = Vec::new();
        commands.push(DriverCommand::ClearDriverError);
        commands.push(DriverCommand::Energize);
        commands.push(DriverCommand::ExitSafeStart);
        commands.push(DriverCommand::SetTargetRelative(delta));
        proof {
            assert(commands@ =~= spec_move_setup(delta));
        }
        self.phase = MotorPhase::Moving { target: effective, poll };
        MoveDecision::Begin { delta, poll, commands }
    }

    /// Ends an accepted move once its limit sensor fired: the stage now
    /// stands at the move's target, the reply reports that position, and the
    /// returned commands release the motor and re-arm safe start.
    pub fn finish_move(&mut self) -> (r: (PositionResponse, Vec<DriverCommand>))
        requires
            old(self).phase matches MotorPhase::Moving { .. },
            old(self).wf(),
        ensures
            final(self).identity == old(self).identity,
            final(self).phase is Ready,
            final(self).wf(),
            old(self).phase matches MotorPhase::Moving { target, .. } ==> final(self).position
                == target && r.0.position == target,
            r.0.success,
            r.0.valid(),
            r.1@ == spec_move_finish(),
    {
        let target = match self.phase {
            MotorPhase::Moving { target, .. } => target,
            _ => 0,
        };
        let mut commands: Vec<DriverCommand> = Vec::new();
        commands.push(DriverCommand::Deenergize);
        commands.push(DriverCommand::EnterSafeStart);
        proof {
            assert(commands@ =~= spec_move_finish());
        }
        self.position = target;
        self.phase = MotorPhase::Ready;
        let response = PositionResponse { success: true, message: String::new(), position: target };
        (response, commands)
    }

    /// A driver command failed mid-move. The move aborts rather than poll
    /// forever: the cleanup commands release the motor, the controller
    /// returns to serving at its last commanded position, and the reply
    /// explains the fault.
    pub fn abort_move(&mut self) -> (r: (PositionResponse, Vec<DriverCommand>))
        requires
            old(self).phase matches MotorPhase::Moving { .. },
            old(self).wf(),
        ensures
            final(self).identity == old(self).identity,
            final(self).position == old(self).position,
            final(self).phase is Ready,
            final(self).wf(),
            !r.0.success,
            r.0.valid(),
            r.0.position == old(self).position,
            r.0.message@ == "Stepper motor driver command failed."@,
            r.1@ == spec_move_finish(),
    {
        proof {
            reveal_strlit("Stepper motor driver command failed.");
        }
        let mut commands: Vec<DriverCommand> = Vec::new();
        commands.push(DriverCommand::Deenergize);
        commands.push(DriverCommand::EnterSafeStart);
        proof {
            assert(commands@ =~= spec_move_finish());
        }
        self.phase = MotorPhase::Ready;
        let response = PositionResponse {
            success: false,
            message: String::from_str("Stepper motor driver command failed."),
            position: self.position,
        };
        (response, commands)
    }
}

} // verus!
