use science_control::identity::DeviceIdentity;
use science_control::motor::{
    DriverCommand, LimitSensor, MotorPhase, MoveDecision, StepMode, StepperMotorServer,
    clamp_target,
};
use science_control::onoff::{GPIOServer, PinAction, RepeatPolicy};
use science_control::streaming::{
    CameraServer, CameraSettings, CaptureStep, Frame, FrameStore, capture_interval_ms,
};

#[test]
fn command_topic_is_derived_from_identity() {
    let id = DeviceIdentity::new("science".to_string(), "brush".to_string());
    assert_eq!(id.command_topic(), "/science/brush/cmd");
}

#[test]
fn stream_topic_is_derived_from_identity() {
    let id = DeviceIdentity::new("science".to_string(), "ir_camera".to_string());
    assert_eq!(id.stream_topic(), "/science/ir_camera/images");
}

#[test]
fn display_name_replaces_separators() {
    let id = DeviceIdentity::new("science".to_string(), "stepper_motor".to_string());
    assert_eq!(id.display_name(), "stepper motor");
}

#[test]
fn gpio_turn_on_then_repeat() {
    let mut server = GPIOServer::new("science".to_string(), "brush".to_string(), 13);
    assert!(!server.state.active);

    let (first, action) = server.handle_command(true);
    assert!(first.success);
    assert_eq!(first.message, "brush is on.");
    assert_eq!(action, Some(PinAction::SetHigh));
    assert!(server.state.active);

    let (second, action) = server.handle_command(true);
    assert!(second.success); // the GPIO policy accepts repeats
    assert_eq!(second.message, "brush is already in requested state.");
    assert_eq!(action, None);
    assert!(server.state.active);
}

#[test]
fn gpio_turn_off_drives_pin_low() {
    let mut server = GPIOServer::new("science".to_string(), "vacuum".to_string(), 18);
    let (_, _) = server.handle_command(true);
    let (resp, action) = server.handle_command(false);
    assert!(resp.success);
    assert_eq!(resp.message, "vacuum is off.");
    assert_eq!(action, Some(PinAction::SetLow));
    assert!(!server.state.active);
}

#[test]
fn camera_activation_while_already_active_is_rejected() {
    let settings = CameraSettings::define_settings(640, 480, 30);
    let mut server = CameraServer::new("science".to_string(), "ir_camera".to_string(), 0, settings);
    assert_eq!(server.state.policy, RepeatPolicy::RejectRepeat);

    let first = server.handle_command(true);
    assert!(first.success);
    assert_eq!(first.message, "ir_camera is now in requested state.");
    assert!(server.state.active);

    let second = server.handle_command(true);
    assert!(!second.success);
    assert_eq!(second.message, "ir_camera is already in requested state.");
    assert!(server.state.active);
}

#[test]
fn capture_is_gated_by_the_activation_flag() {
    let settings = CameraSettings::define_settings(640, 480, 30);
    let mut server = CameraServer::new("science".to_string(), "microscope".to_string(), 2, settings);

    match server.capture_step() {
        CaptureStep::Idle { delay_ms } => assert_eq!(delay_ms, 100),
        CaptureStep::Capture { .. } => panic!("captured while inactive"),
    }

    let resp = server.handle_command(true);
    assert!(resp.success);
    match server.capture_step() {
        CaptureStep::Capture { delay_ms } => assert_eq!(delay_ms, 33),
        CaptureStep::Idle { .. } => panic!("idled while active"),
    }

    let resp = server.handle_command(false);
    assert!(resp.success);
    match server.capture_step() {
        CaptureStep::Idle { delay_ms } => assert_eq!(delay_ms, 100),
        CaptureStep::Capture { .. } => panic!("captured while inactive"),
    }
}

#[test]
fn capture_interval_follows_the_frame_rate() {
    assert_eq!(capture_interval_ms(30), 33);
    assert_eq!(capture_interval_ms(1), 1000);
    assert_eq!(capture_interval_ms(60), 16);
}

#[test]
fn frame_store_keeps_only_the_newest_frame() {
    let mut store = FrameStore::new();
    assert!(!store.should_display());
    store.receive(Frame {
        width: 640,
        height: 480,
        encoding: "bgr8".to_string(),
        data: vec![1, 2, 3],
    });
    store.receive(Frame { width: 0, height: 0, encoding: "bgr8".to_string(), data: vec![] });
    let held = store.latest.as_ref().unwrap();
    assert_eq!(held.width, 0);
    assert!(!store.should_display());
    store.receive(Frame {
        width: 320,
        height: 200,
        encoding: "bgr8".to_string(),
        data: vec![7],
    });
    assert!(store.should_display());
    assert_eq!(store.latest.as_ref().unwrap().data, vec![7]);
}

#[test]
fn homing_issues_the_documented_sequence() {
    let (server, setup) = StepperMotorServer::new("science".to_string(), "stepper_motor".to_string());
    assert_eq!(server.phase, MotorPhase::Homing);
    assert_eq!(
        setup,
        vec![
            DriverCommand::SetCurrentLimit(3200),
            DriverCommand::SetStepMode(StepMode::TwoFiftySixth),
            DriverCommand::SaveSettings,
            DriverCommand::LoadSettings,
            DriverCommand::ClearDriverError,
            DriverCommand::Energize,
            DriverCommand::ExitSafeStart,
            DriverCommand::GoHomeReverse,
        ]
    );
}

#[test]
fn homing_poll_refreshes_the_command_timeout_until_the_limit_fires() {
    assert_eq!(
        StepperMotorServer::poll_action(false),
        Some(DriverCommand::ResetCommandTimeout)
    );
    assert_eq!(StepperMotorServer::poll_action(true), None);
}

#[test]
fn homing_twice_always_ends_at_zero_and_ready() {
    let (mut server, _) = StepperMotorServer::new("science".to_string(), "stepper_motor".to_string());
    let finish = server.finish_homing();
    assert_eq!(
        finish,
        vec![
            DriverCommand::HaltAndSetPosition(0),
            DriverCommand::Deenergize,
            DriverCommand::EnterSafeStart,
        ]
    );
    assert_eq!(server.position, 0);
    assert_eq!(server.phase, MotorPhase::Ready);

    // A restart homes again from whatever position the stage was left at.
    server.position = 250;
    server.phase = MotorPhase::Homing;
    server.finish_homing();
    assert_eq!(server.position, 0);
    assert_eq!(server.phase, MotorPhase::Ready);
}

#[test]
fn move_to_current_position_touches_no_hardware() {
    let (mut server, _) = StepperMotorServer::new("science".to_string(), "stepper_motor".to_string());
    server.finish_homing();
    match server.handle_request(0) {
        MoveDecision::Rejected(resp) => {
            assert!(!resp.success);
            assert_eq!(resp.message, "Already at requested position.");
            assert_eq!(resp.position, 0);
        },
        MoveDecision::Begin { .. } => panic!("a zero move must be rejected"),
    }
    assert_eq!(server.phase, MotorPhase::Ready);
    assert_eq!(server.position, 0);
}

#[test]
fn move_downward_from_100_to_40_polls_the_top_sensor() {
    let (mut server, _) = StepperMotorServer::new("science".to_string(), "stepper_motor".to_string());
    server.finish_homing();

    // Drive the stage to 100 first.
    match server.handle_request(100) {
        MoveDecision::Begin { delta, poll, .. } => {
            assert_eq!(delta, 100);
            assert_eq!(poll, LimitSensor::Bottom);
        },
        MoveDecision::Rejected(_) => panic!("the first move must be accepted"),
    }
    let (resp, _) = server.finish_move();
    assert!(resp.success);
    assert_eq!(resp.position, 100);
    assert_eq!(server.position, 100);

    // Now request 40: the displacement is -60 and the stage moves up.
    match server.handle_request(40) {
        MoveDecision::Begin { delta, poll, commands } => {
            assert_eq!(delta, -60);
            assert_eq!(poll, LimitSensor::Top);
            assert_eq!(
                commands,
                vec![
                    DriverCommand::ClearDriverError,
                    DriverCommand::Energize,
                    DriverCommand::ExitSafeStart,
                    DriverCommand::SetTargetRelative(-60),
                ]
            );
        },
        MoveDecision::Rejected(_) => panic!("the move to 40 must be accepted"),
    }
    let (resp, cleanup) = server.finish_move();
    assert!(resp.success);
    assert_eq!(resp.position, 40);
    assert_eq!(server.position, 40);
    assert_eq!(
        cleanup,
        vec![DriverCommand::Deenergize, DriverCommand::EnterSafeStart]
    );
}

#[test]
fn negative_targets_are_clamped_to_zero() {
    assert_eq!(clamp_target(-1), 0);
    assert_eq!(clamp_target(i32::MIN), 0);
    assert_eq!(clamp_target(0), 0);
    assert_eq!(clamp_target(7), 7);
    assert_eq!(clamp_target(i32::MAX), i32::MAX);
}

#[test]
fn aborted_move_releases_the_stage_and_explains() {
    let (mut server, _) = StepperMotorServer::new("science".to_string(), "stepper_motor".to_string());
    server.finish_homing();
    match server.handle_request(50) {
        MoveDecision::Begin { .. } => {},
        MoveDecision::Rejected(_) => panic!("the move must be accepted"),
    }
    let (resp, cleanup) = server.abort_move();
    assert!(!resp.success);
    assert_eq!(resp.message, "Stepper motor driver command failed.");
    assert_eq!(resp.position, 0);
    assert_eq!(
        cleanup,
        vec![DriverCommand::Deenergize, DriverCommand::EnterSafeStart]
    );
    assert_eq!(server.phase, MotorPhase::Ready);
}

#[test]
fn step_mode_codes_match_the_driver_interface() {
    assert_eq!(StepMode::Full.code(), 0);
    assert_eq!(StepMode::ThirtySecond.code(), 5);
    assert_eq!(StepMode::SixtyFourth.code(), 7);
    assert_eq!(StepMode::TwoFiftySixth.code(), 9);
}
