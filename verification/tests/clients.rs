use science_control::channel::{
    ChannelConfig, ChannelPhase, CommandChannel, CommandReply, PositionReply, TransportError,
    WaitStep,
};
use science_control::response::{CommandResponse, PositionResponse};
use science_control::session::{
    CameraClient, OnOffClient, PositionClient, SessionAction, SessionState,
    describe_position_response, invalid_input_line, request_sent_line,
};
use science_control::streaming::Frame;
use science_control::text::{i32_to_string, parse_bool, parse_i32, str_eq, trim_spaces, u32_to_string};

#[test]
fn decimal_rendering_is_exact() {
    assert_eq!(u32_to_string(0), "0");
    assert_eq!(u32_to_string(7), "7");
    assert_eq!(u32_to_string(40), "40");
    assert_eq!(u32_to_string(4294967295), "4294967295");
    assert_eq!(i32_to_string(-60), "-60");
    assert_eq!(i32_to_string(2147483647), "2147483647");
    assert_eq!(i32_to_string(-2147483648), "-2147483648");
}

#[test]
fn integer_parsing_accepts_exactly_well_formed_decimals() {
    assert_eq!(parse_i32("40"), Some(40));
    assert_eq!(parse_i32("-60"), Some(-60));
    assert_eq!(parse_i32("+5"), Some(5));
    assert_eq!(parse_i32("007"), Some(7));
    assert_eq!(parse_i32("2147483647"), Some(2147483647));
    assert_eq!(parse_i32("-2147483648"), Some(-2147483648));
    assert_eq!(parse_i32(""), None);
    assert_eq!(parse_i32("-"), None);
    assert_eq!(parse_i32("+"), None);
    assert_eq!(parse_i32("12a"), None);
    assert_eq!(parse_i32("maybe"), None);
    assert_eq!(parse_i32("2147483648"), None);
    assert_eq!(parse_i32("-2147483649"), None);
    assert_eq!(parse_i32("99999999999999999999"), None);
}

#[test]
fn boolean_parsing_accepts_only_the_two_command_words() {
    assert_eq!(parse_bool("true"), Some(true));
    assert_eq!(parse_bool("false"), Some(false));
    assert_eq!(parse_bool("maybe"), None);
    assert_eq!(parse_bool("True"), None);
    assert_eq!(parse_bool(""), None);
}

#[test]
fn trimming_strips_the_line_ending_and_blanks() {
    assert_eq!(trim_spaces(" 42\n"), "42");
    assert_eq!(trim_spaces("\ttrue\r\n"), "true");
    assert_eq!(trim_spaces("   "), "");
    assert_eq!(trim_spaces("a b"), "a b");
}

#[test]
fn string_equality_is_by_characters() {
    assert!(str_eq("cmd", "cmd"));
    assert!(!str_eq("cmd", "cm"));
    assert!(!str_eq("cmd", "cmx"));
    assert!(str_eq("", ""));
}

#[test]
fn channel_polls_until_the_server_is_available() {
    let mut channel = CommandChannel::new(ChannelConfig::new());
    channel.begin_send();
    assert_eq!(
        channel.on_availability(false),
        WaitStep::RetryAfter { delay_ms: 1000 }
    );
    assert_eq!(
        channel.on_availability(false),
        WaitStep::RetryAfter { delay_ms: 1000 }
    );
    assert_eq!(channel.on_availability(true), WaitStep::Proceed);
    assert_eq!(channel.phase, ChannelPhase::InFlight);
}

#[test]
fn channel_gives_up_when_the_poll_bound_is_spent() {
    let config = ChannelConfig { poll_interval_ms: 10, max_attempts: Some(2) };
    let mut channel = CommandChannel::new(config);
    channel.begin_send();
    assert_eq!(
        channel.on_availability(false),
        WaitStep::RetryAfter { delay_ms: 10 }
    );
    assert_eq!(channel.on_availability(false), WaitStep::GiveUp);
    assert_eq!(channel.phase, ChannelPhase::Idle);
}

#[test]
fn completed_exchanges_distinguish_rejection_from_transport_failure() {
    let mut channel = CommandChannel::new(ChannelConfig::new());
    channel.begin_send();
    channel.on_availability(true);
    let reply = channel.complete_command(Ok(CommandResponse {
        success: false,
        message: "brush is already in requested state.".to_string(),
    }));
    match reply {
        CommandReply::Rejected(resp) => {
            assert_eq!(resp.message, "brush is already in requested state.")
        },
        _ => panic!("an understood refusal is an application rejection"),
    }

    channel.begin_send();
    channel.on_availability(true);
    let reply = channel.complete_command(Err(TransportError::Unreachable));
    match reply {
        CommandReply::Transport(e) => assert_eq!(e, TransportError::Unreachable),
        _ => panic!("a bus failure is a transport error"),
    }
    assert_eq!(channel.phase, ChannelPhase::Idle);
}

#[test]
fn position_exchange_reports_the_reached_position() {
    let mut channel = CommandChannel::new(ChannelConfig::new());
    channel.begin_send();
    channel.on_availability(true);
    let reply = channel.complete_position(Ok(PositionResponse {
        success: true,
        message: String::new(),
        position: 40,
    }));
    match reply {
        PositionReply::Accepted(resp) => {
            let lines = describe_position_response(&resp);
            assert_eq!(lines, vec!["Request completed. Now at position 40.".to_string()]);
        },
        _ => panic!("a successful move is accepted"),
    }
}

#[test]
fn failed_position_exchange_reports_where_the_stage_stopped() {
    let resp = PositionResponse {
        success: false,
        message: "Already at requested position.".to_string(),
        position: 100,
    };
    let lines = describe_position_response(&resp);
    assert_eq!(
        lines,
        vec![
            "Request failed! Stopped at 100.".to_string(),
            "Already at requested position.".to_string(),
        ]
    );
}

#[test]
fn malformed_on_off_input_reprompts_without_contacting_the_server() {
    let mut client = OnOffClient::new("science".to_string(), "uv_light".to_string());
    let action = client.handle_input("maybe");
    assert_eq!(action, SessionAction::Reprompt);
    assert_eq!(client.session, SessionState::AwaitCommand);
    // The channel never left idle: nothing was sent.
    assert_eq!(client.channel.phase, ChannelPhase::Idle);
    assert_eq!(invalid_input_line(), "Invalid input.");
}

#[test]
fn well_formed_on_off_input_is_sent_then_the_session_asks_to_continue() {
    let mut client = OnOffClient::new("science".to_string(), "water_pump".to_string());
    assert_eq!(client.handle_input("true\n"), SessionAction::SendBool(true));
    assert_eq!(client.session, SessionState::AwaitContinue);
    assert_eq!(request_sent_line(), "Request sent.");
    assert_eq!(client.handle_input("yes"), SessionAction::Reprompt);
    assert_eq!(client.session, SessionState::AwaitContinue);
    assert_eq!(client.handle_input("true"), SessionAction::PromptCommand);
    assert_eq!(client.session, SessionState::AwaitCommand);
    assert_eq!(client.handle_input("false"), SessionAction::SendBool(false));
    assert_eq!(client.handle_input("false"), SessionAction::Finish);
    assert_eq!(client.session, SessionState::Finished);
}

#[test]
fn camera_client_keeps_the_newest_frame_and_commands_like_an_on_off_client() {
    let mut client = CameraClient::new("science".to_string(), "uv_camera".to_string());
    assert_eq!(client.identity.command_topic(), "/science/uv_camera/cmd");
    assert_eq!(client.identity.stream_topic(), "/science/uv_camera/images");
    client.receive_frame(Frame {
        width: 640,
        height: 480,
        encoding: "bgr8".to_string(),
        data: vec![9],
    });
    client.receive_frame(Frame {
        width: 320,
        height: 240,
        encoding: "bgr8".to_string(),
        data: vec![4, 2],
    });
    assert_eq!(client.frames.latest.as_ref().unwrap().width, 320);
    assert_eq!(client.handle_input("true"), SessionAction::SendBool(true));
}

#[test]
fn negative_position_input_goes_out_as_zero() {
    let mut client = PositionClient::new("science".to_string(), "stepper_motor".to_string());
    assert_eq!(client.handle_input("-12\n"), SessionAction::SendPosition(0));
    assert_eq!(client.session, SessionState::AwaitContinue);
}

#[test]
fn position_session_sends_the_parsed_target() {
    let mut client = PositionClient::new("science".to_string(), "turret".to_string());
    assert_eq!(client.handle_input(" 40 "), SessionAction::SendPosition(40));
    assert_eq!(client.handle_input("false"), SessionAction::Finish);
}

#[test]
fn malformed_position_input_reprompts() {
    let mut client = PositionClient::new("science".to_string(), "stepper_motor".to_string());
    assert_eq!(client.handle_input("forty"), SessionAction::Reprompt);
    assert_eq!(client.handle_input("12.5"), SessionAction::Reprompt);
    assert_eq!(client.session, SessionState::AwaitCommand);
    assert_eq!(client.channel.phase, ChannelPhase::Idle);
}
