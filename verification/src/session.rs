use vstd::prelude::*;
use crate::channel::{ChannelConfig, CommandChannel};
use crate::identity::DeviceIdentity;
use crate::motor::{spec_clamp, clamp_target};
use crate::response::PositionResponse;
use crate::streaming::{Frame, FrameStore};
use crate::text::{
    dec_int, i32_to_string, parse_bool, parse_i32, spec_parse_bool, spec_parse_i32, spec_trim,
    trim_spaces,
};

verus! {

/// Where an interactive session stands: waiting for a command value, waiting
/// for the answer to "continue?", or done.
#[derive(Clone, Copy, PartialEq, Eq, Structural, Debug)]
pub enum SessionState {
    AwaitCommand,
    AwaitContinue,
    Finished,
}

/// What the session asks its surroundings to do after one line of operator
/// input. Malformed input is discarded — the only answer to it is a fresh
/// prompt, never a command on the wire.
#[derive(Clone, Copy, PartialEq, Eq, Structural, Debug)]
pub enum SessionAction {
    /// Send this boolean command, print the reply, then ask "continue?".
    SendBool(bool),
    /// Send this (already clamped) position command, print the reply, then
    /// ask "continue?".
    SendPosition(i32),
    /// The input did not parse: say so and put the same question again.
    Reprompt,
    /// The operator wants another round: prompt for the next command value.
    PromptCommand,
    /// The operator declined to continue: the session ends.
    Finish,
}

/// One step of a boolean-command session. A command line is trimmed and must
/// read exactly `true` or `false`; the answer to "continue?" likewise.
pub open spec fn spec_bool_session_step(state: SessionState, input: Seq<char>) -> (
    SessionState,
    SessionAction,
) {
    match state {
        SessionState::AwaitCommand => match spec_parse_bool(spec_trim(input)) {
            Some(b) => (SessionState::AwaitContinue, SessionAction::SendBool(b)),
            None => (SessionState::AwaitCommand, SessionAction::Reprompt),
        },
        SessionState::AwaitContinue => match spec_parse_bool(spec_trim(input)) {
            Some(true) => (SessionState::AwaitCommand, SessionAction::PromptCommand),
            Some(false) => (SessionState::Finished, SessionAction::Finish),
            None => (SessionState::AwaitContinue, SessionAction::Reprompt),
        },
        SessionState::Finished => (SessionState::Finished, SessionAction::Finish),
    }
}

/// One step of a position session: the command value is a signed decimal,
/// and what goes on the wire is its clamped value — a negative target is
/// sent as zero.
pub open spec fn spec_position_session_step(state: SessionState, input: Seq<char>) -> (
    SessionState,
    SessionAction,
) {
    match state {
        SessionState::AwaitCommand => match spec_parse_i32(spec_trim(input)) {
            Some(p) => (SessionState::AwaitContinue, SessionAction::SendPosition(spec_clamp(p))),
            None => (SessionState::AwaitCommand, SessionAction::Reprompt),
        },
        SessionState::AwaitContinue => match spec_parse_bool(spec_trim(input)) {
            Some(true) => (SessionState::AwaitCommand, SessionAction::PromptCommand),
            Some(false) => (SessionState::Finished, SessionAction::Finish),
            None => (SessionState::AwaitContinue, SessionAction::Reprompt),
        },
        SessionState::Finished => (SessionState::Finished, SessionAction::Finish),
    }
}

/// Malformed input never reaches a device: whatever the line was, a step
/// either sends a value that parsed in full or asks the operator again.
pub proof fn lemma_malformed_input_discarded(state: SessionState, input: Seq<char>)
    ensures
        spec_parse_bool(spec_trim(input)) is None && spec_parse_i32(spec_trim(input)) is None
            ==> !(spec_bool_session_step(state, input).1 matches SessionAction::SendBool(_))
            && !(spec_position_session_step(state, input).1
            matches SessionAction::SendPosition(_)),
{
}

fn step_continue(input: &str) -> (r: (SessionState, SessionAction))
    ensures
        r == spec_bool_session_step(SessionState::AwaitContinue, input@),
        r == spec_position_session_step(SessionState::AwaitContinue, input@),
{
    let trimmed = trim_spaces(input);
    match parse_bool(trimmed.as_str()) {
        Some(true) => (SessionState::AwaitCommand, SessionAction::PromptCommand),
        Some(false) => (SessionState::Finished, SessionAction::Finish),
        None => (SessionState::AwaitContinue, SessionAction::Reprompt),
    }
}

/// Advances a boolean-command session by one line of operator input.
pub fn bool_session_step(state: SessionState, input: &str) -> (r: (SessionState, SessionAction))
    ensures
        r == spec_bool_session_step(state, input@),
{
    match state {
        SessionState::AwaitCommand => {
            let trimmed = trim_spaces(input);
            match parse_bool(trimmed.as_str()) {
                Some(b) => (SessionState::AwaitContinue, SessionAction::SendBool(b)),
                None => (SessionState::AwaitCommand, SessionAction::Reprompt),
            }
        },
        SessionState::AwaitContinue => step_continue(input),
        SessionState::Finished => (SessionState::Finished, SessionAction::Finish),
    }
}

/// Advances a position session by one line of operator input.
pub fn position_session_step(state: SessionState, input: &str) -> (r: (
    SessionState,
    SessionAction,
))
    ensures
        r == spec_position_session_step(state, input@),
{
    match state {
        SessionState::AwaitCommand => {
            let trimmed = trim_spaces(input);
            match parse_i32(trimmed.as_str()) {
                Some(p) => (
                    SessionState::AwaitContinue,
                    SessionAction::SendPosition(clamp_target(p)),
                ),
                None => (SessionState::AwaitCommand, SessionAction::Reprompt),
            }
        },
        SessionState::AwaitContinue => step_continue(input),
        SessionState::Finished => (SessionState::Finished, SessionAction::Finish),
    }
}

/// The line shown when input is discarded, before the same prompt again.
pub fn invalid_input_line() -> (r: String)
    ensures
        r@ == "Invalid input."@,
{
    String::from_str("Invalid input.")
}

/// The status line logged when the one call goes out.
pub fn request_sent_line() -> (r: String)
    ensures
        r@ == "Request sent."@,
{
    String::from_str("Request sent.")
}

/// The lines a position client reports for a completed exchange: a completed
/// move names the position reached; a rejected one names where the stage
/// stopped and passes the server's explanation on.
pub fn describe_position_response(resp: &PositionResponse) -> (r: Vec<String>)
    ensures
        resp.success ==> r@.len() == 1 && r@[0]@ == "Request completed. Now at position "@
            + dec_int(resp.position as int) + "."@,
        !resp.success ==> r@.len() == 2 && r@[0]@ == "Request failed! Stopped at "@ + dec_int(
            resp.position as int,
        ) + "."@ && r@[1]@ == resp.message@,
{
    let mut lines: Vec<String> = Vec::new();
    let digits = i32_to_string(resp.position);
    if resp.success {
        let mut line = String::from_str("Request completed. Now at position ");
        line.append(digits.as_str());
        line.append(".");
        lines.push(line);
    } else {
        let mut line = String::from_str("Request failed! Stopped at ");
        line.append(digits.as_str());
        line.append(".");
        lines.push(line);
        lines.push(resp.message.clone());
    }
    lines
}

/// Client side of an on/off device: its identity, its command channel, and
/// the interactive session that feeds the channel.
pub struct OnOffClient {
    pub identity: DeviceIdentity,
    pub channel: CommandChannel,
    pub session: SessionState,
}

impl OnOffClient {
    pub fn new(subsystem: String, device: String) -> (r: OnOffClient)
        ensures
            r.identity.subsystem@ == subsystem@,
            r.identity.device@ == device@,
            r.channel.phase is Idle,
            r.channel.config.max_attempts is None,
            r.session == SessionState::AwaitCommand,
    {
        OnOffClient {
            identity: DeviceIdentity::new(subsystem, device),
            channel: CommandChannel::new(ChannelConfig::new()),
            session: SessionState::AwaitCommand,
        }
    }

    /// Feeds one line of operator input into the session.
    pub fn handle_input(&mut self, input: &str) -> (r: SessionAction)
        ensures
            final(self).identity == old(self).identity,
            final(self).channel == old(self).channel,
            (final(self).session, r) == spec_bool_session_step(old(self).session, input@),
    {
        let (next, action) = bool_session_step(self.session, input);
        self.session = next;
        action
    }
}

/// Client side of a camera device: an on/off client that additionally keeps
/// the most recent frame received on the stream topic.
pub struct CameraClient {
    pub identity: DeviceIdentity,
    pub channel: CommandChannel,
    pub session: SessionState,
    pub frames: FrameStore,
}

impl CameraClient {
    pub fn new(subsystem: String, device: String) -> (r: CameraClient)
        ensures
            r.identity.subsystem@ == subsystem@,
            r.identity.device@ == device@,
            r.channel.phase is Idle,
            r.channel.config.max_attempts is None,
            r.session == SessionState::AwaitCommand,
            r.frames.latest is None,
    {
        CameraClient {
            identity: DeviceIdentity::new(subsystem, device),
            channel: CommandChannel::new(ChannelConfig::new()),
            session: SessionState::AwaitCommand,
            frames: FrameStore::new(),
        }
    }

    /// Feeds one line of operator input into the session.
    pub fn handle_input(&mut self, input: &str) -> (r: SessionAction)
        ensures
            final(self).identity == old(self).identity,
            final(self).channel == old(self).channel,
            final(self).frames == old(self).frames,
            (final(self).session, r) == spec_bool_session_step(old(self).session, input@),
    {
        let (next, action) = bool_session_step(self.session, input);
        self.session = next;
        action
    }

    /// Takes in a frame from the stream topic, keeping only this newest one.
    pub fn receive_frame(&mut self, frame: Frame)
        ensures
            final(self).identity == old(self).identity,
            final(self).channel == old(self).channel,
            final(self).session == old(self).session,
            final(self).frames.latest == Some(frame),
    {
        self.frames.receive(frame);
    }
}

/// Client side of the positionable stage.
pub struct PositionClient {
    pub identity: DeviceIdentity,
    pub channel: CommandChannel,
    pub session: SessionState,
}

impl PositionClient {
    pub fn new(subsystem: String, device: String) -> (r: PositionClient)
        ensures
            r.identity.subsystem@ == subsystem@,
            r.identity.device@ == device@,
            r.channel.phase is Idle,
            r.channel.config.max_attempts is None,
            r.session == SessionState::AwaitCommand,
    {
        PositionClient {
            identity: DeviceIdentity::new(subsystem, device),
            channel: CommandChannel::new(ChannelConfig::new()),
            session: SessionState::AwaitCommand,
        }
    }

    /// Feeds one line of operator input into the session. A target that
    /// parses below zero goes out as zero.
    pub fn handle_input(&mut self, input: &str) -> (r: SessionAction)
        ensures
            final(self).identity == old(self).identity,
            final(self).channel == old(self).channel,
            (final(self).session, r) == spec_position_session_step(old(self).session, input@),
    {
        let (next, action) = position_session_step(self.session, input);
        self.session = next;
        action
    }
}

} // verus!
