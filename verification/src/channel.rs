use vstd::prelude::*;
use crate::response::{CommandResponse, PositionResponse};

verus! {

/// How long the client waits between availability polls when the server is
/// not reachable yet.
pub const DEFAULT_POLL_INTERVAL_MS: u64 = 1000;

/// Availability-wait policy. The default is an unbounded wait — a deliberate
/// choice, not an oversight: a device is commanded as soon as it comes up,
/// however long that takes. A bound on the number of polls can be configured
/// to make the wait testable.
#[derive(Clone, Copy, PartialEq, Eq, Structural, Debug)]
pub struct ChannelConfig {
    pub poll_interval_ms: u64,
    pub max_attempts: Option<u32>,
}

impl ChannelConfig {
    /// The default policy: poll once a second, forever.
    pub fn new() -> (r: ChannelConfig)
        ensures
            r.poll_interval_ms == DEFAULT_POLL_INTERVAL_MS,
            r.max_attempts is None,
    {
        ChannelConfig { poll_interval_ms: DEFAULT_POLL_INTERVAL_MS, max_attempts: None }
    }
}

/// A bus-level failure, distinct from an application-level rejection: it
/// means "retry or abort", never "the command was understood and refused".
#[derive(Clone, Copy, PartialEq, Eq, Structural, Debug)]
pub enum TransportError {
    Unreachable,
    Serialization,
}

/// What the waiting client does after one availability poll.
#[derive(Clone, Copy, PartialEq, Eq, Structural, Debug)]
pub enum WaitStep {
    /// The server is reachable: issue the one call now.
    Proceed,
    /// Not reachable yet: wait this long and poll again.
    RetryAfter { delay_ms: u64 },
    /// Not reachable and the configured poll bound is spent.
    GiveUp,
}

/// The decision after one availability poll: proceed the moment the server
/// is reachable, otherwise keep polling at the configured interval until the
/// configured bound (if any) is spent.
pub open spec fn spec_wait_step(config: ChannelConfig, attempts_made: u32, available: bool)
    -> WaitStep {
    if available {
        WaitStep::Proceed
    } else {
        match config.max_attempts {
            None => WaitStep::RetryAfter { delay_ms: config.poll_interval_ms },
            Some(max) => if max == 0 || attempts_made >= max - 1 {
                WaitStep::GiveUp
            } else {
                WaitStep::RetryAfter { delay_ms: config.poll_interval_ms }
            },
        }
    }
}

/// One more poll on the attempt counter; the count saturates rather than
/// wrap, as only its comparison against a configured bound matters.
pub open spec fn spec_next_attempts(attempts: u32) -> u32 {
    if attempts < u32::MAX {
        (attempts + 1) as u32
    } else {
        attempts
    }
}

/// Lifecycle of one command: the channel is idle, or waiting for the server
/// to become reachable, or has exactly one call in flight.
#[derive(Clone, Copy, PartialEq, Eq, Structural, Debug)]
pub enum ChannelPhase {
    Idle,
    AwaitingServer { attempts: u32 },
    InFlight,
}

/// Client side of one request/response service. It turns a typed command
/// into exactly one completed response: at most one request is in flight per
/// device, and a new one starts only after the previous reply (or transport
/// failure) came back.
pub struct CommandChannel {
    pub config: ChannelConfig,
    pub phase: ChannelPhase,
}

/// What a completed exchange means to the caller. A transport error and an
/// application rejection are different things: the first asks for a retry or
/// an abort, the second is data — the command was understood and refused.
pub enum CommandReply {
    Transport(TransportError),
    Rejected(CommandResponse),
    Accepted(CommandResponse),
}

/// As `CommandReply`, for the position service.
pub enum PositionReply {
    Transport(TransportError),
    Rejected(PositionResponse),
    Accepted(PositionResponse),
}

impl CommandChannel {
    pub fn new(config: ChannelConfig) -> (r: CommandChannel)
        ensures
            r.config == config,
            r.phase is Idle,
    {
        CommandChannel { config, phase: ChannelPhase::Idle }
    }

    /// Starts one exchange: the channel begins polling for the server.
    pub fn begin_send(&mut self)
        requires
            old(self).phase is Idle,
        ensures
            final(self).config == old(self).config,
            final(self).phase == (ChannelPhase::AwaitingServer { attempts: 0u32 }),
    {
        self.phase = ChannelPhase::AwaitingServer { attempts: 0 };
    }

    /// Feeds in the result of one availability poll. On `Proceed` the one
    /// call goes out (the channel is then in flight); on `RetryAfter` the
    /// caller waits and polls again; on `GiveUp` the exchange is abandoned
    /// and the channel is idle again.
    pub fn on_availability(&mut self, available: bool) -> (r: WaitStep)
        requires
            old(self).phase matches ChannelPhase::AwaitingServer { .. },
        ensures
            final(self).config == old(self).config,
            old(self).phase matches ChannelPhase::AwaitingServer { attempts } ==> {
                &&& r == spec_wait_step(old(self).config, attempts, available)
                &&& (r is Proceed ==> final(self).phase is InFlight)
                &&& (r is GiveUp ==> final(self).phase is Idle)
                &&& ((r matches WaitStep::RetryAfter { .. }) ==> final(self).phase == (
                ChannelPhase::AwaitingServer { attempts: spec_next_attempts(attempts) }))
            },
    {
        let attempts = match self.phase {
            ChannelPhase::AwaitingServer { attempts } => attempts,
            _ => 0,
        };
        if available {
            self.phase = ChannelPhase::InFlight;
            return WaitStep::Proceed;
        }
        match self.config.max_attempts {
            None => {
                let next = if attempts < u32::MAX {
                    attempts + 1
                } else {
                    attempts
                };
                self.phase = ChannelPhase::AwaitingServer { attempts: next };
                WaitStep::RetryAfter { delay_ms: self.config.poll_interval_ms }
            },
            Some(max) => {
                if max == 0 || attempts >= max - 1 {
                    self.phase = ChannelPhase::Idle;
                    WaitStep::GiveUp
                } else {
                    self.phase = ChannelPhase::AwaitingServer { attempts: attempts + 1 };
                    WaitStep::RetryAfter { delay_ms: self.config.poll_interval_ms }
                }
            },
        }
    }

    /// Completes the in-flight exchange for an on/off device, sorting the
    /// outcome into the caller's taxonomy: a transport error, an application
    /// rejection, or an accepted command. The channel is idle afterwards
    /// either way.
    pub fn complete_command(&mut self, outcome: Result<CommandResponse, TransportError>) -> (r:
        CommandReply)
        requires
            old(self).phase is InFlight,
        ensures
            final(self).config == old(self).config,
            final(self).phase is Idle,
            match outcome {
                Err(e) => r matches CommandReply::Transport(t) && t == e,
                Ok(resp) => if resp.success {
                    r == CommandReply::Accepted(resp)
                } else {
                    r == CommandReply::Rejected(resp)
                },
            },
    {
        self.phase = ChannelPhase::Idle;
        match outcome {
            Err(e) => CommandReply::Transport(e),
            Ok(resp) => {
                if resp.success {
                    CommandReply::Accepted(resp)
                } else {
                    CommandReply::Rejected(resp)
                }
            },
        }
    }

    /// As `complete_command`, for the position service.
    pub fn complete_position(&mut self, outcome: Result<PositionResponse, TransportError>) -> (r:
        PositionReply)
        requires
            old(self).phase is InFlight,
        ensures
            final(self).config == old(self).config,
            final(self).phase is Idle,
            match outcome {
                Err(e) => r matches PositionReply::Transport(t) && t == e,
                Ok(resp) => if resp.success {
                    r == PositionReply::Accepted(resp)
                } else {
                    r == PositionReply::Rejected(resp)
                },
            },
    {
        self.phase = ChannelPhase::Idle;
        match outcome {
            Err(e) => PositionReply::Transport(e),
            Ok(resp) => {
                if resp.success {
                    PositionReply::Accepted(resp)
                } else {
                    PositionReply::Rejected(resp)
                }
            },
        }
    }
}

} // verus!
