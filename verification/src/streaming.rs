use vstd::prelude::*;
use crate::identity::DeviceIdentity;
use crate::onoff::{OnOffState, RepeatPolicy, spec_apply, spec_repeated, spec_success};
use crate::response::CommandResponse;

verus! {

/// How often the capture loop rechecks the activation flag while the camera
/// is off, so that an idle camera neither holds the device open nor burns a
/// busy loop.
pub const DEFAULT_IDLE_POLL_MS: u64 = 100;

/// One image frame: an opaque pixel buffer with its dimensions and encoding
/// tag. A frame lives from one capture tick to its hand-off to the bus.
pub struct Frame {
    pub width: u32,
    pub height: u32,
    pub encoding: String,
    pub data: Vec<u8>,
}

/// Capture configuration as plain values; translating them into the video
/// backend's property codes happens at the hardware edge.
pub struct CameraSettings {
    pub frame_width: i32,
    pub frame_height: i32,
    pub fps: i32,
}

impl CameraSettings {
    /// Dimensions and rate must be positive for the capture interval to be
    /// meaningful.
    pub open spec fn wf(&self) -> bool {
        self.frame_width >= 1 && self.frame_height >= 1 && self.fps >= 1
    }

    /// Bundles the capture settings for one camera.
    pub fn define_settings(frame_width: i32, frame_height: i32, fps: i32) -> (r: CameraSettings)
        requires
            frame_width >= 1,
            frame_height >= 1,
            fps >= 1,
        ensures
            r.frame_width == frame_width,
            r.frame_height == frame_height,
            r.fps == fps,
            r.wf(),
    {
        CameraSettings { frame_width, frame_height, fps }
    }
}

/// The inter-frame interval, in milliseconds, that a target frame rate
/// asks for.
pub open spec fn spec_capture_interval_ms(fps: i32) -> int {
    1000int / (fps as int)
}

/// Computes the inter-frame interval for a target frame rate.
pub fn capture_interval_ms(fps: i32) -> (r: u64)
    requires
        fps >= 1,
    ensures
        r == spec_capture_interval_ms(fps),
{
    (1000 / fps) as u64
}

/// One decision of the capture loop: read and publish a frame, then wait the
/// inter-frame interval; or, while inactive, only wait the coarse idle
/// interval before rechecking the flag.
#[derive(Clone, Copy, PartialEq, Eq, Structural, Debug)]
pub enum CaptureStep {
    Capture { delay_ms: u64 },
    Idle { delay_ms: u64 },
}

/// Server side of a camera device: the command handler owns the activation
/// flag, and the capture loop reads it through `capture_step` on every
/// iteration.
pub struct CameraServer {
    pub identity: DeviceIdentity,
    pub camera_id: i32,
    pub settings: CameraSettings,
    pub idle_poll_ms: u64,
    pub state: OnOffState,
}

/// What the capture loop does for one reading of the activation flag.
pub open spec fn spec_capture_step(server: CameraServer) -> CaptureStep {
    if server.state.active {
        CaptureStep::Capture { delay_ms: spec_capture_interval_ms(server.settings.fps) as u64 }
    } else {
        CaptureStep::Idle { delay_ms: server.idle_poll_ms }
    }
}

/// The same server with the activation flag set to the given reading.
pub open spec fn spec_with_flag(server: CameraServer, active: bool) -> CameraServer {
    CameraServer {
        state: OnOffState { active, policy: server.state.policy },
        ..server
    }
}

/// The capture-loop invariant: across any sequence of flag readings, a frame
/// is captured and published at exactly the iterations whose reading was
/// true — never while the flag is false — and every capture is followed by
/// the interval the configured frame rate asks for.
pub proof fn lemma_capture_gated(server: CameraServer, readings: Seq<bool>)
    requires
        server.settings.wf(),
    ensures
        forall|i: int|
            0 <= i < readings.len() ==> ((spec_capture_step(spec_with_flag(server, readings[i]))
                matches CaptureStep::Capture { .. }) <==> readings[i]),
        forall|i: int|
            0 <= i < readings.len() && readings[i] ==> spec_capture_step(
                spec_with_flag(server, readings[i]),
            ) == (CaptureStep::Capture {
                delay_ms: spec_capture_interval_ms(server.settings.fps) as u64,
            }),
{
}

impl CameraServer {
    pub open spec fn wf(&self) -> bool {
        self.settings.wf()
    }

    /// A camera starts inactive: no frame is produced before the first
    /// activating command. A repeated command is rejected with the distinct
    /// repeat message.
    pub fn new(subsystem: String, device: String, camera_id: i32, settings: CameraSettings) -> (r:
        CameraServer)
        requires
            settings.wf(),
        ensures
            r.identity.subsystem@ == subsystem@,
            r.identity.device@ == device@,
            r.camera_id == camera_id,
            r.settings == settings,
            r.idle_poll_ms == DEFAULT_IDLE_POLL_MS,
            r.state.active == false,
            r.state.policy is RejectRepeat,
            r.wf(),
    {
        CameraServer {
            identity: DeviceIdentity::new(subsystem, device),
            camera_id,
            settings,
            idle_poll_ms: DEFAULT_IDLE_POLL_MS,
            state: OnOffState { active: false, policy: RepeatPolicy::RejectRepeat },
        }
    }

    /// Handles one activation command: a change flips the flag the capture
    /// loop reads and succeeds; asking for the state the camera is already
    /// in changes nothing and is rejected with the repeat message.
    pub fn handle_command(&mut self, requested: bool) -> (r: CommandResponse)
        ensures
            final(self).identity == old(self).identity,
            final(self).camera_id == old(self).camera_id,
            final(self).settings == old(self).settings,
            final(self).idle_poll_ms == old(self).idle_poll_ms,
            final(self).state == spec_apply(old(self).state, requested),
            r.success == spec_success(old(self).state, requested),
            r.valid(),
            !spec_repeated(old(self).state, requested) ==> r.message@ == old(
                self,
            ).identity.device@ + " is now in requested state."@,
            spec_repeated(old(self).state, requested) ==> r.message@ == old(
                self,
            ).identity.device@ + " is already in requested state."@,
    {
        let transitioned = self.state.apply(requested);
        let mut message = String::from_str(self.identity.device.as_str());
        let success: bool;
        if transitioned {
            message.append(" is now in requested state.");
            success = true;
        } else {
            message.append(" is already in requested state.");
            success = match self.state.policy {
                RepeatPolicy::AcceptRepeat => true,
                RepeatPolicy::RejectRepeat => false,
            };
        }
        proof {
            reveal_strlit(" is now in requested state.");
            reveal_strlit(" is already in requested state.");
        }
        CommandResponse { success, message }
    }

    /// One capture-loop iteration, driven by the current activation flag:
    /// capture and publish only while active, idle otherwise.
    pub fn capture_step(&self) -> (r: CaptureStep)
        requires
            self.wf(),
        ensures
            r == spec_capture_step(*self),
            (r matches CaptureStep::Capture { .. }) <==> self.state.active,
    {
        if self.state.active {
            CaptureStep::Capture { delay_ms: capture_interval_ms(self.settings.fps) }
        } else {
            CaptureStep::Idle { delay_ms: self.idle_poll_ms }
        }
    }
}

/// Client-side frame keeper: holds only the most recently received frame.
/// Display is best-effort, never archival — an older frame is dropped the
/// moment a newer one arrives.
pub struct FrameStore {
    pub latest: Option<Frame>,
}

impl FrameStore {
    pub fn new() -> (r: FrameStore)
        ensures
            r.latest is None,
    {
        FrameStore { latest: None }
    }

    /// Takes in a newly received frame, discarding whatever was held before.
    pub fn receive(&mut self, frame: Frame)
        ensures
            final(self).latest == Some(frame),
    {
        self.latest = Some(frame);
    }

    /// Whether the held frame is renderable: only a frame with real width is
    /// handed to the display.
    pub fn should_display(&self) -> (r: bool)
        ensures
            r == match self.latest {
                Some(frame) => frame.width > 0,
                None => false,
            },
    {
        match &self.latest {
            Some(frame) => frame.width > 0,
            None => false,
        }
    }
}

} // verus!
