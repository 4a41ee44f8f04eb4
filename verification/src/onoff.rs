use vstd::prelude::*;
use crate::identity::DeviceIdentity;
use crate::response::CommandResponse;

verus! {

/// What a repeated command (one asking for the state the device is already
/// in) reports. The no-op itself is fixed — the hardware is never touched —
/// but whether the reply counts as a success is a per-device policy choice.
#[derive(Clone, Copy, PartialEq, Eq, Structural, Debug)]
pub enum RepeatPolicy {
    AcceptRepeat,
    RejectRepeat,
}

/// The hardware side effect of an accepted on/off transition.
#[derive(Clone, Copy, PartialEq, Eq, Structural, Debug)]
pub enum PinAction {
    SetHigh,
    SetLow,
}

/// The boolean state a device-side controller owns, together with its
/// repeat policy. All mutation happens inside the command handler, which the
/// bus serializes per device.
#[derive(Clone, Copy, PartialEq, Eq, Structural, Debug)]
pub struct OnOffState {
    pub active: bool,
    pub policy: RepeatPolicy,
}

/// The state after a command is handled: the device is in the requested
/// state afterwards, whether the command transitioned it or repeated it.
pub open spec fn spec_apply(s: OnOffState, requested: bool) -> OnOffState {
    OnOffState { active: requested, policy: s.policy }
}

/// A command repeats when it asks for the state the device is already in.
pub open spec fn spec_repeated(s: OnOffState, requested: bool) -> bool {
    s.active == requested
}

/// Whether the reply to a command reports success: transitions always do,
/// repeats only under the accepting policy.
pub open spec fn spec_success(s: OnOffState, requested: bool) -> bool {
    s.active != requested || s.policy is AcceptRepeat
}

/// The pin drive an on/off command asks for: one on a transition, none on a
/// repeat.
pub open spec fn spec_action(s: OnOffState, requested: bool) -> Option<PinAction> {
    if s.active != requested {
        if requested {
            Some(PinAction::SetHigh)
        } else {
            Some(PinAction::SetLow)
        }
    } else {
        None
    }
}

/// Sending the same boolean command twice in a row leaves the device in the
/// commanded state after both sends; the first send succeeds whenever it
/// changes the state, and the second is always the policy-defined repeat
/// reply.
pub proof fn lemma_repeat_command(s: OnOffState, b: bool)
    ensures
        spec_apply(s, b).active == b,
        spec_apply(spec_apply(s, b), b).active == b,
        s.active != b ==> spec_success(s, b),
        spec_repeated(spec_apply(s, b), b),
        spec_success(spec_apply(s, b), b) == (s.policy is AcceptRepeat),
        spec_action(spec_apply(s, b), b) is None,
{
}

impl OnOffState {
    /// Applies one command and reports whether it transitioned the state.
    pub fn apply(&mut self, requested: bool) -> (transitioned: bool)
        ensures
            *final(self) == spec_apply(*old(self), requested),
            transitioned == !spec_repeated(*old(self), requested),
    {
        let transitioned = self.active != requested;
        self.active = requested;
        transitioned
    }
}

/// Server side of a GPIO-backed on/off device: a named peripheral bound to
/// one output pin. The controller decides the transition; the pin drive it
/// asks for is returned as a value, to be performed at the hardware edge.
pub struct GPIOServer {
    pub identity: DeviceIdentity,
    pub pin_num: u8,
    pub state: OnOffState,
}

impl GPIOServer {
    /// A freshly constructed server starts with its pin driven low, so the
    /// device starts off.
    pub fn new(subsystem: String, device: String, pin_num: u8) -> (r: GPIOServer)
        ensures
            r.identity.subsystem@ == subsystem@,
            r.identity.device@ == device@,
            r.pin_num == pin_num,
            r.state.active == false,
            r.state.policy is AcceptRepeat,
    {
        GPIOServer {
            identity: DeviceIdentity::new(subsystem, device),
            pin_num,
            state: OnOffState { active: false, policy: RepeatPolicy::AcceptRepeat },
        }
    }

    /// Handles one on/off command: transitions the owned state, names the
    /// pin drive to perform, and words the reply. A repeated command leaves
    /// the pin untouched and, under this server's accepting policy, still
    /// reports success with the distinct repeat message.
    pub fn handle_command(&mut self, requested: bool) -> (r: (CommandResponse, Option<PinAction>))
        ensures
            final(self).identity == old(self).identity,
            final(self).pin_num == old(self).pin_num,
            final(self).state == spec_apply(old(self).state, requested),
            r.0.success == spec_success(old(self).state, requested),
            r.1 == spec_action(old(self).state, requested),
            r.0.valid(),
            !spec_repeated(old(self).state, requested) && requested ==> r.0.message@ == old(
                self,
            ).identity.device@ + " is on."@,
            !spec_repeated(old(self).state, requested) && !requested ==> r.0.message@ == old(
                self,
            ).identity.device@ + " is off."@,
            spec_repeated(old(self).state, requested) ==> r.0.message@ == old(
                self,
            ).identity.device@ + " is already in requested state."@,
    {
        let transitioned = self.state.apply(requested);
        let mut message = String::from_str(self.identity.device.as_str());
        let action: Option<PinAction>;
        let success: bool;
        if transitioned {
            if requested {
                message.append(" is on.");
                action = Some(PinAction::SetHigh);
            } else {
                message.append(" is off.");
                action = Some(PinAction::SetLow);
            }
            success = true;
        } else {
            message.append(" is already in requested state.");
            action = None;
            success = match self.state.policy {
                RepeatPolicy::AcceptRepeat => true,
                RepeatPolicy::RejectRepeat => false,
            };
        }
        proof {
            reveal_strlit(" is on.");
            reveal_strlit(" is off.");
            reveal_strlit(" is already in requested state.");
        }
        (CommandResponse { success, message }, action)
    }
}

} // verus!
