use vstd::prelude::*;

verus! {

/// Reply to an on/off command. A rejected command always explains itself:
/// an empty message may ride along only with success.
pub struct CommandResponse {
    pub success: bool,
    pub message: String,
}

impl CommandResponse {
    pub open spec fn valid(&self) -> bool {
        !self.success ==> self.message@.len() > 0
    }
}

/// Reply to a position command. `position` is where the stage stands when
/// the reply is issued, whether or not the move was accepted.
pub struct PositionResponse {
    pub success: bool,
    pub message: String,
    pub position: i32,
}

impl PositionResponse {
    pub open spec fn valid(&self) -> bool {
        !self.success ==> self.message@.len() > 0
    }
}

} // verus!
