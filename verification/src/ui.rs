use vstd::prelude::*;

verus! {

/// What the status display shows of one member.
pub struct MemberState {
    pub connected: bool,
    pub autoproxied: bool,
}

/// What a system reports to the status display.
pub enum SystemUiEvent {
    SystemClose,
    /// The member now autoproxied, or none.
    MemberAutoproxy(Option<String>),
    GatewayDisconnect(String),
    GatewayConnect(String),
    LogLine(String),
}

} // verus!
