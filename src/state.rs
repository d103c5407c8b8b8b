use vstd::prelude::*;

verus! {

/// Progress of the client through its tunnel lifecycle.
///
/// `Stopping` can be entered from any state that is not `Terminated`;
/// `Terminated` is absorbing.
#[derive(Clone, Copy, Debug, PartialEq, Eq, Structural)]
pub enum ClientState {
    Idle,
    Connecting,
    Connected,
    LoggingIn,
    Tunneling,
    Stopping,
    Terminated,
}

impl ClientState {
    /// The state's name as it appears in logs and telemetry.
    pub open spec fn spec_name(self) -> Seq<char> {
        match self {
            ClientState::Idle => "Idle"@,
            ClientState::Connecting => "Connecting"@,
            ClientState::Connected => "Connected"@,
            ClientState::LoggingIn => "LoggingIn"@,
            ClientState::Tunneling => "Tunneling"@,
            ClientState::Stopping => "Stopping"@,
            ClientState::Terminated => "Terminated"@,
        }
    }

    /// True once shutdown has begun: workers must not reconnect.
    pub open spec fn spec_is_quitting(self) -> bool {
        self == ClientState::Stopping || self == ClientState::Terminated
    }

    /// Whether a move from `self` to `to` is taken. Shutdown is never undone
    /// nor repeated: from `Stopping` only `Terminated` follows, and nothing
    /// follows `Terminated`.
    pub open spec fn spec_allows(self, to: ClientState) -> bool {
        match self {
            ClientState::Terminated => false,
            ClientState::Stopping => to == ClientState::Terminated,
            _ => true,
        }
    }

    /// The state after a request to move to `to`: the request is taken when it
    /// is allowed, else the state is kept.
    pub open spec fn spec_after(self, to: ClientState) -> ClientState {
        if self.spec_allows(to) {
            to
        } else {
            self
        }
    }

    pub fn name(&self) -> (r: &'static str)
        ensures
            r@ == self.spec_name(),
    {
        match self {
            ClientState::Idle => "Idle",
            ClientState::Connecting => "Connecting",
            ClientState::Connected => "Connected",
            ClientState::LoggingIn => "LoggingIn",
            ClientState::Tunneling => "Tunneling",
            ClientState::Stopping => "Stopping",
            ClientState::Terminated => "Terminated",
        }
    }

    #[verifier::when_used_as_spec(spec_is_quitting)]
    pub fn is_quitting(self) -> (r: bool)
        ensures
            r == self.spec_is_quitting(),
    {
        match self {
            ClientState::Stopping | ClientState::Terminated => true,
            _ => false,
        }
    }

    #[verifier::when_used_as_spec(spec_allows)]
    pub fn allows(self, to: ClientState) -> (r: bool)
        ensures
            r == self.spec_allows(to),
    {
        match self {
            ClientState::Terminated => false,
            ClientState::Stopping => to == ClientState::Terminated,
            _ => true,
        }
    }

    #[verifier::when_used_as_spec(spec_after)]
    pub fn after(self, to: ClientState) -> (r: ClientState)
        ensures
            r == self.spec_after(to),
    {
        if self.allows(to) {
            to
        } else {
            self
        }
    }
}

/// Once `Terminated`, every later request leaves the state `Terminated`.
pub proof fn terminated_is_absorbing(to: ClientState)
    ensures
        ClientState::Terminated.spec_after(to) == ClientState::Terminated,
{
}

/// Any request issued after shutdown began keeps the client quitting.
pub proof fn quitting_is_kept(from: ClientState, to: ClientState)
    requires
        from.spec_is_quitting(),
    ensures
        from.spec_after(to).spec_is_quitting(),
{
}

} // verus!
