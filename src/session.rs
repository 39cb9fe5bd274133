use vstd::prelude::*;

verus! {

/// The state of the messaging session as its manager last saw it.
#[derive(Clone, Copy, Debug, PartialEq, Eq, Structural)]
pub enum SessionState {
    Disconnected,
    Connected,
}

/// A connection-lifecycle notification from the messaging transport.
#[derive(Clone, Copy, Debug, PartialEq, Eq, Structural)]
pub enum Notification {
    Connected,
    Disconnected,
    Other,
}

/// The state after one read from the transport; `None` is a failed read,
/// which is transient and changes nothing.
pub open spec fn session_state_after(s: SessionState, read: Option<Notification>) -> SessionState {
    match read {
        Some(Notification::Connected) => SessionState::Connected,
        Some(Notification::Disconnected) => SessionState::Disconnected,
        _ => s,
    }
}

/// Reflects the liveness of the messaging session into a health flag. It
/// issues no reconnect of its own: the transport retries by itself.
#[derive(Clone, Copy, Debug, PartialEq, Eq, Structural)]
pub struct SessionManager {
    pub state: SessionState,
}

impl SessionManager {
    /// A manager in its initial state, `Disconnected`.
    pub fn new() -> (r: SessionManager)
        ensures
            r.state == SessionState::Disconnected,
    {
        SessionManager { state: SessionState::Disconnected }
    }

    /// Whether the session is up.
    pub fn is_up(&self) -> (r: bool)
        ensures
            r == (self.state == SessionState::Connected),
    {
        match self.state {
            SessionState::Connected => true,
            SessionState::Disconnected => false,
        }
    }

    /// Handles one read from the transport and returns the value to publish
    /// as the session health flag.
    pub fn on_read(&mut self, read: Option<Notification>) -> (up: bool)
        ensures
            final(self).state == session_state_after(old(self).state, read),
            up == (final(self).state == SessionState::Connected),
    {
        match read {
            Some(Notification::Connected) => {
                self.state = SessionState::Connected;
            },
            Some(Notification::Disconnected) => {
                self.state = SessionState::Disconnected;
            },
            _ => {},
        }
        self.is_up()
    }
}

} // verus!
