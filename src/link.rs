use vstd::prelude::*;

verus! {

/// The state of the wireless link as the supervisor last saw it.
#[derive(Clone, Copy, Debug, PartialEq, Eq, Structural)]
pub enum LinkState {
    Down,
    Up,
}

/// What one supervising cycle tells its caller to do: the value to publish
/// as the link health flag, and whether to issue a reconnect command.
#[derive(Clone, Copy, Debug, PartialEq, Eq, Structural)]
pub struct LinkStep {
    pub link_up: bool,
    pub reconnect: bool,
}

/// The link is usable only when associated and holding a network address.
pub open spec fn link_ready(associated: bool, has_address: bool) -> bool {
    associated && has_address
}

/// Supervisor of the wireless link. It never terminates: each cycle reads the
/// status and either reports the link up or asks for a reconnect.
#[derive(Clone, Copy, Debug, PartialEq, Eq, Structural)]
pub struct LinkManager {
    pub state: LinkState,
}

impl LinkManager {
    /// A supervisor in its initial state, `Down`.
    pub fn new() -> (r: LinkManager)
        ensures
            r.state == LinkState::Down,
    {
        LinkManager { state: LinkState::Down }
    }

    /// Whether the supervisor last saw the link up.
    pub fn is_up(&self) -> (r: bool)
        ensures
            r == (self.state == LinkState::Up),
    {
        match self.state {
            LinkState::Up => true,
            LinkState::Down => false,
        }
    }

    /// One supervising cycle on the observed status. A failed reconnect
    /// needs no input here: the next cycle sees the link still down and asks
    /// again.
    pub fn step(&mut self, associated: bool, has_address: bool) -> (r: LinkStep)
        ensures
            final(self).state == if link_ready(associated, has_address) {
                LinkState::Up
            } else {
                LinkState::Down
            },
            r.link_up == link_ready(associated, has_address),
            r.reconnect == !link_ready(associated, has_address),
    {
        if associated && has_address {
            self.state = LinkState::Up;
            LinkStep { link_up: true, reconnect: false }
        } else {
            self.state = LinkState::Down;
            LinkStep { link_up: false, reconnect: true }
        }
    }
}

} // verus!
