use vstd::prelude::*;

verus! {

/// Which endpoint of the telemetry service to target: a team number and a port.
#[derive(Clone, Copy, Debug, PartialEq, Eq, Structural)]
pub struct ConnectionIdentity {
    pub team: u32,
    pub port: u32,
}

/// Holds the target identity and hands it to the telemetry service on reconnect.
///
/// Setting the identity has no outside effect; `reconnect` returns the identity
/// that the caller forwards to the service's target-set call.
pub struct ConnectionController {
    identity: ConnectionIdentity,
}

impl View for ConnectionController {
    type V = ConnectionIdentity;

    closed spec fn view(&self) -> ConnectionIdentity {
        self.identity
    }
}

/// The identity held after `set_identity(team, port)`, whatever was held before.
pub open spec fn after_set(held: ConnectionIdentity, team: u32, port: u32) -> ConnectionIdentity {
    ConnectionIdentity { team, port }
}

/// The identity held after a sequence of `set_identity` calls, in order,
/// starting from `held`.
pub open spec fn after_sets(held: ConnectionIdentity, sets: Seq<(u32, u32)>) -> ConnectionIdentity
    decreases sets.len(),
{
    if sets.len() == 0 {
        held
    } else {
        after_set(after_sets(held, sets.drop_last()), sets.last().0, sets.last().1)
    }
}

/// After one or more `set_identity` calls, `reconnect` forwards the identity
/// given by the last of them, whatever was held before.
pub proof fn lemma_reconnect_forwards_last_identity(held: ConnectionIdentity, sets: Seq<(u32, u32)>)
    requires
        sets.len() > 0,
    ensures
        after_sets(held, sets) == (ConnectionIdentity { team: sets.last().0, port: sets.last().1 }),
{
}

impl ConnectionController {
    pub fn new(team: u32, port: u32) -> (r: Self)
        ensures
            r@ == (ConnectionIdentity { team, port }),
    {
        ConnectionController { identity: ConnectionIdentity { team, port } }
    }

    pub fn identity(&self) -> (r: ConnectionIdentity)
        ensures
            r == self@,
    {
        self.identity
    }

    /// Replaces the stored identity; nothing is sent until `reconnect`.
    pub fn set_identity(&mut self, team: u32, port: u32)
        ensures
            final(self)@ == after_set(old(self)@, team, port),
    {
        self.identity = ConnectionIdentity { team, port };
    }

    /// The identity to forward to the service's connect call.
    pub fn reconnect(&self) -> (r: ConnectionIdentity)
        ensures
            r == self@,
    {
        self.identity
    }
}

} // verus!
