use vstd::prelude::*;

verus! {

/// What the rendezvous loop observed: a user connection arrived on the
/// public listener; a reverse-tunnel candidate completed authentication; a
/// candidate failed authentication and was dropped; or an accept itself
/// failed.
#[derive(Clone, Copy, Debug, PartialEq, Eq, Structural)]
pub enum ServerEvent {
    UserArrived,
    TunnelAuthenticated,
    TunnelRejected,
    AcceptFailed,
}

/// What the rendezvous loop must do next: await the next user connection;
/// await (and authenticate) the next reverse-tunnel candidate; or send the
/// bridge signal to the authenticated tunnel and splice it against the
/// pending user.
#[derive(Clone, Copy, Debug, PartialEq, Eq, Structural)]
pub enum ServerAction {
    AwaitUser,
    AwaitTunnelCandidate,
    SignalAndSplice,
}

/// The phase the scheduler is in after an event: holding a pending user
/// exactly when one arrived and has not been paired yet.
pub open spec fn server_next_pending(has_user: bool, ev: ServerEvent) -> bool {
    if has_user {
        !(ev is TunnelAuthenticated)
    } else {
        ev is UserArrived
    }
}

/// The action the scheduler takes on an event: a pairing happens exactly
/// when a user is pending and a tunnel authenticates; a rejected candidate
/// or a failed accept never pairs and never stops the loop — the same await
/// is simply issued again.
pub open spec fn server_action_of(has_user: bool, ev: ServerEvent) -> ServerAction {
    if has_user {
        if ev is TunnelAuthenticated {
            ServerAction::SignalAndSplice
        } else {
            ServerAction::AwaitTunnelCandidate
        }
    } else {
        if ev is UserArrived {
            ServerAction::AwaitTunnelCandidate
        } else {
            ServerAction::AwaitUser
        }
    }
}

/// The rendezvous scheduler: pairs inbound user connections with
/// authenticated reverse tunnels, one at a time. A user is awaited first;
/// only then are tunnel candidates awaited, so an idle tunnel's signal is
/// never written against a stalled user accept. Users are consumed in accept
/// order and tunnels in authentication-completion order, one of each per
/// pairing; candidates that fail authentication are dropped silently, and a
/// failed accept is local — the loop goes on. The caller performs the
/// accepts, handshakes, writes and splices, and hands back what it observed.
pub struct ServerDriver {
    user_pending: bool,
    users: Ghost<int>,
    tunnels: Ghost<int>,
    pairs: Ghost<int>,
}

impl ServerDriver {
    /// Whether a user connection is pending, waiting for a tunnel.
    pub closed spec fn has_user(&self) -> bool {
        self.user_pending
    }

    /// How many user connections the scheduler has admitted.
    pub closed spec fn users(&self) -> int {
        self.users@
    }

    /// How many authenticated tunnels the scheduler has consumed.
    pub closed spec fn tunnels(&self) -> int {
        self.tunnels@
    }

    /// How many user/tunnel pairs the scheduler has formed.
    pub closed spec fn pairs(&self) -> int {
        self.pairs@
    }

    /// The pairing discipline: every consumed tunnel made exactly one pair,
    /// and every admitted user is either paired already or the one user
    /// still pending — no user or tunnel is buffered, dropped or reordered.
    pub open spec fn wf(&self) -> bool {
        &&& self.pairs() >= 0
        &&& self.tunnels() == self.pairs()
        &&& self.users() == self.pairs() + if self.has_user() {
            1int
        } else {
            0int
        }
    }

    /// A fresh scheduler: nothing admitted, nothing paired.
    pub fn new() -> (d: ServerDriver)
        ensures
            !d.has_user(),
            d.users() == 0,
            d.tunnels() == 0,
            d.pairs() == 0,
            d.wf(),
    {
        ServerDriver { user_pending: false, users: Ghost(0), tunnels: Ghost(0), pairs: Ghost(0) }
    }

    /// What to await next between events: a user while none is pending, a
    /// tunnel candidate while one is.
    pub fn next_action(&self) -> (a: ServerAction)
        ensures
            a == (if self.has_user() {
                ServerAction::AwaitTunnelCandidate
            } else {
                ServerAction::AwaitUser
            }),
    {
        if self.user_pending {
            ServerAction::AwaitTunnelCandidate
        } else {
            ServerAction::AwaitUser
        }
    }

    /// Advance the scheduler by one observed event and say what to do next.
    /// A pairing is formed exactly when a user was pending and a tunnel
    /// authenticated; rejected candidates and failed accepts change nothing
    /// and never end the loop.
    pub fn step(&mut self, ev: ServerEvent) -> (a: ServerAction)
        requires
            old(self).wf(),
        ensures
            a == server_action_of(old(self).has_user(), ev),
            final(self).has_user() == server_next_pending(old(self).has_user(), ev),
            (a is SignalAndSplice) <==> (old(self).has_user() && ev is TunnelAuthenticated),
            final(self).pairs() == old(self).pairs() + (if a is SignalAndSplice {
                1int
            } else {
                0int
            }),
            final(self).tunnels() == old(self).tunnels() + (if a is SignalAndSplice {
                1int
            } else {
                0int
            }),
            final(self).users() == old(self).users() + (if !old(self).has_user()
                && ev is UserArrived {
                1int
            } else {
                0int
            }),
            (ev is TunnelRejected || ev is AcceptFailed) ==> final(self).has_user() == old(
                self,
            ).has_user() && !(a is SignalAndSplice),
            final(self).wf(),
    {
        if self.user_pending {
            match ev {
                ServerEvent::TunnelAuthenticated => {
                    self.user_pending = false;
                    self.tunnels = Ghost(self.tunnels@ + 1);
                    self.pairs = Ghost(self.pairs@ + 1);
                    ServerAction::SignalAndSplice
                },
                _ => ServerAction::AwaitTunnelCandidate,
            }
        } else {
            match ev {
                ServerEvent::UserArrived => {
                    self.user_pending = true;
                    self.users = Ghost(self.users@ + 1);
                    ServerAction::AwaitTunnelCandidate
                },
                _ => ServerAction::AwaitUser,
            }
        }
    }
}

/// The client driver's position in its ladder: dialing the rendezvous,
/// running the handshake, awaiting the bridge signal, or dialing the local
/// target.
#[derive(Clone, Copy, Debug, PartialEq, Eq, Structural)]
pub enum ClientPhase {
    Dialing,
    Handshaking,
    AwaitingSignal,
    DialingTarget,
}

/// The ladder's transition: any failure abandons the tunnel and returns to a
/// fresh dial at once; each success advances one rung, and a completed
/// target dial (the splice is spawned fire-and-forget) returns to a fresh
/// dial as well.
pub open spec fn client_next_spec(phase: ClientPhase, ok: bool) -> ClientPhase {
    if !ok {
        ClientPhase::Dialing
    } else {
        match phase {
            ClientPhase::Dialing => ClientPhase::Handshaking,
            ClientPhase::Handshaking => ClientPhase::AwaitingSignal,
            ClientPhase::AwaitingSignal => ClientPhase::DialingTarget,
            ClientPhase::DialingTarget => ClientPhase::Dialing,
        }
    }
}

/// Advance the client driver by one rung, given whether the rung's outside
/// work succeeded. No failure stops the driver: it retries from a fresh dial
/// immediately, for the life of the process.
pub fn client_next(phase: ClientPhase, ok: bool) -> (next: ClientPhase)
    ensures
        next == client_next_spec(phase, ok),
        !ok ==> next is Dialing,
        ok && phase is Dialing ==> next is Handshaking,
        ok && phase is Handshaking ==> next is AwaitingSignal,
        ok && phase is AwaitingSignal ==> next is DialingTarget,
        ok && phase is DialingTarget ==> next is Dialing,
{
    if !ok {
        ClientPhase::Dialing
    } else {
        match phase {
            ClientPhase::Dialing => ClientPhase::Handshaking,
            ClientPhase::Handshaking => ClientPhase::AwaitingSignal,
            ClientPhase::AwaitingSignal => ClientPhase::DialingTarget,
            ClientPhase::DialingTarget => ClientPhase::Dialing,
        }
    }
}

} // verus!
