use vstd::prelude::*;
use crate::packet::{address_reply, farewell_reply, Envelope, Packet};

verus! {

/// The server between two endpoints: before its first client, or holding the
/// reply capability of the client it served last.
pub enum ServerState<H> {
    AwaitingFirstClient,
    AwaitingClient(H),
}

/// The server with one endpoint open, waiting for the one envelope that the
/// endpoint accepts. Accepting consumes it, so no endpoint accepts twice.
pub struct Listening {
    pub address: String,
}

/// How the address of a freshly created endpoint is made known.
pub enum Publication<H> {
    /// The first endpoint: its address goes to the diagnostic output.
    ToOperator(String),
    /// A later endpoint: its address is sent to the previous client. Failure
    /// to deliver it is a warning, never fatal.
    ToClient { to: H, packet: Packet<H> },
}

/// What the server does once its endpoint has accepted an envelope, after it
/// has written the payload out.
pub enum Outcome<H> {
    /// Open the next endpoint and publish it to this client.
    Continue(ServerState<H>),
    /// Send the farewell on this client's own capability (a failure is a
    /// warning), then exit with success.
    Farewell { to: H, packet: Packet<H> },
    /// The client gave no reply capability: abort.
    MissingReplyHandle,
}

/// The result of accepting one envelope.
pub struct Accepted<H> {
    /// The payload, to be written to the primary output first.
    pub output: String,
    pub outcome: Outcome<H>,
}

/// An observable effect of the server, in the order in which it happens.
pub enum Effect<H> {
    Announce(Seq<char>),
    Send(H, Envelope<H>),
    Emit(Seq<char>),
    Exit,
    Abort,
}

/// The effect that publishes a new endpoint's address from a given state.
pub open spec fn publish<H>(state: ServerState<H>, address: Seq<char>) -> Effect<H> {
    match state {
        ServerState::AwaitingFirstClient => Effect::Announce(address),
        ServerState::AwaitingClient(h) => Effect::Send(h, address_reply(address)),
    }
}

/// The effects of accepting an envelope, in order.
pub open spec fn handle<H>(env: Envelope<H>) -> Seq<Effect<H>> {
    seq![Effect::Emit(env.payload)] + match env.reply_to {
        None => seq![Effect::Abort],
        Some(h) => if env.terminate {
            seq![Effect::Send(h, farewell_reply()), Effect::Exit]
        } else {
            Seq::empty()
        },
    }
}

/// The state after accepting an envelope, if the server goes on.
pub open spec fn next_state<H>(env: Envelope<H>) -> Option<ServerState<H>> {
    match env.reply_to {
        Some(h) if !env.terminate => Some(ServerState::AwaitingClient(h)),
        _ => None,
    }
}

/// The effects of a whole session from `state`: each iteration opens the
/// endpoint at the next of `addresses`, publishes it, and accepts the next of
/// `requests`. The session ends when the server stops or the inputs run out.
pub open spec fn session<H>(
    state: ServerState<H>,
    addresses: Seq<Seq<char>>,
    requests: Seq<Envelope<H>>,
) -> Seq<Effect<H>>
    decreases addresses.len(),
{
    if addresses.len() == 0 {
        Seq::empty()
    } else if requests.len() == 0 {
        seq![publish(state, addresses[0])]
    } else {
        seq![publish(state, addresses[0])] + handle(requests[0]) + match next_state(requests[0]) {
            Some(next) => session(next, addresses.drop_first(), requests.drop_first()),
            None => Seq::empty(),
        }
    }
}

impl<H> Publication<H> {
    pub open spec fn effect(&self) -> Effect<H> {
        match self {
            Publication::ToOperator(a) => Effect::Announce(a@),
            Publication::ToClient { to, packet } => Effect::Send(*to, packet@),
        }
    }
}

impl<H> Accepted<H> {
    pub open spec fn effects(&self) -> Seq<Effect<H>> {
        seq![Effect::Emit(self.output@)] + match self.outcome {
            Outcome::Continue(_) => Seq::empty(),
            Outcome::Farewell { to, packet } => seq![Effect::Send(to, packet@), Effect::Exit],
            Outcome::MissingReplyHandle => seq![Effect::Abort],
        }
    }

    pub open spec fn next(&self) -> Option<ServerState<H>> {
        match self.outcome {
            Outcome::Continue(s) => Some(s),
            _ => None,
        }
    }
}

impl<H> ServerState<H> {
    /// A server that has not yet opened an endpoint.
    pub fn new() -> (r: Self)
        ensures
            r == ServerState::<H>::AwaitingFirstClient,
    {
        ServerState::AwaitingFirstClient
    }

    /// Records that a new endpoint was created at `address`, and says how
    /// its address is published: to the operator the first time, and
    /// afterwards to the previous client, whose capability is used up.
    pub fn open_endpoint(self, address: String) -> (r: (Listening, Publication<H>))
        ensures
            r.0.address@ == address@,
            r.1.effect() == publish(self, address@),
    {
        let published = address.clone();
        let publication = match self {
            ServerState::AwaitingFirstClient => Publication::ToOperator(published),
            ServerState::AwaitingClient(h) => Publication::ToClient {
                to: h,
                packet: Packet::address(published),
            },
        };
        (Listening { address }, publication)
    }
}

impl Listening {
    /// Handles the one envelope that this endpoint accepted: its payload is
    /// written out, and its own reply capability becomes the one the server
    /// answers on, with the next address or, when it asks to stop, with the
    /// farewell.
    pub fn accept<H>(self, packet: Packet<H>) -> (r: Accepted<H>)
        ensures
            r.effects() == handle(packet@),
            r.next() == next_state(packet@),
    {
        let Packet { data, stop, sender } = packet;
        let outcome = match sender {
            None => Outcome::MissingReplyHandle,
            Some(h) => if stop {
                Outcome::Farewell { to: h, packet: Packet::farewell() }
            } else {
                Outcome::Continue(ServerState::AwaitingClient(h))
            },
        };
        let r = Accepted { output: data, outcome };
        proof {
            assert(r.effects() =~= handle(packet@));
        }
        r
    }
}

} // verus!
