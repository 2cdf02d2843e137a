use vstd::prelude::*;

verus! {

/// The text that a server sends to the client that asked it to stop.
pub const FAREWELL: &'static str = "Goodbye fellow Rustaceans!";

/// The message carried over every hop of the protocol.
///
/// `H` is the transport's send capability for a reply channel. It is present
/// on client-to-server envelopes and absent on server-to-client ones.
pub struct Packet<H> {
    pub data: String,
    pub stop: bool,
    pub sender: Option<H>,
}

/// The mathematical content of a [`Packet`].
pub struct Envelope<H> {
    pub payload: Seq<char>,
    pub terminate: bool,
    pub reply_to: Option<H>,
}

impl<H> View for Packet<H> {
    type V = Envelope<H>;

    open spec fn view(&self) -> Envelope<H> {
        Envelope { payload: self.data@, terminate: self.stop, reply_to: self.sender }
    }
}

/// The farewell text as characters.
pub open spec fn farewell_text() -> Seq<char> {
    FAREWELL@
}

/// What a server sends to announce the address of its next endpoint.
pub open spec fn address_reply<H>(address: Seq<char>) -> Envelope<H> {
    Envelope { payload: address, terminate: false, reply_to: None }
}

/// What a server sends just before it exits.
pub open spec fn farewell_reply<H>() -> Envelope<H> {
    Envelope { payload: farewell_text(), terminate: true, reply_to: None }
}

impl<H> Packet<H> {
    /// A client's request: its payload, whether the server should stop, and
    /// the capability on which the server answers.
    pub fn request(data: String, stop: bool, reply_to: H) -> (r: Self)
        ensures
            r@ == (Envelope { payload: data@, terminate: stop, reply_to: Some(reply_to) }),
    {
        Packet { data, stop, sender: Some(reply_to) }
    }

    /// The server's answer that names the endpoint the next client must use.
    pub fn address(address: String) -> (r: Self)
        ensures
            r@ == address_reply::<H>(address@),
    {
        Packet { data: address, stop: false, sender: None }
    }

    /// The server's last answer, sent to the client that asked it to stop.
    pub fn farewell() -> (r: Self)
        ensures
            r@ == farewell_reply::<H>(),
    {
        Packet { data: String::from_str(FAREWELL), stop: true, sender: None }
    }
}

} // verus!
