use vstd::prelude::*;
use crate::packet::{Envelope, Packet};

verus! {

/// A remark on the command line that does not stop the client.
#[derive(PartialEq, Eq, Structural, Debug, Clone, Copy)]
pub enum ArgWarning {
    /// More arguments than expected; the count excludes the program name.
    TooManyArguments(usize),
    /// The optional second argument is not `stop`, so it is ignored.
    UnrecognizedSecondArgument,
}

/// The command line lacks the server address.
#[derive(PartialEq, Eq, Structural, Debug, Clone, Copy)]
pub enum UsageError {
    MissingServerName,
}

/// What a client run is asked to do.
pub struct ClientArgs {
    pub server_name: String,
    pub stop: bool,
    pub warnings: Vec<ArgWarning>,
}

/// The token that asks the server to stop.
pub open spec fn stop_token() -> Seq<char> {
    "stop"@
}

/// Whether a command line (program name first) asks the server to stop.
pub open spec fn asks_stop(args: Seq<Seq<char>>) -> bool {
    args.len() > 2 && args[2] == stop_token()
}

/// The warnings that a command line (program name first) earns, in order.
pub open spec fn arg_warnings(args: Seq<Seq<char>>) -> Seq<ArgWarning> {
    (if args.len() > 3 {
        seq![ArgWarning::TooManyArguments((args.len() - 1) as usize)]
    } else {
        Seq::empty()
    }) + (if args.len() > 2 && args[2] != stop_token() {
        seq![ArgWarning::UnrecognizedSecondArgument]
    } else {
        Seq::empty()
    })
}

/// The views of a list of strings.
pub open spec fn views(args: Seq<String>) -> Seq<Seq<char>> {
    args.map_values(|s: String| s@)
}

/// Reads a client command line: the program name, the server address, and
/// optionally `stop`. Anything past that is ignored with a warning.
pub fn parse_args(args: &Vec<String>) -> (r: Result<ClientArgs, UsageError>)
    ensures
        r is Err <==> args@.len() < 2,
        r is Err ==> r == Err::<ClientArgs, UsageError>(UsageError::MissingServerName),
        r matches Ok(a) ==> {
            &&& a.server_name@ == args@[1]@
            &&& a.stop == asks_stop(views(args@))
            &&& a.warnings@ == arg_warnings(views(args@))
        },
{
    if args.len() < 2 {
        return Err(UsageError::MissingServerName);
    }
    let ghost v = views(args@);
    let mut warnings: Vec<ArgWarning> = Vec::new();
    let mut stop = false;
    if args.len() > 2 {
        if args.len() > 3 {
            warnings.push(ArgWarning::TooManyArguments(args.len() - 1));
        }
        let token = String::from_str("stop");
        if args[2].eq(&token) {
            stop = true;
        } else {
            warnings.push(ArgWarning::UnrecognizedSecondArgument);
        }
    }
    assert(warnings@ =~= arg_warnings(v));
    Ok(ClientArgs { server_name: args[1].clone(), stop, warnings })
}

/// What a client learns from the server's reply.
pub enum ReplyOutcome {
    /// The address that the next client must use.
    NextAddress(String),
    /// The server is exiting; the text is its farewell.
    ShuttingDown(String),
}

/// The reply's meaning, on characters.
pub enum ReplyMeaning {
    NextAddress(Seq<char>),
    ShuttingDown(Seq<char>),
}

impl ReplyOutcome {
    pub open spec fn meaning(&self) -> ReplyMeaning {
        match self {
            ReplyOutcome::NextAddress(a) => ReplyMeaning::NextAddress(a@),
            ReplyOutcome::ShuttingDown(t) => ReplyMeaning::ShuttingDown(t@),
        }
    }

    /// The line that a client prints for this outcome.
    pub fn message(&self) -> (r: String)
        ensures
            r@ == report_line(self.meaning()),
    {
        match self {
            ReplyOutcome::NextAddress(a) => String::from_str("New server name: ").concat(a.as_str()),
            ReplyOutcome::ShuttingDown(t) => String::from_str("Server is shutting down. ").concat(
                t.as_str(),
            ),
        }
    }
}

/// How a reply envelope is read: a continuation names the next address, a
/// terminating one carries the farewell.
pub open spec fn interpret<H>(reply: Envelope<H>) -> ReplyMeaning {
    if reply.terminate {
        ReplyMeaning::ShuttingDown(reply.payload)
    } else {
        ReplyMeaning::NextAddress(reply.payload)
    }
}

/// The line a client prints for a reply.
pub open spec fn report_line(m: ReplyMeaning) -> Seq<char> {
    match m {
        ReplyMeaning::NextAddress(a) => "New server name: "@ + a,
        ReplyMeaning::ShuttingDown(t) => "Server is shutting down. "@ + t,
    }
}

/// Reads the server's reply.
pub fn interpret_reply<H>(reply: Packet<H>) -> (r: ReplyOutcome)
    ensures
        r.meaning() == interpret(reply@),
{
    if reply.stop {
        ReplyOutcome::ShuttingDown(reply.data)
    } else {
        ReplyOutcome::NextAddress(reply.data)
    }
}

/// The line a client prints once its request is sent.
pub fn sent_message(server_name: &str) -> (r: String)
    ensures
        r@ == "Packet successfully sent to "@ + server_name@,
{
    String::from_str("Packet successfully sent to ").concat(server_name)
}

} // verus!
