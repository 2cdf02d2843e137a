use vstd::prelude::*;
use crate::client::{interpret, report_line, ReplyMeaning};
use crate::packet::{address_reply, farewell_reply, farewell_text, Envelope};
use crate::server::{handle, next_state, publish, session, Effect, ServerState};

verus! {

/// A client that does not ask the server to stop is answered, on its own
/// reply capability, with an envelope that names the server's next endpoint
/// and does not terminate; the client reads it as that next address.
pub proof fn lemma_continuation_names_next_address<H>(request: Envelope<H>, address: Seq<char>)
    requires
        request.reply_to is Some,
        !request.terminate,
    ensures
        next_state(request) == Some(ServerState::AwaitingClient(request.reply_to->0)),
        publish(next_state(request)->0, address) == Effect::Send(
            request.reply_to->0,
            address_reply(address),
        ),
        !address_reply::<H>(address).terminate,
        address_reply::<H>(address).payload == address,
        interpret(address_reply::<H>(address)) == ReplyMeaning::NextAddress(address),
        report_line(interpret(address_reply::<H>(address))) == "New server name: "@ + address,
{
}

/// A client that asks the server to stop is answered, on its own reply
/// capability, with the terminating farewell; the server then exits and is
/// left with no state from which to publish another address.
pub proof fn lemma_stop_says_farewell_and_exits<H>(request: Envelope<H>)
    requires
        request.reply_to is Some,
        request.terminate,
    ensures
        handle(request) == seq![
            Effect::Emit(request.payload),
            Effect::Send(request.reply_to->0, farewell_reply()),
            Effect::Exit,
        ],
        next_state(request) is None,
        farewell_reply::<H>().terminate,
        farewell_reply::<H>().payload == farewell_text(),
        interpret(farewell_reply::<H>()) == ReplyMeaning::ShuttingDown(farewell_text()),
        report_line(interpret(farewell_reply::<H>())) == "Server is shutting down. "@
            + farewell_text(),
{
    assert(handle(request) =~= seq![
        Effect::Emit(request.payload),
        Effect::Send(request.reply_to->0, farewell_reply()),
        Effect::Exit,
    ]);
}

/// Whether every request of a list carries a reply capability and none asks
/// the server to stop.
pub open spec fn all_continue<H>(requests: Seq<Envelope<H>>) -> bool {
    forall|i: int|
        0 <= i < requests.len() ==> (#[trigger] requests[i]).reply_to is Some
            && !requests[i].terminate
}

/// Over a whole session of clients that do not ask to stop, the output
/// alternates: the payload of each client is written out, and then the
/// address of the next endpoint is sent to that same client; so the payload
/// of a client always comes before the address meant for the one after it.
pub proof fn lemma_session_orders_payload_before_next_address<H>(
    state: ServerState<H>,
    addresses: Seq<Seq<char>>,
    requests: Seq<Envelope<H>>,
)
    requires
        all_continue(requests),
        addresses.len() == requests.len() + 1,
    ensures
        session(state, addresses, requests).len() == 2 * requests.len() + 1,
        session(state, addresses, requests)[0] == publish(state, addresses[0]),
        forall|i: int|
            0 <= i < requests.len() ==> {
                &&& session(state, addresses, requests)[2 * i + 1] == Effect::<H>::Emit(
                    (#[trigger] requests[i]).payload,
                )
                &&& session(state, addresses, requests)[2 * i + 2] == Effect::Send(
                    requests[i].reply_to->0,
                    address_reply(addresses[i + 1]),
                )
            },
    decreases requests.len(),
{
    if requests.len() > 0 {
        let first = requests[0];
        let next = ServerState::AwaitingClient(first.reply_to->0);
        let rest_addresses = addresses.drop_first();
        let rest_requests = requests.drop_first();
        assert(all_continue(rest_requests)) by {
            assert forall|i: int| 0 <= i < rest_requests.len() implies (
            #[trigger] rest_requests[i]).reply_to is Some && !rest_requests[i].terminate by {
                assert(rest_requests[i] == requests[i + 1]);
            }
        }
        lemma_session_orders_payload_before_next_address(next, rest_addresses, rest_requests);
        let rest = session(next, rest_addresses, rest_requests);
        let whole = session(state, addresses, requests);
        assert(handle(first) =~= seq![Effect::<H>::Emit(first.payload)]);
        assert(whole =~= seq![publish(state, addresses[0]), Effect::Emit(first.payload)] + rest);
        assert forall|i: int| 0 <= i < requests.len() implies {
            &&& whole[2 * i + 1] == Effect::<H>::Emit((#[trigger] requests[i]).payload)
            &&& whole[2 * i + 2] == Effect::Send(
                requests[i].reply_to->0,
                address_reply(addresses[i + 1]),
            )
        } by {
            if i > 0 {
                assert(rest_requests[i - 1] == requests[i]);
                assert(rest_addresses[i] == addresses[i + 1]);
                assert(whole[2 * i + 1] == rest[2 * (i - 1) + 1]);
                assert(whole[2 * i + 2] == rest[2 * (i - 1) + 2]);
            }
        }
    }
}

/// In a session where the client at `k` is the first to ask the server to
/// stop, that client gets the farewell on its own reply capability, the
/// server exits, and nothing follows: no address past the endpoint it used
/// is ever published.
pub proof fn lemma_session_ends_at_stop<H>(
    state: ServerState<H>,
    addresses: Seq<Seq<char>>,
    requests: Seq<Envelope<H>>,
    k: int,
)
    requires
        0 <= k < requests.len(),
        k < addresses.len(),
        all_continue(requests.take(k)),
        requests[k].reply_to is Some,
        requests[k].terminate,
    ensures
        session(state, addresses, requests).len() == 2 * k + 4,
        session(state, addresses, requests)[2 * k + 1] == Effect::<H>::Emit(requests[k].payload),
        session(state, addresses, requests)[2 * k + 2] == Effect::Send(
            requests[k].reply_to->0,
            farewell_reply(),
        ),
        session(state, addresses, requests).last() == Effect::<H>::Exit,
        session(state, addresses, requests) == session(state, addresses.take(k + 1), requests),
    decreases k,
{
    let first = requests[0];
    let whole = session(state, addresses, requests);
    let cut = addresses.take(k + 1);
    if k == 0 {
        assert(handle(first) =~= seq![
            Effect::Emit(first.payload),
            Effect::Send(first.reply_to->0, farewell_reply()),
            Effect::Exit,
        ]);
        assert(whole =~= seq![publish(state, addresses[0])] + handle(first));
        assert(session(state, cut, requests) =~= seq![publish(state, cut[0])] + handle(first));
    } else {
        assert(requests.take(k)[0] == first);
        let next = ServerState::AwaitingClient(first.reply_to->0);
        let rest_addresses = addresses.drop_first();
        let rest_requests = requests.drop_first();
        assert(all_continue(rest_requests.take(k - 1))) by {
            assert forall|i: int| 0 <= i < rest_requests.take(k - 1).len() implies (
            #[trigger] rest_requests.take(k - 1)[i]).reply_to is Some
                && !rest_requests.take(k - 1)[i].terminate by {
                assert(rest_requests.take(k - 1)[i] == requests.take(k)[i + 1]);
            }
        }
        assert(rest_requests[k - 1] == requests[k]);
        lemma_session_ends_at_stop(next, rest_addresses, rest_requests, k - 1);
        let rest = session(next, rest_addresses, rest_requests);
        assert(handle(first) =~= seq![Effect::<H>::Emit(first.payload)]);
        assert(whole =~= seq![publish(state, addresses[0]), Effect::Emit(first.payload)] + rest);
        assert(cut.drop_first() =~= rest_addresses.take(k));
        assert(session(state, cut, requests) =~= seq![
            publish(state, cut[0]),
            Effect::Emit(first.payload),
        ] + session(next, cut.drop_first(), rest_requests));
        assert(whole[2 * k + 1] == rest[2 * (k - 1) + 1]);
        assert(whole[2 * k + 2] == rest[2 * (k - 1) + 2]);
    }
}

} // verus!
