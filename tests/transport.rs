use ipc_channel::ipc::{self, IpcOneShotServer, IpcReceiver, IpcSender};
use multi_ipc::{interpret_reply, parse_args, Outcome, Packet, Publication, ServerState, FAREWELL};

type Reply = (String, bool);
type Request = (String, bool, Option<IpcSender<Reply>>);

fn command_line(items: &[&str]) -> Vec<String> {
    items.iter().map(|s| s.to_string()).collect()
}

/// Client side: reads the command line, connects and sends the request.
fn client_send(argv: &[&str], payload: &str) -> Result<IpcReceiver<Reply>, String> {
    let cargs = parse_args(&command_line(argv)).ok().unwrap();
    let target = IpcSender::<Request>::connect(cargs.server_name.clone())
        .map_err(|e| e.to_string())?;
    let (tx, rx) = ipc::channel::<Reply>().unwrap();
    let request = Packet::request(payload.to_string(), cargs.stop, tx);
    target.send((request.data, request.stop, request.sender)).unwrap();
    Ok(rx)
}

/// Client side: receives the reply and renders it.
fn client_report(rx: IpcReceiver<Reply>) -> (bool, String) {
    let (data, stop) = rx.recv().unwrap();
    let reply: Packet<()> = Packet { data, stop, sender: None };
    (stop, interpret_reply(reply).message())
}

/// Server side: accepts one envelope on an endpoint.
fn server_accept(
    server: IpcOneShotServer<Request>,
    listening: multi_ipc::Listening,
) -> multi_ipc::Accepted<IpcSender<Reply>> {
    let (_, (data, stop, sender)) = server.accept().unwrap();
    listening.accept(Packet { data, stop, sender })
}

fn send_publication(publication: Publication<IpcSender<Reply>>) {
    match publication {
        Publication::ToClient { to, packet } => to.send((packet.data, packet.stop)).unwrap(),
        Publication::ToOperator(_) => panic!("expected a client to publish to"),
    }
}

#[test]
fn scenario_hello_then_bye() {
    let (server1, a1) = IpcOneShotServer::<Request>::new().unwrap();
    let (listening, publication) = ServerState::<IpcSender<Reply>>::new().open_endpoint(a1.clone());
    assert!(matches!(publication, Publication::ToOperator(ref a) if *a == a1));

    let rx = client_send(&["client", &a1], "hello\n").unwrap();
    let accepted = server_accept(server1, listening);
    assert_eq!(accepted.output, "hello\n");
    let state = match accepted.outcome {
        Outcome::Continue(s) => s,
        _ => panic!("server must go on"),
    };
    let (server2, a2) = IpcOneShotServer::<Request>::new().unwrap();
    let (listening, publication) = state.open_endpoint(a2.clone());
    send_publication(publication);
    let (stop, line) = client_report(rx);
    assert!(!stop);
    assert_eq!(line, format!("New server name: {}", a2));
    assert_ne!(a1, a2);

    let rx = client_send(&["client", &a2, "stop"], "bye\n").unwrap();
    let accepted = server_accept(server2, listening);
    assert_eq!(accepted.output, "bye\n");
    match accepted.outcome {
        Outcome::Farewell { to, packet } => {
            assert_eq!(packet.data, FAREWELL);
            to.send((packet.data, packet.stop)).unwrap();
        }
        _ => panic!("server must say farewell"),
    }
    let (stop, line) = client_report(rx);
    assert!(stop);
    assert_eq!(line, "Server is shutting down. Goodbye fellow Rustaceans!");
}

#[test]
fn scenario_consumed_address_refuses_second_client() {
    let (server, a1) = IpcOneShotServer::<Request>::new().unwrap();
    let (listening, _) = ServerState::<IpcSender<Reply>>::new().open_endpoint(a1.clone());
    let _rx = client_send(&["client", &a1], "first\n").unwrap();
    let accepted = server_accept(server, listening);
    assert_eq!(accepted.output, "first\n");
    assert!(client_send(&["client", &a1], "second\n").is_err());
}

#[test]
fn scenario_empty_payload() {
    let (server, a1) = IpcOneShotServer::<Request>::new().unwrap();
    let (listening, _) = ServerState::<IpcSender<Reply>>::new().open_endpoint(a1.clone());
    let rx = client_send(&["client", &a1], "").unwrap();
    let accepted = server_accept(server, listening);
    assert_eq!(accepted.output, "");
    let state = match accepted.outcome {
        Outcome::Continue(s) => s,
        _ => panic!("server must go on"),
    };
    let (_server2, a2) = IpcOneShotServer::<Request>::new().unwrap();
    let (_, publication) = state.open_endpoint(a2.clone());
    send_publication(publication);
    let (stop, line) = client_report(rx);
    assert!(!stop);
    assert_eq!(line, format!("New server name: {}", a2));
}

#[test]
fn endpoints_have_distinct_addresses() {
    let (_s1, a1) = IpcOneShotServer::<Request>::new().unwrap();
    let (_s2, a2) = IpcOneShotServer::<Request>::new().unwrap();
    assert_ne!(a1, a2);
}
