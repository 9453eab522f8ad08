use signald_rust::signald::Signald;
use signald_rust::signaldresponse::{ResponseType, SignaldResponse};
use signald_rust::socket::TestSignaldSocket;

fn heartbeat() -> SignaldResponse {
    SignaldResponse {
        id: None,
        data: ResponseType::BusUpdate,
    }
}

fn subscribed_with_id(id: &str) -> SignaldResponse {
    SignaldResponse {
        id: Some(id.to_string()),
        data: ResponseType::Subscribed,
    }
}

#[test]
fn subscribe_scenario_acknowledged() {
    let mut socket = TestSignaldSocket::new(16);
    socket.push_script(subscribed_with_id("0"));
    let mut signald = Signald::new(socket);

    let res = signald
        .subscribe("+15550001".to_string())
        .expect("the acknowledgment should arrive within the deadline");
    assert!(matches!(res.data, ResponseType::Subscribed));
    assert_eq!(res.id.unwrap(), "0");

    assert_eq!(signald.socket.sent.len(), 1);
    assert_eq!(
        signald.socket.sent[0],
        "{\"type\":\"subscribe\",\"username\":\"+15550001\",\"id\":\"0\"}"
    );
}

#[test]
fn list_contacts_scenario_matched_by_id() {
    let mut socket = TestSignaldSocket::new(16);
    socket.push_script(subscribed_with_id("0"));
    let mut signald = Signald::new(socket);
    signald.subscribe("+15550001".to_string()).unwrap();

    let line = r#"{"type":"contact_list","id":"1","data":[{"name":"AAAAA","number":"+32111111111","color":"blue_grey","profileKey":"11111="}]}"#;
    let reply = SignaldResponse::from_line(line).unwrap();
    signald.socket.push_script(heartbeat());
    signald.socket.push_script(reply);

    let res = signald
        .list_contacts("+15550001".to_string())
        .expect("the contact list should arrive within the deadline");
    assert_eq!(res.id.clone().unwrap(), "1");
    match res.data {
        ResponseType::ContactList(accounts) => {
            assert_eq!(accounts[0].name, "AAAAA");
        }
        _ => panic!("Received wrong response type"),
    }
    assert_eq!(
        signald.socket.sent[1],
        "{\"type\":\"list_contacts\",\"username\":\"+15550001\",\"id\":\"1\"}"
    );
}

#[test]
fn list_contacts_times_out_despite_heartbeats() {
    let socket = TestSignaldSocket::new(16);
    let mut signald = Signald::new(socket);
    // Two earlier requests, so the next correlation identifier is "2".
    signald.sync_contacts("+15550001".to_string());
    signald.sync_contacts("+15550001".to_string());
    // Only heartbeats arrive; no response ever carries id "2".
    for _ in 0..4 {
        signald.socket.push_script(heartbeat());
    }

    let start = std::time::Instant::now();
    let res = signald.list_contacts("+15550001".to_string());
    let waited = start.elapsed().as_millis();

    assert!(res.is_err());
    assert!(waited >= 2900, "timed out too early: {}ms", waited);
    assert!(waited < 3990, "timed out too late: {}ms", waited);
    assert_eq!(
        signald.socket.sent[2],
        "{\"type\":\"list_contacts\",\"username\":\"+15550001\",\"id\":\"2\"}"
    );
}

#[test]
fn wait_times_out_on_silent_stream() {
    let socket = TestSignaldSocket::new(16);
    let mut signald = Signald::new(socket);

    let start = std::time::Instant::now();
    let res = signald.subscribe("+15550001".to_string());
    let waited = start.elapsed().as_millis();

    assert!(res.is_err());
    assert!(waited >= 2900, "timed out too early: {}ms", waited);
    assert!(waited < 3990, "timed out too late: {}ms", waited);
}

#[test]
fn wait_skips_heartbeats_and_foreign_identifiers() {
    let mut socket = TestSignaldSocket::new(16);
    socket.push_script(heartbeat());
    socket.push_script(subscribed_with_id("999"));
    socket.push_script(subscribed_with_id("0"));
    let mut signald = Signald::new(socket);

    let res = signald.subscribe("+15550001".to_string()).unwrap();
    assert_eq!(res.id.unwrap(), "0");
}

#[test]
fn subscribe_skips_right_id_of_the_wrong_kind() {
    // A response carrying the right identifier but not the `subscribed`
    // acknowledgment is a partial match and is skipped.
    let mut socket = TestSignaldSocket::new(16);
    socket.push_script(SignaldResponse {
        id: Some("0".to_string()),
        data: ResponseType::Unsubscribed,
    });
    socket.push_script(subscribed_with_id("0"));
    let mut signald = Signald::new(socket);

    let res = signald.subscribe("+15550001".to_string()).unwrap();
    assert!(matches!(res.data, ResponseType::Subscribed));
    assert_eq!(res.id.unwrap(), "0");
}

#[test]
fn unsubscribe_scenario_acknowledged() {
    let mut socket = TestSignaldSocket::new(16);
    socket.push_script(SignaldResponse {
        id: Some("0".to_string()),
        data: ResponseType::Unsubscribed,
    });
    let mut signald = Signald::new(socket);

    let res = signald.unsubscribe("+15550001".to_string()).unwrap();
    assert!(matches!(res.data, ResponseType::Unsubscribed));
    assert_eq!(res.id.unwrap(), "0");
    assert_eq!(
        signald.socket.sent[0],
        "{\"type\":\"unsubscribe\",\"username\":\"+15550001\",\"id\":\"0\"}"
    );
}

#[test]
fn wait_takes_own_match_whatever_the_order() {
    let mut socket = TestSignaldSocket::new(16);
    socket.push_script(subscribed_with_id("0"));
    socket.push_script(subscribed_with_id("999"));
    let mut signald = Signald::new(socket);

    let res = signald.subscribe("+15550001".to_string()).unwrap();
    assert_eq!(res.id.unwrap(), "0");
}

#[test]
fn version_matches_by_kind_without_identifier() {
    let line = r#"{"type":"version","data":{"name":"signald","version":"0.9.0","branch":"master","commit":"abc"}}"#;
    let reply = SignaldResponse::from_line(line).unwrap();

    let mut socket = TestSignaldSocket::new(16);
    socket.push_script(heartbeat());
    socket.push_script(reply);
    let mut signald = Signald::new(socket);

    let res = signald.version().unwrap();
    assert!(res.id.is_none());
    match res.data {
        ResponseType::Version(v) => assert_eq!(v.name, "signald"),
        _ => panic!("Received wrong response type"),
    }
}

#[test]
fn every_subscription_sees_every_later_publication() {
    let socket = TestSignaldSocket::new(16);
    let tx = socket.get_tx();
    let mut signald = Signald::new(socket);

    let mut rx1 = signald.get_rx();
    let mut rx2 = signald.get_rx();
    tx.broadcast(heartbeat());
    tx.broadcast(subscribed_with_id("5"));

    let a1 = rx1.recv().unwrap();
    let a2 = rx1.recv().unwrap();
    assert!(matches!(a1.data, ResponseType::BusUpdate));
    assert_eq!(a2.id.unwrap(), "5");

    let b1 = rx2.recv().unwrap();
    let b2 = rx2.recv().unwrap();
    assert!(matches!(b1.data, ResponseType::BusUpdate));
    assert_eq!(b2.id.unwrap(), "5");
}

#[test]
fn two_waits_on_one_stream_each_get_their_own_match() {
    // Two correlators over one shared stream, waiting in turn; each wait
    // only accepts its own identifier, whatever else is published first.
    let shared = TestSignaldSocket::new(16);
    let tx = shared.get_tx();
    let socket_a = TestSignaldSocket {
        bus: tx.handle(),
        sent: Vec::new(),
        script: vec![subscribed_with_id("1"), subscribed_with_id("0")],
    };
    let socket_b = TestSignaldSocket {
        bus: tx.handle(),
        sent: Vec::new(),
        script: vec![subscribed_with_id("0"), subscribed_with_id("1")],
    };
    let mut signald_a = Signald::new(socket_a);
    let mut signald_b = Signald::new(socket_b);
    // Advance the second counter, so the two waits use different identifiers.
    signald_b.sync_contacts("+15550002".to_string());

    let got_a = signald_a
        .subscribe("+15550001".to_string())
        .expect("the wait for id 0 should match");
    let got_b = signald_b
        .subscribe("+15550002".to_string())
        .expect("the wait for id 1 should match");
    assert_eq!(got_a.id.unwrap(), "0");
    assert_eq!(got_b.id.unwrap(), "1");
}

#[test]
fn subscription_starts_at_the_present() {
    let socket = TestSignaldSocket::new(16);
    let tx = socket.get_tx();
    let mut signald = Signald::new(socket);

    tx.broadcast(subscribed_with_id("before"));
    let mut rx = signald.get_rx();
    tx.broadcast(subscribed_with_id("after"));

    let got = rx.recv().unwrap();
    assert_eq!(got.id.unwrap(), "after");
}
