//! The fan-out channel and the socket capability: the broadcast bus of the
//! `bus` crate behind trusted wrappers, the capability trait the correlator
//! works against, and an in-memory test double.

use vstd::prelude::*;
use crate::signaldrequest::{request_wire, SignaldRequest};
use crate::signaldresponse::SignaldResponse;

verus! {

/// One received item, or why none came: the deadline passed first, or the
/// bus was dropped and its backlog drained.
pub enum RecvPoll {
    Item(SignaldResponse),
    TimedOut,
    Closed,
}

/// A subscription on the fan-out channel, opaque to the verifier.
#[verifier::external_type_specification]
#[verifier::external_body]
#[verifier::reject_recursive_types(T)]
pub struct ExBusReader<T>(bus::BusReader<T>);

/// A handle on one shared broadcast bus; every handle publishes to the same
/// bus. The bus delivers each published response to every subscription open
/// at the moment of publication, independently for each subscriber.
#[verifier::external_body]
pub struct FanoutBus {
    inner: std::sync::Arc<std::sync::Mutex<bus::Bus<SignaldResponse>>>,
}

impl FanoutBus {
    /// Relies on `bus::Bus::new`: a fresh bus whose per-subscriber backlog
    /// holds `size` items.
    #[verifier::external_body]
    pub fn new(size: usize) -> FanoutBus {
        FanoutBus { inner: std::sync::Arc::new(std::sync::Mutex::new(bus::Bus::new(size))) }
    }

    /// Relies on `std::sync::Arc::clone`: another handle on the same bus.
    #[verifier::external_body]
    pub fn handle(&self) -> FanoutBus {
        FanoutBus { inner: std::sync::Arc::clone(&self.inner) }
    }

    /// Relies on `bus::Bus::broadcast`: delivers `r` to the backlog of
    /// every open subscription; blocks while some backlog is full. Panics
    /// only if a publisher panicked while holding the lock (a poisoned
    /// mutex).
    #[verifier::external_body]
    pub fn broadcast(&self, r: SignaldResponse) {
        self.inner.lock().unwrap().broadcast(r);
    }

    /// Relies on `bus::Bus::add_rx`: a new subscription that observes
    /// exactly the responses published after this call, in publication
    /// order. Panics only if a publisher panicked while holding the lock
    /// (a poisoned mutex).
    #[verifier::external_body]
    pub fn add_rx(&self) -> bus::BusReader<SignaldResponse> {
        self.inner.lock().unwrap().add_rx()
    }
}

/// Relies on `bus::BusReader::recv_timeout`: the next published response if
/// one is available within about `ms` milliseconds, `TimedOut` otherwise,
/// `Closed` once the bus is dropped and the backlog drained. Which response
/// arrives depends on what the rest of the process publishes, so nothing is
/// promised of the item.
#[verifier::external_body]
pub fn recv_timeout_ms(rx: &mut bus::BusReader<SignaldResponse>, ms: u64) -> (r: RecvPoll) {
    match rx.recv_timeout(std::time::Duration::from_millis(ms)) {
        Ok(resp) => RecvPoll::Item(resp),
        Err(std::sync::mpsc::RecvTimeoutError::Timeout) => RecvPoll::TimedOut,
        Err(std::sync::mpsc::RecvTimeoutError::Disconnected) => RecvPoll::Closed,
    }
}

/// What the correlator needs from a connection: write one request, and open
/// a subscription on the inbound stream. The sent stream is modelled as the
/// lines written so far, oldest first, so a caller's contract can say which
/// line a call appends.
pub trait Socket {
    /// The lines sent over this connection so far, oldest first. The
    /// default, an always-empty stream, cannot satisfy `send_request`
    /// below, so a verified implementation overrides it with its real
    /// model; an unverified one may leave it.
    open spec fn sent_lines(&self) -> Seq<Seq<char>> {
        Seq::empty()
    }

    /// Writes one request: the wire line of that request, and nothing else,
    /// is appended to the sent stream.
    fn send_request(&mut self, request: &SignaldRequest)
        ensures
            final(self).sent_lines() == old(self).sent_lines().push(request_wire(*request)),
    ;

    /// Opens a subscription on the inbound stream; sends nothing.
    fn get_rx(&mut self) -> (rx: bus::BusReader<SignaldResponse>)
        ensures
            final(self).sent_lines() == old(self).sent_lines(),
    ;
}

/// An in-memory stand-in for the daemon connection. It records the line of
/// every request it is asked to send, and holds a scripted stream of
/// responses that it publishes to the next subscription opened, so a test
/// can drive the correlator without a daemon.
pub struct TestSignaldSocket {
    /// The shared bus this socket publishes on.
    pub bus: FanoutBus,
    /// The lines sent so far, oldest first.
    pub sent: Vec<String>,
    /// Responses still to be published to the next subscription.
    pub script: Vec<SignaldResponse>,
}

impl TestSignaldSocket {
    /// A test socket over a fresh bus with the given backlog size, nothing
    /// sent and nothing scripted.
    pub fn new(bus_size: usize) -> (r: TestSignaldSocket)
        ensures
            r.sent@.len() == 0,
            r.script@.len() == 0,
    {
        TestSignaldSocket { bus: FanoutBus::new(bus_size), sent: Vec::new(), script: Vec::new() }
    }

    /// A publishing handle on this socket's bus, for tests that feed the
    /// stream directly.
    pub fn get_tx(&self) -> FanoutBus {
        self.bus.handle()
    }

    /// Queues one response; it is published once a subscription is next
    /// opened.
    pub fn push_script(&mut self, r: SignaldResponse)
        ensures
            final(self).script@ == old(self).script@.push(r),
            final(self).sent == old(self).sent,
    {
        self.script.push(r);
    }
}

impl Socket for TestSignaldSocket {
    /// The views of the recorded lines.
    open spec fn sent_lines(&self) -> Seq<Seq<char>> {
        self.sent@.map_values(|s: String| s@)
    }

    /// Records the exact line this request is written as.
    fn send_request(&mut self, request: &SignaldRequest)
        ensures
            final(self).script == old(self).script,
    {
        let line = request.to_json_string();
        self.sent.push(line);
        proof {
            assert(self.sent_lines() =~= old(self).sent_lines().push(request_wire(*request)));
        }
    }

    /// Opens a subscription, then publishes the scripted responses so that
    /// this subscription observes them.
    fn get_rx(&mut self) -> (rx: bus::BusReader<SignaldResponse>)
        ensures
            final(self).script@.len() == 0,
            final(self).sent == old(self).sent,
    {
        let rx = self.bus.add_rx();
        while self.script.len() > 0
            invariant
                self.sent == old(self).sent,
            decreases self.script@.len(),
        {
            let r = self.script.remove(0);
            self.bus.broadcast(r);
        }
        rx
    }
}

} // verus!
