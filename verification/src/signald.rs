//! The request/response correlator: it mints correlation identifiers from a
//! monotonically increasing counter, sends requests over the socket, and
//! waits on the shared broadcast stream until a matching response appears
//! or the deadline passes.

use vstd::prelude::*;
use crate::clock::{elapsed_ms, monotonic_now};
use crate::json::str_eq;
use crate::signaldrequest::{opt_view, request_wire, wire_line, SignaldRequest, SignaldRequestBuilder};
use crate::signaldresponse::{ResponseType, SignaldResponse, VersionData};
use crate::socket::{recv_timeout_ms, RecvPoll, Socket};
use crate::wire::{dec_seq, dec_string_u32};
use crate::WAIT_TIMEOUT_MS;

verus! {

/// A waiting call timed out: no matching response was published before the
/// deadline.
#[derive(Clone, Debug)]
pub struct TimeoutError;

/// How a waiting call recognizes its response: by exact correlation
/// identifier, by response kind with the payload ignored, or by both at
/// once — for the calls that succeed only on one explicit acknowledgment
/// kind, so that a response of the right identifier but another kind is
/// skipped like any other partial match.
pub enum FilterType {
    Id(String),
    Type(ResponseType),
    IdAndType(String, ResponseType),
}

/// Whether two responses carry the same kind tag, payloads ignored.
pub open spec fn spec_same_kind(a: ResponseType, b: ResponseType) -> bool {
    match (a, b) {
        (ResponseType::BusUpdate, ResponseType::BusUpdate) => true,
        (ResponseType::Message(_), ResponseType::Message(_)) => true,
        (ResponseType::Version(_), ResponseType::Version(_)) => true,
        (ResponseType::ContactList(_), ResponseType::ContactList(_)) => true,
        (ResponseType::LinkingUri(_), ResponseType::LinkingUri(_)) => true,
        (ResponseType::LinkingError(_), ResponseType::LinkingError(_)) => true,
        (ResponseType::Subscribed, ResponseType::Subscribed) => true,
        (ResponseType::Unsubscribed, ResponseType::Unsubscribed) => true,
        (ResponseType::Unknown(_, _), ResponseType::Unknown(_, _)) => true,
        _ => false,
    }
}

fn same_kind(a: &ResponseType, b: &ResponseType) -> (r: bool)
    ensures
        r == spec_same_kind(*a, *b),
{
    match (a, b) {
        (ResponseType::BusUpdate, ResponseType::BusUpdate) => true,
        (ResponseType::Message(_), ResponseType::Message(_)) => true,
        (ResponseType::Version(_), ResponseType::Version(_)) => true,
        (ResponseType::ContactList(_), ResponseType::ContactList(_)) => true,
        (ResponseType::LinkingUri(_), ResponseType::LinkingUri(_)) => true,
        (ResponseType::LinkingError(_), ResponseType::LinkingError(_)) => true,
        (ResponseType::Subscribed, ResponseType::Subscribed) => true,
        (ResponseType::Unsubscribed, ResponseType::Unsubscribed) => true,
        (ResponseType::Unknown(_, _), ResponseType::Unknown(_, _)) => true,
        _ => false,
    }
}

/// Whether `message` satisfies `filter`: its identifier is present and
/// equal, character for character, or its kind tag is the one asked for.
pub open spec fn spec_filter_request(filter: FilterType, message: SignaldResponse) -> bool {
    match filter {
        FilterType::Id(req_id) => message.id matches Some(s) && s@ == req_id@,
        FilterType::Type(req_type) => spec_same_kind(req_type, message.data),
        FilterType::IdAndType(req_id, req_type) => (message.id matches Some(s) && s@ == req_id@)
            && spec_same_kind(req_type, message.data),
    }
}

/// The correlator over one connection. The counter mints a fresh
/// correlation identifier for every request sent, so an identifier is never
/// reused for the lifetime of the connection.
pub struct Signald<S: Socket> {
    /// The connection requests are written to.
    pub socket: S,
    /// How many requests have been sent on this connection.
    pub message_count: u32,
}

impl<S: Socket> Signald<S> {
    /// A correlator over the given connection, with no request sent yet.
    pub fn new(socket: S) -> (r: Self)
        ensures
            r.message_count == 0,
            r.socket == socket,
    {
        Signald { socket, message_count: 0 }
    }

    /// Writes one request to the socket — its wire line, and nothing else,
    /// is appended to the sent stream — and counts it.
    pub fn send_request(&mut self, request: &SignaldRequest)
        requires
            old(self).message_count < u32::MAX,
        ensures
            final(self).message_count == old(self).message_count + 1,
            final(self).socket.sent_lines() == old(self).socket.sent_lines().push(
                request_wire(*request),
            ),
    {
        self.message_count = self.message_count + 1;
        self.socket.send_request(request);
    }

    /// Whether `message` satisfies `filter`.
    pub fn filter_request(filter: &FilterType, message: &SignaldResponse) -> (r: bool)
        ensures
            r == spec_filter_request(*filter, *message),
    {
        match filter {
            FilterType::Id(req_id) => match &message.id {
                Some(s) => str_eq(s.as_str(), req_id.as_str()),
                None => false,
            },
            FilterType::Type(req_type) => same_kind(req_type, &message.data),
            FilterType::IdAndType(req_id, req_type) => {
                let id_hit = match &message.id {
                    Some(s) => str_eq(s.as_str(), req_id.as_str()),
                    None => false,
                };
                id_hit && same_kind(req_type, &message.data)
            },
        }
    }

    /// Waits until the stream carries a response matching `filter`, or
    /// reports a timeout once the deadline has passed. Heartbeats are
    /// discarded before filtering: they only let the deadline be re-checked
    /// while the daemon is silent. A returned response always matches the
    /// filter and is never a heartbeat.
    pub fn wait_for_request(&mut self, filter: FilterType) -> (res: Result<
        SignaldResponse,
        TimeoutError,
    >)
        ensures
            final(self).message_count == old(self).message_count,
            final(self).socket.sent_lines() == old(self).socket.sent_lines(),
            res matches Ok(r) ==> spec_filter_request(filter, r) && !(r.data
                is BusUpdate),
    {
        let start = monotonic_now();
        let mut rx = self.socket.get_rx();
        // The scan bound gives the loop a termination measure; the deadline
        // fires long before that many responses can be drained.
        let mut fuel: u64 = 0xFFFF_FFFF_FFFF_FFFF;
        while fuel > 0
            invariant
                self.message_count == old(self).message_count,
                self.socket.sent_lines() == old(self).socket.sent_lines(),
            decreases fuel,
        {
            fuel = fuel - 1;
            let waited = elapsed_ms(&start);
            if waited >= WAIT_TIMEOUT_MS {
                return Err(TimeoutError);
            }
            let remaining = WAIT_TIMEOUT_MS - waited;
            match recv_timeout_ms(&mut rx, remaining) {
                RecvPoll::Item(resp) => {
                    match &resp.data {
                        ResponseType::BusUpdate => {},
                        _ => {
                            if Self::filter_request(&filter, &resp) {
                                return Ok(resp);
                            }
                        },
                    }
                },
                RecvPoll::TimedOut => {
                    return Err(TimeoutError);
                },
                RecvPoll::Closed => {
                    return Err(TimeoutError);
                },
            }
        }
        Err(TimeoutError)
    }

    /// Sends a message; fire-and-forget, no reply is awaited. Exactly one
    /// `send` line is written, carrying the account, the recipient, and the
    /// body when there is one; it carries no identifier.
    pub fn send(&mut self, username: String, recipient_number: String, message_body: Option<
        String,
    >)
        requires
            old(self).message_count < u32::MAX,
        ensures
            final(self).message_count == old(self).message_count + 1,
            final(self).socket.sent_lines() == old(self).socket.sent_lines().push(
                wire_line(
                    "send"@,
                    Some(username@),
                    Some(recipient_number@),
                    opt_view(message_body),
                    None,
                ),
            ),
    {
        let mut request_builder = SignaldRequestBuilder::new();
        request_builder.set_type("send".to_owned());
        request_builder.set_username(username);
        request_builder.set_recipient_number(recipient_number);
        if let Some(i) = message_body {
            request_builder.set_message_body(i);
        }
        let request = request_builder.build();
        self.send_request(&request);
    }

    /// Enables receiving user events. Exactly one `subscribe` line is
    /// written, carrying the account and the minted identifier; the wait
    /// succeeds only on the explicit `subscribed` acknowledgment carrying
    /// that identifier.
    pub fn subscribe(&mut self, username: String) -> (res: Result<SignaldResponse, TimeoutError>)
        requires
            old(self).message_count < u32::MAX,
        ensures
            final(self).message_count == old(self).message_count + 1,
            final(self).socket.sent_lines() == old(self).socket.sent_lines().push(
                wire_line(
                    "subscribe"@,
                    Some(username@),
                    None,
                    None,
                    Some(dec_seq(old(self).message_count as nat)),
                ),
            ),
            res matches Ok(r) ==> (r.id matches Some(s) && s@ == dec_seq(
                old(self).message_count as nat,
            )) && r.data is Subscribed,
    {
        let id = dec_string_u32(self.message_count);
        let mut request_builder = SignaldRequestBuilder::new();
        request_builder.set_type("subscribe".to_owned());
        request_builder.set_username(username);
        request_builder.set_id(id.clone());
        let request = request_builder.build();
        self.send_request(&request);
        self.wait_for_request(FilterType::IdAndType(id, ResponseType::Subscribed))
    }

    /// Disables receiving user events. Exactly one `unsubscribe` line is
    /// written, carrying the account and the minted identifier; the wait
    /// succeeds only on the explicit `unsubscribed` acknowledgment carrying
    /// that identifier.
    pub fn unsubscribe(&mut self, username: String) -> (res: Result<SignaldResponse, TimeoutError>)
        requires
            old(self).message_count < u32::MAX,
        ensures
            final(self).message_count == old(self).message_count + 1,
            final(self).socket.sent_lines() == old(self).socket.sent_lines().push(
                wire_line(
                    "unsubscribe"@,
                    Some(username@),
                    None,
                    None,
                    Some(dec_seq(old(self).message_count as nat)),
                ),
            ),
            res matches Ok(r) ==> (r.id matches Some(s) && s@ == dec_seq(
                old(self).message_count as nat,
            )) && r.data is Unsubscribed,
    {
        let id = dec_string_u32(self.message_count);
        let mut request_builder = SignaldRequestBuilder::new();
        request_builder.set_type("unsubscribe".to_owned());
        request_builder.set_username(username);
        request_builder.set_id(id.clone());
        let request = request_builder.build();
        self.send_request(&request);
        self.wait_for_request(FilterType::IdAndType(id, ResponseType::Unsubscribed))
    }

    /// Links an existing account. Exactly one `link` line is written,
    /// carrying the minted identifier and no account; the wait matches by
    /// that identifier (the reply's kind varies between a linking URI and a
    /// linking error).
    pub fn link(&mut self) -> (res: Result<SignaldResponse, TimeoutError>)
        requires
            old(self).message_count < u32::MAX,
        ensures
            final(self).message_count == old(self).message_count + 1,
            final(self).socket.sent_lines() == old(self).socket.sent_lines().push(
                wire_line(
                    "link"@,
                    None,
                    None,
                    None,
                    Some(dec_seq(old(self).message_count as nat)),
                ),
            ),
            res matches Ok(r) ==> (r.id matches Some(s) && s@ == dec_seq(
                old(self).message_count as nat,
            )) && !(r.data is BusUpdate),
    {
        let id = dec_string_u32(self.message_count);
        let mut request_builder = SignaldRequestBuilder::new();
        request_builder.set_type("link".to_owned());
        request_builder.set_id(id.clone());
        let request = request_builder.build();
        self.send_request(&request);
        self.wait_for_request(FilterType::Id(id))
    }

    /// Asks for the daemon version. Exactly one `version` line is written,
    /// carrying the minted identifier; the reply carries no identifier
    /// reliably, so the wait matches by response kind instead.
    pub fn version(&mut self) -> (res: Result<SignaldResponse, TimeoutError>)
        requires
            old(self).message_count < u32::MAX,
        ensures
            final(self).message_count == old(self).message_count + 1,
            final(self).socket.sent_lines() == old(self).socket.sent_lines().push(
                wire_line(
                    "version"@,
                    None,
                    None,
                    None,
                    Some(dec_seq(old(self).message_count as nat)),
                ),
            ),
            res matches Ok(r) ==> r.data is Version,
    {
        let id = dec_string_u32(self.message_count);
        let mut request_builder = SignaldRequestBuilder::new();
        request_builder.set_type("version".to_owned());
        request_builder.set_id(id);
        let request = request_builder.build();
        self.send_request(&request);
        let probe = ResponseType::Version(
            VersionData {
                name: String::new(),
                version: String::new(),
                branch: String::new(),
                commit: String::new(),
            },
        );
        self.wait_for_request(FilterType::Type(probe))
    }

    /// Queries the account's contacts. Exactly one `list_contacts` line is
    /// written, carrying the account and the minted identifier; the wait
    /// matches by that identifier.
    pub fn list_contacts(&mut self, username: String) -> (res: Result<
        SignaldResponse,
        TimeoutError,
    >)
        requires
            old(self).message_count < u32::MAX,
        ensures
            final(self).message_count == old(self).message_count + 1,
            final(self).socket.sent_lines() == old(self).socket.sent_lines().push(
                wire_line(
                    "list_contacts"@,
                    Some(username@),
                    None,
                    None,
                    Some(dec_seq(old(self).message_count as nat)),
                ),
            ),
            res matches Ok(r) ==> (r.id matches Some(s) && s@ == dec_seq(
                old(self).message_count as nat,
            )) && !(r.data is BusUpdate),
    {
        let id = dec_string_u32(self.message_count);
        let mut request_builder = SignaldRequestBuilder::new();
        request_builder.set_type("list_contacts".to_owned());
        request_builder.set_username(username);
        request_builder.set_id(id.clone());
        let request = request_builder.build();
        self.send_request(&request);
        self.wait_for_request(FilterType::Id(id))
    }

    /// Asks the other devices on this account to sync contacts;
    /// fire-and-forget, no reply is awaited. Exactly one `sync_contacts`
    /// line is written, carrying the account and the minted identifier.
    pub fn sync_contacts(&mut self, username: String)
        requires
            old(self).message_count < u32::MAX,
        ensures
            final(self).message_count == old(self).message_count + 1,
            final(self).socket.sent_lines() == old(self).socket.sent_lines().push(
                wire_line(
                    "sync_contacts"@,
                    Some(username@),
                    None,
                    None,
                    Some(dec_seq(old(self).message_count as nat)),
                ),
            ),
    {
        let id = dec_string_u32(self.message_count);
        let mut request_builder = SignaldRequestBuilder::new();
        request_builder.set_type("sync_contacts".to_owned());
        request_builder.set_username(username);
        request_builder.set_id(id);
        let request = request_builder.build();
        self.send_request(&request);
    }

    /// A subscription that observes every response published from now on;
    /// nothing is sent.
    pub fn get_rx(&mut self) -> (rx: bus::BusReader<SignaldResponse>)
        ensures
            final(self).message_count == old(self).message_count,
            final(self).socket.sent_lines() == old(self).socket.sent_lines(),
    {
        self.socket.get_rx()
    }
}

/// Two identifier waits with different identifiers never accept the same
/// response: of two concurrent waits, each can only be satisfied by its own
/// match, never the other's.
pub proof fn lemma_id_filters_exclusive(a: String, b: String, r: SignaldResponse)
    requires
        a@ != b@,
    ensures
        !(spec_filter_request(FilterType::Id(a), r) && spec_filter_request(FilterType::Id(b), r)),
{
}

/// A heartbeat satisfies no identifier filter: it carries no identifier.
pub proof fn lemma_heartbeat_matches_no_id(id: String, r: SignaldResponse)
    requires
        r.data is BusUpdate,
        r.id is None,
    ensures
        !spec_filter_request(FilterType::Id(id), r),
{
}

} // verus!
