//! Inbound responses: the tagged response type, the payload record of each
//! known kind, and the decoder that turns one line into a response.

use vstd::prelude::*;
use crate::json::{
    get_field, json_field, lookup_field, parse_line, parsed_line, str_eq, DecodeError, Json,
};
use crate::decode::{
    bool_field, bool_obj, i32_field, i64_field, opt_bool_field, opt_i32_field, opt_str_field,
    spec_bool_field, spec_bool_obj, spec_i32_field, spec_i64_field, spec_opt_bool_field,
    spec_opt_i32_field, spec_opt_str_field, spec_str_field, spec_u32_field, spec_u64_elem,
    spec_u64_field, str_field, u32_field, u64_elem, u64_field,
};

verus! {

/// Payload of a `version` response.
#[derive(Clone, Debug)]
pub struct VersionData {
    pub name: String,
    pub version: String,
    pub branch: String,
    pub commit: String,
}

/// One text message inside an event envelope.
#[derive(Clone, Debug)]
pub struct Message {
    pub timestamp: i64,
    pub message: String,
    pub expires_in_seconds: i32,
}

/// One read receipt inside a sync record.
#[derive(Clone, Debug)]
pub struct ReadMessage {
    pub sender: String,
    pub timestamp: i64,
}

/// A typing indicator.
#[derive(Clone, Debug)]
pub struct Typing {
    pub action: String,
    pub timestamp: i64,
}

/// A delivery receipt.
#[derive(Clone, Debug)]
pub struct Receipt {
    pub typ: String,
    pub timestamps: Vec<u64>,
    pub when: u64,
}

/// A message this account sent from another device.
#[derive(Clone, Debug)]
pub struct SentMessage {
    pub destination: String,
    pub timestamp: i64,
    pub expiration_start_timestamp: i64,
    pub message: Message,
    pub unidentified_status: Vec<(String, bool)>,
    pub is_recipient_update: bool,
}

/// The sync record of an event envelope.
#[derive(Clone, Debug)]
pub struct SyncMessage {
    pub sent: Option<SentMessage>,
    pub contacts_complete: bool,
    pub read_messages: Option<Vec<ReadMessage>>,
    pub sticker_pack_operations: Option<Vec<String>>,
    pub unidentified_status: Option<Vec<(String, bool)>>,
}

/// Payload of a `message` response: the event envelope, with at most one of
/// the kind-specific records populated.
#[derive(Clone, Debug)]
pub struct MessageData {
    pub username: Option<String>,
    pub uuid: Option<String>,
    pub source: Option<String>,
    pub source_device: Option<i32>,
    pub typ: i32,
    pub timestamp: i64,
    pub timestamp_iso: String,
    pub server_timestamp: i64,
    pub has_legacy_message: bool,
    pub has_content: bool,
    pub is_signal_message: Option<bool>,
    pub is_prekey_signal_message: Option<bool>,
    pub is_receipt: bool,
    pub is_unidentified_sender: bool,
    pub sync_message: Option<SyncMessage>,
    pub data_message: Option<Message>,
    pub typing: Option<Typing>,
    pub receipt: Option<Receipt>,
}

/// One entry of a `contact_list` response.
#[derive(Clone, Debug)]
pub struct Account {
    pub name: String,
    pub number: String,
    pub color: String,
    pub profile_key: Option<String>,
}

/// Payload of a `contact_list` response.
#[derive(Clone, Debug)]
pub struct ContactListData {
    pub contacts: Vec<Account>,
}

/// Payload of a `linking_uri` response.
#[derive(Clone, Debug)]
pub struct LinkingUri {
    pub uri: String,
}

/// The request echo inside a `linking_error` payload.
#[derive(Clone, Debug)]
pub struct Request {
    pub typ: String,
    pub expires_in_seconds: u32,
    pub when: u64,
}

/// Payload of a `linking_error` response.
#[derive(Clone, Debug)]
pub struct LinkingError {
    pub msg_number: u32,
    pub message: String,
    pub error: bool,
    pub request: Request,
}

/// Marker for the payload records carried by tagged responses.
pub trait ResponseData {

}

// ===================== payload decoders, simple kinds =====================
/// The `version` payload `val` decodes to, when well-formed.
pub open spec fn spec_version(val: Json) -> Option<VersionData> {
    match (
        spec_str_field(val, "name"@),
        spec_str_field(val, "version"@),
        spec_str_field(val, "branch"@),
        spec_str_field(val, "commit"@),
    ) {
        (Some(name), Some(version), Some(branch), Some(commit)) => Some(
            VersionData { name, version, branch, commit },
        ),
        _ => None,
    }
}

pub fn version_from(val: &Json) -> (r: Option<VersionData>)
    ensures
        r == spec_version(*val),
{
    let name = match str_field(val, "name") {
        Some(s) => s,
        None => {
            return None;
        },
    };
    let version = match str_field(val, "version") {
        Some(s) => s,
        None => {
            return None;
        },
    };
    let branch = match str_field(val, "branch") {
        Some(s) => s,
        None => {
            return None;
        },
    };
    let commit = match str_field(val, "commit") {
        Some(s) => s,
        None => {
            return None;
        },
    };
    Some(VersionData { name, version, branch, commit })
}

/// The `linking_uri` payload `val` decodes to, when well-formed.
pub open spec fn spec_linking_uri(val: Json) -> Option<LinkingUri> {
    match spec_str_field(val, "uri"@) {
        Some(uri) => Some(LinkingUri { uri }),
        None => None,
    }
}

pub fn linking_uri_from(val: &Json) -> (r: Option<LinkingUri>)
    ensures
        r == spec_linking_uri(*val),
{
    match str_field(val, "uri") {
        Some(uri) => Some(LinkingUri { uri }),
        None => None,
    }
}

/// The request echo `val` decodes to, when well-formed.
pub open spec fn spec_request_echo(val: Json) -> Option<Request> {
    match (
        spec_str_field(val, "type"@),
        spec_u32_field(val, "expiresInSeconds"@),
        spec_u64_field(val, "when"@),
    ) {
        (Some(typ), Some(expires_in_seconds), Some(when)) => Some(
            Request { typ, expires_in_seconds, when },
        ),
        _ => None,
    }
}

pub fn request_echo_from(val: &Json) -> (r: Option<Request>)
    ensures
        r == spec_request_echo(*val),
{
    let typ = match str_field(val, "type") {
        Some(s) => s,
        None => {
            return None;
        },
    };
    let expires_in_seconds = match u32_field(val, "expiresInSeconds") {
        Some(x) => x,
        None => {
            return None;
        },
    };
    let when = match u64_field(val, "when") {
        Some(x) => x,
        None => {
            return None;
        },
    };
    Some(Request { typ, expires_in_seconds, when })
}

/// The `linking_error` payload `val` decodes to, when well-formed.
pub open spec fn spec_linking_error(val: Json) -> Option<LinkingError> {
    match (
        spec_u32_field(val, "msg_number"@),
        spec_str_field(val, "message"@),
        spec_bool_field(val, "error"@),
    ) {
        (Some(msg_number), Some(message), Some(error)) => match json_field(val, "request"@) {
            Some(rj) => match spec_request_echo(rj) {
                Some(request) => Some(LinkingError { msg_number, message, error, request }),
                None => None,
            },
            None => None,
        },
        _ => None,
    }
}

pub fn linking_error_from(val: &Json) -> (r: Option<LinkingError>)
    ensures
        r == spec_linking_error(*val),
{
    let msg_number = match u32_field(val, "msg_number") {
        Some(x) => x,
        None => {
            return None;
        },
    };
    let message = match str_field(val, "message") {
        Some(s) => s,
        None => {
            return None;
        },
    };
    let error = match bool_field(val, "error") {
        Some(b) => b,
        None => {
            return None;
        },
    };
    let request = match get_field(val, "request") {
        Some(rj) => match request_echo_from(rj) {
            Some(r) => r,
            None => {
                return None;
            },
        },
        None => {
            return None;
        },
    };
    Some(LinkingError { msg_number, message, error, request })
}

/// The contact entry `j` decodes to, when well-formed.
pub open spec fn spec_account(j: Json) -> Option<Account> {
    match (
        spec_str_field(j, "name"@),
        spec_str_field(j, "number"@),
        spec_str_field(j, "color"@),
        spec_opt_str_field(j, "profileKey"@),
    ) {
        (Some(name), Some(number), Some(color), Some(profile_key)) => Some(
            Account { name, number, color, profile_key },
        ),
        _ => None,
    }
}

pub fn account_from(j: &Json) -> (r: Option<Account>)
    ensures
        r == spec_account(*j),
{
    let name = match str_field(j, "name") {
        Some(s) => s,
        None => {
            return None;
        },
    };
    let number = match str_field(j, "number") {
        Some(s) => s,
        None => {
            return None;
        },
    };
    let color = match str_field(j, "color") {
        Some(s) => s,
        None => {
            return None;
        },
    };
    let profile_key = match opt_str_field(j, "profileKey") {
        Some(k) => k,
        None => {
            return None;
        },
    };
    Some(Account { name, number, color, profile_key })
}

/// The contact entries the first `n` elements decode to.
pub open spec fn spec_accounts_prefix(elems: Seq<Json>, n: int) -> Option<Seq<Account>>
    decreases n,
{
    if n <= 0 {
        Some(Seq::empty())
    } else {
        match spec_accounts_prefix(elems, n - 1) {
            Some(rest) => match spec_account(elems[n - 1]) {
                Some(a) => Some(rest.push(a)),
                None => None,
            },
            None => None,
        }
    }
}

proof fn lemma_accounts_prefix_none(elems: Seq<Json>, i: int, n: int)
    requires
        0 <= i <= n,
        spec_accounts_prefix(elems, i) is None,
    ensures
        spec_accounts_prefix(elems, n) is None,
    decreases n,
{
    if n > i {
        lemma_accounts_prefix_none(elems, i, n - 1);
    }
}

/// The `contact_list` payload `val` decodes to: an array of contact
/// entries, each well-formed.
pub open spec fn spec_contact_list(val: Json) -> Option<Seq<Account>> {
    match val {
        Json::Arr(elems) => spec_accounts_prefix(elems@, elems@.len() as int),
        _ => None,
    }
}

pub fn contact_list_from(val: &Json) -> (r: Option<Vec<Account>>)
    ensures
        match r {
            Some(v) => spec_contact_list(*val) == Some(v@),
            None => spec_contact_list(*val) is None,
        },
{
    match val {
        Json::Arr(elems) => {
            let n = elems.len();
            let mut out: Vec<Account> = Vec::new();
            let mut i: usize = 0;
            while i < n
                invariant
                    i <= n,
                    n == elems@.len(),
                    spec_contact_list(*val) == spec_accounts_prefix(elems@, n as int),
                    spec_accounts_prefix(elems@, i as int) == Some(out@),
                decreases n - i,
            {
                match account_from(&elems[i]) {
                    Some(a) => {
                        out.push(a);
                    },
                    None => {
                        proof {
                            lemma_accounts_prefix_none(elems@, i + 1, n as int);
                        }
                        return None;
                    },
                }
                i += 1;
            }
            Some(out)
        },
        _ => None,
    }
}

/// The text message record `j` decodes to, when well-formed.
pub open spec fn spec_message(j: Json) -> Option<Message> {
    match (
        spec_i64_field(j, "timestamp"@),
        spec_str_field(j, "message"@),
        spec_i32_field(j, "expiresInSeconds"@),
    ) {
        (Some(timestamp), Some(message), Some(expires_in_seconds)) => Some(
            Message { timestamp, message, expires_in_seconds },
        ),
        _ => None,
    }
}

pub fn message_from(j: &Json) -> (r: Option<Message>)
    ensures
        r == spec_message(*j),
{
    let timestamp = match i64_field(j, "timestamp") {
        Some(x) => x,
        None => {
            return None;
        },
    };
    let message = match str_field(j, "message") {
        Some(s) => s,
        None => {
            return None;
        },
    };
    let expires_in_seconds = match i32_field(j, "expiresInSeconds") {
        Some(x) => x,
        None => {
            return None;
        },
    };
    Some(Message { timestamp, message, expires_in_seconds })
}

/// The read receipt `j` decodes to, when well-formed.
pub open spec fn spec_read_message(j: Json) -> Option<ReadMessage> {
    match (spec_str_field(j, "sender"@), spec_i64_field(j, "timestamp"@)) {
        (Some(sender), Some(timestamp)) => Some(ReadMessage { sender, timestamp }),
        _ => None,
    }
}

pub fn read_message_from(j: &Json) -> (r: Option<ReadMessage>)
    ensures
        r == spec_read_message(*j),
{
    let sender = match str_field(j, "sender") {
        Some(s) => s,
        None => {
            return None;
        },
    };
    let timestamp = match i64_field(j, "timestamp") {
        Some(x) => x,
        None => {
            return None;
        },
    };
    Some(ReadMessage { sender, timestamp })
}

/// The typing indicator `j` decodes to, when well-formed.
pub open spec fn spec_typing(j: Json) -> Option<Typing> {
    match (spec_str_field(j, "action"@), spec_i64_field(j, "timestamp"@)) {
        (Some(action), Some(timestamp)) => Some(Typing { action, timestamp }),
        _ => None,
    }
}

pub fn typing_from(j: &Json) -> (r: Option<Typing>)
    ensures
        r == spec_typing(*j),
{
    let action = match str_field(j, "action") {
        Some(s) => s,
        None => {
            return None;
        },
    };
    let timestamp = match i64_field(j, "timestamp") {
        Some(x) => x,
        None => {
            return None;
        },
    };
    Some(Typing { action, timestamp })
}

// ===================== sequence payloads =====================
/// The unsigned values the first `n` elements decode to.
pub open spec fn spec_u64s_prefix(elems: Seq<Json>, n: int) -> Option<Seq<u64>>
    decreases n,
{
    if n <= 0 {
        Some(Seq::empty())
    } else {
        match spec_u64s_prefix(elems, n - 1) {
            Some(rest) => match spec_u64_elem(elems[n - 1]) {
                Some(x) => Some(rest.push(x)),
                None => None,
            },
            None => None,
        }
    }
}

proof fn lemma_u64s_prefix_none(elems: Seq<Json>, i: int, n: int)
    requires
        0 <= i <= n,
        spec_u64s_prefix(elems, i) is None,
    ensures
        spec_u64s_prefix(elems, n) is None,
    decreases n,
{
    if n > i {
        lemma_u64s_prefix_none(elems, i, n - 1);
    }
}

pub fn u64s_from(elems: &Vec<Json>) -> (r: Option<Vec<u64>>)
    ensures
        match r {
            Some(v) => spec_u64s_prefix(elems@, elems@.len() as int) == Some(v@),
            None => spec_u64s_prefix(elems@, elems@.len() as int) is None,
        },
{
    let n = elems.len();
    let mut out: Vec<u64> = Vec::new();
    let mut i: usize = 0;
    while i < n
        invariant
            i <= n,
            n == elems@.len(),
            spec_u64s_prefix(elems@, i as int) == Some(out@),
        decreases n - i,
    {
        match u64_elem(&elems[i]) {
            Some(x) => {
                out.push(x);
            },
            None => {
                proof {
                    lemma_u64s_prefix_none(elems@, i + 1, n as int);
                }
                return None;
            },
        }
        i += 1;
    }
    Some(out)
}

/// The strings the first `n` elements decode to.
pub open spec fn spec_strings_prefix(elems: Seq<Json>, n: int) -> Option<Seq<String>>
    decreases n,
{
    if n <= 0 {
        Some(Seq::empty())
    } else {
        match spec_strings_prefix(elems, n - 1) {
            Some(rest) => match elems[n - 1] {
                Json::Str(s) => Some(rest.push(s)),
                _ => None,
            },
            None => None,
        }
    }
}

proof fn lemma_strings_prefix_none(elems: Seq<Json>, i: int, n: int)
    requires
        0 <= i <= n,
        spec_strings_prefix(elems, i) is None,
    ensures
        spec_strings_prefix(elems, n) is None,
    decreases n,
{
    if n > i {
        lemma_strings_prefix_none(elems, i, n - 1);
    }
}

pub fn strings_from(elems: &Vec<Json>) -> (r: Option<Vec<String>>)
    ensures
        match r {
            Some(v) => spec_strings_prefix(elems@, elems@.len() as int) == Some(v@),
            None => spec_strings_prefix(elems@, elems@.len() as int) is None,
        },
{
    let n = elems.len();
    let mut out: Vec<String> = Vec::new();
    let mut i: usize = 0;
    while i < n
        invariant
            i <= n,
            n == elems@.len(),
            spec_strings_prefix(elems@, i as int) == Some(out@),
        decreases n - i,
    {
        match &elems[i] {
            Json::Str(s) => {
                out.push(s.clone());
            },
            _ => {
                proof {
                    lemma_strings_prefix_none(elems@, i + 1, n as int);
                }
                return None;
            },
        }
        i += 1;
    }
    Some(out)
}

/// The read receipts the first `n` elements decode to.
pub open spec fn spec_read_messages_prefix(elems: Seq<Json>, n: int) -> Option<Seq<ReadMessage>>
    decreases n,
{
    if n <= 0 {
        Some(Seq::empty())
    } else {
        match spec_read_messages_prefix(elems, n - 1) {
            Some(rest) => match spec_read_message(elems[n - 1]) {
                Some(m) => Some(rest.push(m)),
                None => None,
            },
            None => None,
        }
    }
}

proof fn lemma_read_messages_prefix_none(elems: Seq<Json>, i: int, n: int)
    requires
        0 <= i <= n,
        spec_read_messages_prefix(elems, i) is None,
    ensures
        spec_read_messages_prefix(elems, n) is None,
    decreases n,
{
    if n > i {
        lemma_read_messages_prefix_none(elems, i, n - 1);
    }
}

pub fn read_messages_from(elems: &Vec<Json>) -> (r: Option<Vec<ReadMessage>>)
    ensures
        match r {
            Some(v) => spec_read_messages_prefix(elems@, elems@.len() as int) == Some(v@),
            None => spec_read_messages_prefix(elems@, elems@.len() as int) is None,
        },
{
    let n = elems.len();
    let mut out: Vec<ReadMessage> = Vec::new();
    let mut i: usize = 0;
    while i < n
        invariant
            i <= n,
            n == elems@.len(),
            spec_read_messages_prefix(elems@, i as int) == Some(out@),
        decreases n - i,
    {
        match read_message_from(&elems[i]) {
            Some(m) => {
                out.push(m);
            },
            None => {
                proof {
                    lemma_read_messages_prefix_none(elems@, i + 1, n as int);
                }
                return None;
            },
        }
        i += 1;
    }
    Some(out)
}

// ===================== views of the vector-carrying records =====================
/// What a `Receipt` says, with the timestamp vector as a sequence.
pub struct ReceiptV {
    pub typ: String,
    pub timestamps: Seq<u64>,
    pub when: u64,
}

impl View for Receipt {
    type V = ReceiptV;

    open spec fn view(&self) -> ReceiptV {
        ReceiptV { typ: self.typ, timestamps: self.timestamps@, when: self.when }
    }
}

/// What a `SentMessage` says, with the status list as a sequence.
pub struct SentMessageV {
    pub destination: String,
    pub timestamp: i64,
    pub expiration_start_timestamp: i64,
    pub message: Message,
    pub unidentified_status: Seq<(String, bool)>,
    pub is_recipient_update: bool,
}

impl View for SentMessage {
    type V = SentMessageV;

    open spec fn view(&self) -> SentMessageV {
        SentMessageV {
            destination: self.destination,
            timestamp: self.timestamp,
            expiration_start_timestamp: self.expiration_start_timestamp,
            message: self.message,
            unidentified_status: self.unidentified_status@,
            is_recipient_update: self.is_recipient_update,
        }
    }
}

/// What a `SyncMessage` says, with every vector as a sequence.
pub struct SyncMessageV {
    pub sent: Option<SentMessageV>,
    pub contacts_complete: bool,
    pub read_messages: Option<Seq<ReadMessage>>,
    pub sticker_pack_operations: Option<Seq<String>>,
    pub unidentified_status: Option<Seq<(String, bool)>>,
}

impl View for SyncMessage {
    type V = SyncMessageV;

    open spec fn view(&self) -> SyncMessageV {
        SyncMessageV {
            sent: match self.sent {
                Some(s) => Some(s@),
                None => None,
            },
            contacts_complete: self.contacts_complete,
            read_messages: match self.read_messages {
                Some(v) => Some(v@),
                None => None,
            },
            sticker_pack_operations: match self.sticker_pack_operations {
                Some(v) => Some(v@),
                None => None,
            },
            unidentified_status: match self.unidentified_status {
                Some(v) => Some(v@),
                None => None,
            },
        }
    }
}

/// What a `MessageData` envelope says, with every vector as a sequence.
pub struct MessageDataV {
    pub username: Option<String>,
    pub uuid: Option<String>,
    pub source: Option<String>,
    pub source_device: Option<i32>,
    pub typ: i32,
    pub timestamp: i64,
    pub timestamp_iso: String,
    pub server_timestamp: i64,
    pub has_legacy_message: bool,
    pub has_content: bool,
    pub is_signal_message: Option<bool>,
    pub is_prekey_signal_message: Option<bool>,
    pub is_receipt: bool,
    pub is_unidentified_sender: bool,
    pub sync_message: Option<SyncMessageV>,
    pub data_message: Option<Message>,
    pub typing: Option<Typing>,
    pub receipt: Option<ReceiptV>,
}

impl View for MessageData {
    type V = MessageDataV;

    open spec fn view(&self) -> MessageDataV {
        MessageDataV {
            username: self.username,
            uuid: self.uuid,
            source: self.source,
            source_device: self.source_device,
            typ: self.typ,
            timestamp: self.timestamp,
            timestamp_iso: self.timestamp_iso,
            server_timestamp: self.server_timestamp,
            has_legacy_message: self.has_legacy_message,
            has_content: self.has_content,
            is_signal_message: self.is_signal_message,
            is_prekey_signal_message: self.is_prekey_signal_message,
            is_receipt: self.is_receipt,
            is_unidentified_sender: self.is_unidentified_sender,
            sync_message: match self.sync_message {
                Some(s) => Some(s@),
                None => None,
            },
            data_message: self.data_message,
            typing: self.typing,
            receipt: match self.receipt {
                Some(r) => Some(r@),
                None => None,
            },
        }
    }
}

// ===================== payload decoders, nested kinds =====================
/// The delivery receipt `j` decodes to, when well-formed.
pub open spec fn spec_receipt(j: Json) -> Option<ReceiptV> {
    match (spec_str_field(j, "type"@), json_field(j, "timestamps"@), spec_u64_field(j, "when"@)) {
        (Some(typ), Some(Json::Arr(elems)), Some(when)) => match spec_u64s_prefix(
            elems@,
            elems@.len() as int,
        ) {
            Some(timestamps) => Some(ReceiptV { typ, timestamps, when }),
            None => None,
        },
        _ => None,
    }
}

pub fn receipt_from(j: &Json) -> (r: Option<Receipt>)
    ensures
        match r {
            Some(x) => spec_receipt(*j) == Some(x@),
            None => spec_receipt(*j) is None,
        },
{
    let typ = match str_field(j, "type") {
        Some(s) => s,
        None => {
            return None;
        },
    };
    let when = match u64_field(j, "when") {
        Some(x) => x,
        None => {
            return None;
        },
    };
    let timestamps = match get_field(j, "timestamps") {
        Some(Json::Arr(elems)) => match u64s_from(elems) {
            Some(v) => v,
            None => {
                return None;
            },
        },
        _ => {
            return None;
        },
    };
    Some(Receipt { typ, timestamps, when })
}

/// The sent record `j` decodes to, when well-formed.
pub open spec fn spec_sent_message(j: Json) -> Option<SentMessageV> {
    match (
        spec_str_field(j, "destination"@),
        spec_i64_field(j, "timestamp"@),
        spec_i64_field(j, "expirationStartTimestamp"@),
        spec_bool_field(j, "isRecipientUpdate"@),
    ) {
        (
            Some(destination),
            Some(timestamp),
            Some(expiration_start_timestamp),
            Some(is_recipient_update),
        ) => match json_field(j, "message"@) {
            Some(mj) => match spec_message(mj) {
                Some(message) => match json_field(j, "unidentifiedStatus"@) {
                    Some(uj) => match spec_bool_obj(uj) {
                        Some(unidentified_status) => Some(
                            SentMessageV {
                                destination,
                                timestamp,
                                expiration_start_timestamp,
                                message,
                                unidentified_status,
                                is_recipient_update,
                            },
                        ),
                        None => None,
                    },
                    None => None,
                },
                None => None,
            },
            None => None,
        },
        _ => None,
    }
}

pub fn sent_message_from(j: &Json) -> (r: Option<SentMessage>)
    ensures
        match r {
            Some(x) => spec_sent_message(*j) == Some(x@),
            None => spec_sent_message(*j) is None,
        },
{
    let destination = match str_field(j, "destination") {
        Some(s) => s,
        None => {
            return None;
        },
    };
    let timestamp = match i64_field(j, "timestamp") {
        Some(x) => x,
        None => {
            return None;
        },
    };
    let expiration_start_timestamp = match i64_field(j, "expirationStartTimestamp") {
        Some(x) => x,
        None => {
            return None;
        },
    };
    let is_recipient_update = match bool_field(j, "isRecipientUpdate") {
        Some(b) => b,
        None => {
            return None;
        },
    };
    let message = match get_field(j, "message") {
        Some(mj) => match message_from(mj) {
            Some(m) => m,
            None => {
                return None;
            },
        },
        None => {
            return None;
        },
    };
    let unidentified_status = match get_field(j, "unidentifiedStatus") {
        Some(uj) => match bool_obj(uj) {
            Some(v) => v,
            None => {
                return None;
            },
        },
        None => {
            return None;
        },
    };
    Some(
        SentMessage {
            destination,
            timestamp,
            expiration_start_timestamp,
            message,
            unidentified_status,
            is_recipient_update,
        },
    )
}

/// The optional sent record of a sync record: absent or null is accepted as
/// nothing, anything present must be well-formed.
pub open spec fn spec_opt_sent(j: Json) -> Option<Option<SentMessageV>> {
    match json_field(j, "sent"@) {
        None => Some(None),
        Some(Json::Null) => Some(None),
        Some(sj) => match spec_sent_message(sj) {
            Some(s) => Some(Some(s)),
            None => None,
        },
    }
}

fn opt_sent_from(j: &Json) -> (r: Option<Option<SentMessage>>)
    ensures
        match r {
            Some(Some(s)) => spec_opt_sent(*j) == Some(Some(s@)),
            Some(None) => spec_opt_sent(*j) == Some(None::<SentMessageV>),
            None => spec_opt_sent(*j) is None,
        },
{
    match get_field(j, "sent") {
        None => Some(None),
        Some(Json::Null) => Some(None),
        Some(sj) => match sent_message_from(sj) {
            Some(s) => Some(Some(s)),
            None => None,
        },
    }
}

/// The optional read receipts of a sync record.
pub open spec fn spec_opt_read_messages(j: Json) -> Option<Option<Seq<ReadMessage>>> {
    match json_field(j, "readMessages"@) {
        None => Some(None),
        Some(Json::Null) => Some(None),
        Some(Json::Arr(elems)) => match spec_read_messages_prefix(elems@, elems@.len() as int) {
            Some(v) => Some(Some(v)),
            None => None,
        },
        Some(_) => None,
    }
}

fn opt_read_messages_from(j: &Json) -> (r: Option<Option<Vec<ReadMessage>>>)
    ensures
        match r {
            Some(Some(v)) => spec_opt_read_messages(*j) == Some(Some(v@)),
            Some(None) => spec_opt_read_messages(*j) == Some(None::<Seq<ReadMessage>>),
            None => spec_opt_read_messages(*j) is None,
        },
{
    match get_field(j, "readMessages") {
        None => Some(None),
        Some(Json::Null) => Some(None),
        Some(Json::Arr(elems)) => match read_messages_from(elems) {
            Some(v) => Some(Some(v)),
            None => None,
        },
        Some(_) => None,
    }
}

/// The optional sticker operations of a sync record.
pub open spec fn spec_opt_stickers(j: Json) -> Option<Option<Seq<String>>> {
    match json_field(j, "stickerPackOperations"@) {
        None => Some(None),
        Some(Json::Null) => Some(None),
        Some(Json::Arr(elems)) => match spec_strings_prefix(elems@, elems@.len() as int) {
            Some(v) => Some(Some(v)),
            None => None,
        },
        Some(_) => None,
    }
}

fn opt_stickers_from(j: &Json) -> (r: Option<Option<Vec<String>>>)
    ensures
        match r {
            Some(Some(v)) => spec_opt_stickers(*j) == Some(Some(v@)),
            Some(None) => spec_opt_stickers(*j) == Some(None::<Seq<String>>),
            None => spec_opt_stickers(*j) is None,
        },
{
    match get_field(j, "stickerPackOperations") {
        None => Some(None),
        Some(Json::Null) => Some(None),
        Some(Json::Arr(elems)) => match strings_from(elems) {
            Some(v) => Some(Some(v)),
            None => None,
        },
        Some(_) => None,
    }
}

/// The optional per-recipient status map of a sync record.
pub open spec fn spec_opt_status(j: Json) -> Option<Option<Seq<(String, bool)>>> {
    match json_field(j, "unidentifiedStatus"@) {
        None => Some(None),
        Some(Json::Null) => Some(None),
        Some(oj) => match spec_bool_obj(oj) {
            Some(v) => Some(Some(v)),
            None => None,
        },
    }
}

fn opt_status_from(j: &Json) -> (r: Option<Option<Vec<(String, bool)>>>)
    ensures
        match r {
            Some(Some(v)) => spec_opt_status(*j) == Some(Some(v@)),
            Some(None) => spec_opt_status(*j) == Some(None::<Seq<(String, bool)>>),
            None => spec_opt_status(*j) is None,
        },
{
    match get_field(j, "unidentifiedStatus") {
        None => Some(None),
        Some(Json::Null) => Some(None),
        Some(oj) => match bool_obj(oj) {
            Some(v) => Some(Some(v)),
            None => None,
        },
    }
}

/// The sync record `j` decodes to, when well-formed.
pub open spec fn spec_sync_message(j: Json) -> Option<SyncMessageV> {
    match (
        spec_opt_sent(j),
        spec_bool_field(j, "contactsComplete"@),
        spec_opt_read_messages(j),
        spec_opt_stickers(j),
        spec_opt_status(j),
    ) {
        (
            Some(sent),
            Some(contacts_complete),
            Some(read_messages),
            Some(sticker_pack_operations),
            Some(unidentified_status),
        ) => Some(
            SyncMessageV {
                sent,
                contacts_complete,
                read_messages,
                sticker_pack_operations,
                unidentified_status,
            },
        ),
        _ => None,
    }
}

pub fn sync_message_from(j: &Json) -> (r: Option<SyncMessage>)
    ensures
        match r {
            Some(x) => spec_sync_message(*j) == Some(x@),
            None => spec_sync_message(*j) is None,
        },
{
    let sent = match opt_sent_from(j) {
        Some(s) => s,
        None => {
            return None;
        },
    };
    let contacts_complete = match bool_field(j, "contactsComplete") {
        Some(b) => b,
        None => {
            return None;
        },
    };
    let read_messages = match opt_read_messages_from(j) {
        Some(v) => v,
        None => {
            return None;
        },
    };
    let sticker_pack_operations = match opt_stickers_from(j) {
        Some(v) => v,
        None => {
            return None;
        },
    };
    let unidentified_status = match opt_status_from(j) {
        Some(v) => v,
        None => {
            return None;
        },
    };
    Some(
        SyncMessage {
            sent,
            contacts_complete,
            read_messages,
            sticker_pack_operations,
            unidentified_status,
        },
    )
}

/// The optional sync record of an event envelope.
pub open spec fn spec_opt_sync(j: Json) -> Option<Option<SyncMessageV>> {
    match json_field(j, "syncMessage"@) {
        None => Some(None),
        Some(Json::Null) => Some(None),
        Some(sj) => match spec_sync_message(sj) {
            Some(s) => Some(Some(s)),
            None => None,
        },
    }
}

fn opt_sync_from(j: &Json) -> (r: Option<Option<SyncMessage>>)
    ensures
        match r {
            Some(Some(s)) => spec_opt_sync(*j) == Some(Some(s@)),
            Some(None) => spec_opt_sync(*j) == Some(None::<SyncMessageV>),
            None => spec_opt_sync(*j) is None,
        },
{
    match get_field(j, "syncMessage") {
        None => Some(None),
        Some(Json::Null) => Some(None),
        Some(sj) => match sync_message_from(sj) {
            Some(s) => Some(Some(s)),
            None => None,
        },
    }
}

/// The optional direct message of an event envelope.
pub open spec fn spec_opt_data_message(j: Json) -> Option<Option<Message>> {
    match json_field(j, "dataMessage"@) {
        None => Some(None),
        Some(Json::Null) => Some(None),
        Some(mj) => match spec_message(mj) {
            Some(m) => Some(Some(m)),
            None => None,
        },
    }
}

fn opt_data_message_from(j: &Json) -> (r: Option<Option<Message>>)
    ensures
        r == spec_opt_data_message(*j),
{
    match get_field(j, "dataMessage") {
        None => Some(None),
        Some(Json::Null) => Some(None),
        Some(mj) => match message_from(mj) {
            Some(m) => Some(Some(m)),
            None => None,
        },
    }
}

/// The optional typing indicator of an event envelope.
pub open spec fn spec_opt_typing(j: Json) -> Option<Option<Typing>> {
    match json_field(j, "typing"@) {
        None => Some(None),
        Some(Json::Null) => Some(None),
        Some(tj) => match spec_typing(tj) {
            Some(t) => Some(Some(t)),
            None => None,
        },
    }
}

fn opt_typing_from(j: &Json) -> (r: Option<Option<Typing>>)
    ensures
        r == spec_opt_typing(*j),
{
    match get_field(j, "typing") {
        None => Some(None),
        Some(Json::Null) => Some(None),
        Some(tj) => match typing_from(tj) {
            Some(t) => Some(Some(t)),
            None => None,
        },
    }
}

/// The optional delivery receipt of an event envelope.
pub open spec fn spec_opt_receipt(j: Json) -> Option<Option<ReceiptV>> {
    match json_field(j, "receipt"@) {
        None => Some(None),
        Some(Json::Null) => Some(None),
        Some(rj) => match spec_receipt(rj) {
            Some(x) => Some(Some(x)),
            None => None,
        },
    }
}

fn opt_receipt_from(j: &Json) -> (r: Option<Option<Receipt>>)
    ensures
        match r {
            Some(Some(x)) => spec_opt_receipt(*j) == Some(Some(x@)),
            Some(None) => spec_opt_receipt(*j) == Some(None::<ReceiptV>),
            None => spec_opt_receipt(*j) is None,
        },
{
    match get_field(j, "receipt") {
        None => Some(None),
        Some(Json::Null) => Some(None),
        Some(rj) => match receipt_from(rj) {
            Some(x) => Some(Some(x)),
            None => None,
        },
    }
}

/// The event envelope `j` decodes to, when well-formed: the required
/// timing and flag fields, and whichever kind-specific records are present.
pub open spec fn spec_message_data(j: Json) -> Option<MessageDataV> {
    match (
        spec_opt_str_field(j, "username"@),
        spec_opt_str_field(j, "uuid"@),
        spec_opt_str_field(j, "source"@),
        spec_opt_i32_field(j, "sourceDevice"@),
        spec_i32_field(j, "type"@),
        spec_i64_field(j, "timestamp"@),
        spec_str_field(j, "timestampISO"@),
        spec_i64_field(j, "serverTimestamp"@),
    ) {
        (
            Some(username),
            Some(uuid),
            Some(source),
            Some(source_device),
            Some(typ),
            Some(timestamp),
            Some(timestamp_iso),
            Some(server_timestamp),
        ) => match (
            spec_bool_field(j, "hasLegacyMessage"@),
            spec_bool_field(j, "hasContent"@),
            spec_opt_bool_field(j, "isSignalMessage"@),
            spec_opt_bool_field(j, "isPrekeySignalMessage"@),
            spec_bool_field(j, "isReceipt"@),
            spec_bool_field(j, "isUnidentifiedSender"@),
        ) {
            (
                Some(has_legacy_message),
                Some(has_content),
                Some(is_signal_message),
                Some(is_prekey_signal_message),
                Some(is_receipt),
                Some(is_unidentified_sender),
            ) => match (
                spec_opt_sync(j),
                spec_opt_data_message(j),
                spec_opt_typing(j),
                spec_opt_receipt(j),
            ) {
                (Some(sync_message), Some(data_message), Some(typing), Some(receipt)) => Some(
                    MessageDataV {
                        username,
                        uuid,
                        source,
                        source_device,
                        typ,
                        timestamp,
                        timestamp_iso,
                        server_timestamp,
                        has_legacy_message,
                        has_content,
                        is_signal_message,
                        is_prekey_signal_message,
                        is_receipt,
                        is_unidentified_sender,
                        sync_message,
                        data_message,
                        typing,
                        receipt,
                    },
                ),
                _ => None,
            },
            _ => None,
        },
        _ => None,
    }
}

pub fn message_data_from(j: &Json) -> (r: Option<MessageData>)
    ensures
        match r {
            Some(x) => spec_message_data(*j) == Some(x@),
            None => spec_message_data(*j) is None,
        },
{
    let username = match opt_str_field(j, "username") {
        Some(v) => v,
        None => {
            return None;
        },
    };
    let uuid = match opt_str_field(j, "uuid") {
        Some(v) => v,
        None => {
            return None;
        },
    };
    let source = match opt_str_field(j, "source") {
        Some(v) => v,
        None => {
            return None;
        },
    };
    let source_device = match opt_i32_field(j, "sourceDevice") {
        Some(v) => v,
        None => {
            return None;
        },
    };
    let typ = match i32_field(j, "type") {
        Some(v) => v,
        None => {
            return None;
        },
    };
    let timestamp = match i64_field(j, "timestamp") {
        Some(v) => v,
        None => {
            return None;
        },
    };
    let timestamp_iso = match str_field(j, "timestampISO") {
        Some(v) => v,
        None => {
            return None;
        },
    };
    let server_timestamp = match i64_field(j, "serverTimestamp") {
        Some(v) => v,
        None => {
            return None;
        },
    };
    let has_legacy_message = match bool_field(j, "hasLegacyMessage") {
        Some(v) => v,
        None => {
            return None;
        },
    };
    let has_content = match bool_field(j, "hasContent") {
        Some(v) => v,
        None => {
            return None;
        },
    };
    let is_signal_message = match opt_bool_field(j, "isSignalMessage") {
        Some(v) => v,
        None => {
            return None;
        },
    };
    let is_prekey_signal_message = match opt_bool_field(j, "isPrekeySignalMessage") {
        Some(v) => v,
        None => {
            return None;
        },
    };
    let is_receipt = match bool_field(j, "isReceipt") {
        Some(v) => v,
        None => {
            return None;
        },
    };
    let is_unidentified_sender = match bool_field(j, "isUnidentifiedSender") {
        Some(v) => v,
        None => {
            return None;
        },
    };
    let sync_message = match opt_sync_from(j) {
        Some(v) => v,
        None => {
            return None;
        },
    };
    let data_message = match opt_data_message_from(j) {
        Some(v) => v,
        None => {
            return None;
        },
    };
    let typing = match opt_typing_from(j) {
        Some(v) => v,
        None => {
            return None;
        },
    };
    let receipt = match opt_receipt_from(j) {
        Some(v) => v,
        None => {
            return None;
        },
    };
    Some(
        MessageData {
            username,
            uuid,
            source,
            source_device,
            typ,
            timestamp,
            timestamp_iso,
            server_timestamp,
            has_legacy_message,
            has_content,
            is_signal_message,
            is_prekey_signal_message,
            is_receipt,
            is_unidentified_sender,
            sync_message,
            data_message,
            typing,
            receipt,
        },
    )
}

// ===================== the tagged response =====================
/// Which kind of response was received. `BusUpdate` is the heartbeat the
/// liveness ticker injects locally; it never comes off the wire. An
/// unrecognized kind becomes `Unknown`, carrying the kind string and the
/// raw payload, so a future daemon message never fails to decode.
#[derive(Clone, Debug)]
pub enum ResponseType {
    BusUpdate,
    Message(MessageData),
    Version(VersionData),
    ContactList(Vec<Account>),
    LinkingUri(LinkingUri),
    LinkingError(LinkingError),
    Subscribed,
    Unsubscribed,
    Unknown(String, Json),
}

/// The kind strings the decoder recognizes.
pub open spec fn known_kind(typ: Seq<char>) -> bool {
    ||| typ == "contact_list"@
    ||| typ == "version"@
    ||| typ == "message"@
    ||| typ == "linking_uri"@
    ||| typ == "linking_error"@
    ||| typ == "subscribed"@
    ||| typ == "unsubscribed"@
}

/// Whether the payload `val` is well-formed for the kind `typ`. An unknown
/// kind accepts every payload.
pub open spec fn decode_ok(typ: Seq<char>, val: Json) -> bool {
    if typ == "contact_list"@ {
        spec_contact_list(val) is Some
    } else if typ == "version"@ {
        spec_version(val) is Some
    } else if typ == "message"@ {
        spec_message_data(val) is Some
    } else if typ == "linking_uri"@ {
        spec_linking_uri(val) is Some
    } else if typ == "linking_error"@ {
        spec_linking_error(val) is Some
    } else {
        true
    }
}

/// What decoding the kind `typ` with payload `val` yields: the response
/// tagged with the kind corresponding to `typ`, carrying exactly the
/// decoded payload, or the unknown fallback carrying `typ` and `val`
/// unchanged.
pub open spec fn decodes_to(typ: Seq<char>, val: Json, rt: ResponseType) -> bool {
    if typ == "contact_list"@ {
        rt matches ResponseType::ContactList(v) && spec_contact_list(val) == Some(v@)
    } else if typ == "version"@ {
        rt matches ResponseType::Version(d) && spec_version(val) == Some(d)
    } else if typ == "message"@ {
        rt matches ResponseType::Message(m) && spec_message_data(val) == Some(m@)
    } else if typ == "linking_uri"@ {
        rt matches ResponseType::LinkingUri(u) && spec_linking_uri(val) == Some(u)
    } else if typ == "linking_error"@ {
        rt matches ResponseType::LinkingError(e) && spec_linking_error(val) == Some(e)
    } else if typ == "subscribed"@ {
        rt is Subscribed
    } else if typ == "unsubscribed"@ {
        rt is Unsubscribed
    } else {
        rt matches ResponseType::Unknown(t, v) && t@ == typ && v == val
    }
}

impl ResponseType {
    /// Decodes the payload of one kind. Fails only for a recognized kind
    /// whose payload has the wrong shape, naming that kind in the error.
    pub fn new(typ: &str, val: Json) -> (r: Result<ResponseType, DecodeError>)
        ensures
            match r {
                Ok(rt) => decode_ok(typ@, val) && decodes_to(typ@, val, rt),
                Err(e) => !decode_ok(typ@, val) && (e matches DecodeError::BadPayload(k) && k@
                    == typ@),
            },
    {
        if str_eq(typ, "contact_list") {
            match contact_list_from(&val) {
                Some(v) => Ok(ResponseType::ContactList(v)),
                None => Err(DecodeError::BadPayload(typ.to_owned())),
            }
        } else if str_eq(typ, "version") {
            match version_from(&val) {
                Some(d) => Ok(ResponseType::Version(d)),
                None => Err(DecodeError::BadPayload(typ.to_owned())),
            }
        } else if str_eq(typ, "message") {
            match message_data_from(&val) {
                Some(m) => Ok(ResponseType::Message(m)),
                None => Err(DecodeError::BadPayload(typ.to_owned())),
            }
        } else if str_eq(typ, "linking_uri") {
            match linking_uri_from(&val) {
                Some(u) => Ok(ResponseType::LinkingUri(u)),
                None => Err(DecodeError::BadPayload(typ.to_owned())),
            }
        } else if str_eq(typ, "linking_error") {
            match linking_error_from(&val) {
                Some(e) => Ok(ResponseType::LinkingError(e)),
                None => Err(DecodeError::BadPayload(typ.to_owned())),
            }
        } else if str_eq(typ, "subscribed") {
            Ok(ResponseType::Subscribed)
        } else if str_eq(typ, "unsubscribed") {
            Ok(ResponseType::Unsubscribed)
        } else {
            Ok(ResponseType::Unknown(typ.to_owned(), val))
        }
    }
}

/// One decoded response: the optional correlation identifier and the
/// tagged payload.
#[derive(Clone, Debug)]
pub struct SignaldResponse {
    pub id: Option<String>,
    pub data: ResponseType,
}

/// The payload of a line: its `data` field, or null when there is none.
pub open spec fn spec_data(val: Json) -> Json {
    match json_field(val, "data"@) {
        Some(v) => v,
        None => Json::Null,
    }
}

#[verifier::loop_isolation(false)]
fn take_data(val: Json) -> (d: Json)
    ensures
        d == spec_data(val),
{
    let ghost gval = val;
    match val {
        Json::Obj(mut fields) => {
            let ghost orig = fields@;
            let n = fields.len();
            assert(fields@.subrange(0, n as int) =~= fields@);
            let mut i: usize = 0;
            while i < n
                invariant
                    i <= n,
                    n == orig.len(),
                    fields@ == orig,
                    lookup_field(orig, "data"@) == lookup_field(
                        orig.subrange(i as int, n as int),
                        "data"@,
                    ),
                decreases n - i,
            {
                let hit = {
                    let p = &fields[i];
                    assert(*p == orig[i as int]);
                    str_eq(p.0.as_str(), "data")
                };
                proof {
                    assert(orig.subrange(i as int, n as int)[0] == orig[i as int]);
                    assert(orig.subrange(i as int, n as int).drop_first() =~= orig.subrange(
                        i + 1 as int,
                        n as int,
                    ));
                }
                if hit {
                    proof {
                        assert(lookup_field(orig.subrange(i as int, n as int), "data"@) == Some(
                            orig[i as int].1,
                        ));
                    }
                    let pair = fields.remove(i);
                    return pair.1;
                }
                i += 1;
            }
            Json::Null
        },
        _ => Json::Null,
    }
}

/// What decoding the whole line value `val` yields: on success the
/// identifier is the line's `id` string when there is one, and the payload
/// decodes per its kind; each error names exactly why the line was refused.
pub open spec fn spec_from_value(val: Json, r: Result<SignaldResponse, DecodeError>) -> bool {
    match r {
        Ok(resp) => {
            &&& spec_str_field(val, "type"@) matches Some(t) && decode_ok(t@, spec_data(val))
                && decodes_to(t@, spec_data(val), resp.data)
            &&& resp.id == spec_str_field(val, "id"@)
        },
        Err(e) => match e {
            DecodeError::MissingType => spec_str_field(val, "type"@) is None,
            DecodeError::BadPayload(k) => spec_str_field(val, "type"@) matches Some(t) && k@ == t@
                && !decode_ok(t@, spec_data(val)),
            DecodeError::Syntax => false,
        },
    }
}

impl SignaldResponse {
    /// Decodes one parsed line: reads the required `type` field, the
    /// optional `id` field, and dispatches on the kind.
    pub fn from_value(val: Json) -> (r: Result<SignaldResponse, DecodeError>)
        ensures
            spec_from_value(val, r),
    {
        let typ: String = match str_field(&val, "type") {
            Some(t) => t,
            None => {
                return Err(DecodeError::MissingType);
            },
        };
        let id: Option<String> = str_field(&val, "id");
        let data = take_data(val);
        match ResponseType::new(typ.as_str(), data) {
            Ok(rt) => Ok(SignaldResponse { id, data: rt }),
            Err(e) => Err(e),
        }
    }

    /// Decodes one raw line of text.
    pub fn from_line(line: &str) -> (r: Result<SignaldResponse, DecodeError>)
        ensures
            match parsed_line(line@) {
                Ok(val) => spec_from_value(val, r),
                Err(e) => r == Err::<SignaldResponse, DecodeError>(e),
            },
    {
        match parse_line(line) {
            Ok(val) => SignaldResponse::from_value(val),
            Err(e) => Err(e),
        }
    }
}

// ===================== decode laws =====================
/// The kind string a response is tagged with; the heartbeat, which has no
/// wire form, is tagged with the empty string.
pub open spec fn response_kind(rt: ResponseType) -> Seq<char> {
    match rt {
        ResponseType::BusUpdate => Seq::empty(),
        ResponseType::Message(_) => "message"@,
        ResponseType::Version(_) => "version"@,
        ResponseType::ContactList(_) => "contact_list"@,
        ResponseType::LinkingUri(_) => "linking_uri"@,
        ResponseType::LinkingError(_) => "linking_error"@,
        ResponseType::Subscribed => "subscribed"@,
        ResponseType::Unsubscribed => "unsubscribed"@,
        ResponseType::Unknown(t, _) => t@,
    }
}

/// Decoding is kind-faithful: a decoded response is tagged with exactly the
/// kind string of its line; a known kind never yields the unknown fallback;
/// an unrecognized kind yields the fallback carrying that kind string and
/// the payload unchanged.
pub proof fn lemma_decode_kind_faithful(typ: Seq<char>, val: Json, rt: ResponseType)
    requires
        decodes_to(typ, val, rt),
    ensures
        response_kind(rt) == typ,
        known_kind(typ) ==> !(rt is Unknown),
        !known_kind(typ) ==> (rt matches ResponseType::Unknown(t, v) && t@ == typ && v == val),
{
}

/// A decoded response is never the heartbeat: heartbeats are injected
/// locally by the liveness ticker and never read off the wire.
pub proof fn lemma_decode_never_heartbeat(typ: Seq<char>, val: Json, rt: ResponseType)
    requires
        decodes_to(typ, val, rt),
    ensures
        !(rt is BusUpdate),
{
}

} // verus!
