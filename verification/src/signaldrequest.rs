//! Outbound requests: a field-by-field builder and the exact JSON line a
//! request is written as.

use vstd::prelude::*;
use crate::wire::{escaped_str, push_escaped, push_str_chars};
use crate::json::string_from_chars;

verus! {

/// One request to the daemon, immutable once built. Every request carries a
/// command name; the remaining fields are present only for the commands
/// that use them.
#[derive(Clone, Debug)]
pub struct SignaldRequest {
    pub typ: String,
    pub username: Option<String>,
    pub recipient_number: Option<String>,
    pub message_body: Option<String>,
    pub id: Option<String>,
}

/// The characters of an optional string, when there is one.
pub open spec fn opt_view(v: Option<String>) -> Option<Seq<char>> {
    match v {
        Some(s) => Some(s@),
        None => None,
    }
}

/// How one optional field is written: nothing when absent, a comma, the
/// field name and the escaped value when present.
pub open spec fn opt_field_wire(name: Seq<char>, v: Option<Seq<char>>) -> Seq<char> {
    match v {
        Some(s) => ",\""@ + name + "\":\""@ + escaped_str(s) + "\""@,
        None => Seq::empty(),
    }
}

/// The exact line a request with these fields is written as: a JSON object
/// holding `type` first, then `username`, `recipientNumber`, `messageBody`
/// and `id`, each only when present.
pub open spec fn wire_line(
    typ: Seq<char>,
    username: Option<Seq<char>>,
    recipient_number: Option<Seq<char>>,
    message_body: Option<Seq<char>>,
    id: Option<Seq<char>>,
) -> Seq<char> {
    "{\"type\":\""@ + escaped_str(typ) + "\""@ + opt_field_wire("username"@, username)
        + opt_field_wire("recipientNumber"@, recipient_number) + opt_field_wire(
        "messageBody"@,
        message_body,
    ) + opt_field_wire("id"@, id) + "}"@
}

/// The exact line a request value is written as.
pub open spec fn request_wire(req: SignaldRequest) -> Seq<char> {
    wire_line(
        req.typ@,
        opt_view(req.username),
        opt_view(req.recipient_number),
        opt_view(req.message_body),
        opt_view(req.id),
    )
}

fn push_opt_field(name: &str, v: &Option<String>, out: &mut Vec<char>)
    ensures
        final(out)@ == old(out)@ + opt_field_wire(name@, opt_view(*v)),
{
    match v {
        Some(s) => {
            push_str_chars(",\"", out);
            push_str_chars(name, out);
            push_str_chars("\":\"", out);
            push_escaped(s.as_str(), out);
            push_str_chars("\"", out);
            proof {
                assert(out@ =~= old(out)@ + opt_field_wire(name@, opt_view(*v)));
            }
        },
        None => {},
    }
}

fn clone_opt_string(v: &Option<String>) -> (r: Option<String>)
    ensures
        r == *v,
{
    match v {
        Some(s) => Some(s.clone()),
        None => None,
    }
}

impl SignaldRequest {
    /// The newline-free JSON line this request is sent as.
    pub fn to_json_string(&self) -> (r: String)
        ensures
            r@ == request_wire(*self),
    {
        let mut out: Vec<char> = Vec::new();
        push_str_chars("{\"type\":\"", &mut out);
        push_escaped(self.typ.as_str(), &mut out);
        push_str_chars("\"", &mut out);
        push_opt_field("username", &self.username, &mut out);
        push_opt_field("recipientNumber", &self.recipient_number, &mut out);
        push_opt_field("messageBody", &self.message_body, &mut out);
        push_opt_field("id", &self.id, &mut out);
        push_str_chars("}", &mut out);
        proof {
            assert(out@ =~= request_wire(*self));
        }
        string_from_chars(&out)
    }
}

/// Builds a request one field at a time; `build` leaves the builder intact
/// so a caller may reuse it after a `flush`.
pub struct SignaldRequestBuilder {
    pub typ: String,
    pub username: Option<String>,
    pub recipient_number: Option<String>,
    pub message_body: Option<String>,
    pub id: Option<String>,
}

impl SignaldRequestBuilder {
    /// The request this builder currently describes.
    pub open spec fn spec_request(&self) -> SignaldRequest {
        SignaldRequest {
            typ: self.typ,
            username: self.username,
            recipient_number: self.recipient_number,
            message_body: self.message_body,
            id: self.id,
        }
    }

    /// A builder with no command name and no optional fields.
    pub fn new() -> (r: Self)
        ensures
            r.typ@ == Seq::<char>::empty(),
            r.username is None,
            r.recipient_number is None,
            r.message_body is None,
            r.id is None,
    {
        SignaldRequestBuilder {
            typ: String::new(),
            username: None,
            recipient_number: None,
            message_body: None,
            id: None,
        }
    }

    /// Clears every field, so the builder can describe a fresh request.
    pub fn flush(&mut self)
        ensures
            final(self).typ@ == Seq::<char>::empty(),
            final(self).username is None,
            final(self).recipient_number is None,
            final(self).message_body is None,
            final(self).id is None,
    {
        self.typ = String::new();
        self.username = None;
        self.recipient_number = None;
        self.message_body = None;
        self.id = None;
    }

    pub fn set_type(&mut self, typ: String)
        ensures
            *final(self) == (SignaldRequestBuilder { typ, ..*old(self) }),
    {
        self.typ = typ;
    }

    pub fn set_username(&mut self, username: String)
        ensures
            *final(self) == (SignaldRequestBuilder { username: Some(username), ..*old(self) }),
    {
        self.username = Some(username);
    }

    pub fn set_recipient_number(&mut self, recipient_number: String)
        ensures
            *final(self) == (SignaldRequestBuilder {
                recipient_number: Some(recipient_number),
                ..*old(self)
            }),
    {
        self.recipient_number = Some(recipient_number);
    }

    pub fn set_message_body(&mut self, message_body: String)
        ensures
            *final(self) == (SignaldRequestBuilder {
                message_body: Some(message_body),
                ..*old(self)
            }),
    {
        self.message_body = Some(message_body);
    }

    pub fn set_id(&mut self, id: String)
        ensures
            *final(self) == (SignaldRequestBuilder { id: Some(id), ..*old(self) }),
    {
        self.id = Some(id);
    }

    /// The request described so far; the builder keeps its fields.
    pub fn build(&self) -> (r: SignaldRequest)
        ensures
            r == self.spec_request(),
    {
        SignaldRequest {
            typ: self.typ.clone(),
            username: clone_opt_string(&self.username),
            recipient_number: clone_opt_string(&self.recipient_number),
            message_body: clone_opt_string(&self.message_body),
            id: clone_opt_string(&self.id),
        }
    }
}

} // verus!
