//! Wire-format message shapes exchanged with the remote mail service.
//!
//! These mirror the service's interface description exactly: a `Sender` and a
//! `Recipient` shape shared by both calls, an `Attachment`, and the two
//! request envelopes `SendHtmlReq` and `SendTemplateReq`. Field names and
//! shapes must be preserved when mapping from the domain types; the
//! conversions below are pure and are stated field by field.

use crate::types::Attachment;
use crate::types::Recipient;
use crate::types::Sender;
use std::collections::HashMap;
use vstd::prelude::*;

verus! {

/// Wire shape of a sender identity.
#[derive(Debug, PartialEq)]
pub struct WireSender {
    pub email: String,
    pub alias: String,
}

/// Wire shape of one recipient, with its substitution fields.
#[derive(Debug, PartialEq)]
pub struct WireRecipient {
    pub email: String,
    pub fields: HashMap<String, String>,
}

/// Wire shape of one attachment.
#[derive(Debug, PartialEq)]
pub struct WireAttachment {
    pub filename: String,
    pub content: Vec<u8>,
}

/// Wire shape of a point in time, for the optional scheduled send. This
/// layer never populates it: every request goes out with the field unset.
#[derive(Debug, Clone, Copy, PartialEq)]
pub struct WireTimestamp {
    pub seconds: i64,
    pub nanos: i32,
}

/// Request envelope of the raw-HTML send call.
#[derive(Debug, PartialEq)]
pub struct SendHtmlReq {
    pub sender: Option<WireSender>,
    pub subject: String,
    pub html: String,
    pub scheduled_time: Option<WireTimestamp>,
    pub recipients: Vec<WireRecipient>,
    pub attachments: Vec<WireAttachment>,
    pub global_fields: HashMap<String, String>,
}

/// Request envelope of the templated send call.
#[derive(Debug, PartialEq)]
pub struct SendTemplateReq {
    pub sender: Option<WireSender>,
    pub subject: String,
    pub template_id: String,
    pub scheduled_time: Option<WireTimestamp>,
    pub recipients: Vec<WireRecipient>,
    pub attachments: Vec<WireAttachment>,
    pub global_fields: HashMap<String, String>,
}

/// What the wire shape of a domain [`Sender`] is: the same two fields.
pub open spec fn wire_sender_of(s: Sender) -> WireSender {
    WireSender { email: s.email, alias: s.alias }
}

/// What the wire shape of a domain [`Recipient`] is: the same address and
/// the very same fields mapping (same keys, same values, nothing added,
/// dropped or duplicated).
pub open spec fn wire_recipient_of(r: Recipient) -> WireRecipient {
    WireRecipient { email: r.email, fields: r.fields }
}

/// What the wire shape of a domain [`Attachment`] is: the same two fields.
pub open spec fn wire_attachment_of(a: Attachment) -> WireAttachment {
    WireAttachment { filename: a.filename, content: a.content }
}

impl From<Sender> for WireSender {
    fn from(val: Sender) -> (res: Self)
        ensures
            res == wire_sender_of(val),
    {
        WireSender { email: val.email, alias: val.alias }
    }
}

impl vstd::std_specs::convert::FromSpecImpl<Sender> for WireSender {
    open spec fn obeys_from_spec() -> bool {
        true
    }

    open spec fn from_spec(val: Sender) -> Self {
        wire_sender_of(val)
    }
}

impl From<Recipient> for WireRecipient {
    fn from(val: Recipient) -> (res: Self)
        ensures
            res == wire_recipient_of(val),
    {
        WireRecipient { email: val.email, fields: val.fields }
    }
}

impl vstd::std_specs::convert::FromSpecImpl<Recipient> for WireRecipient {
    open spec fn obeys_from_spec() -> bool {
        true
    }

    open spec fn from_spec(val: Recipient) -> Self {
        wire_recipient_of(val)
    }
}

impl From<Attachment> for WireAttachment {
    fn from(val: Attachment) -> (res: Self)
        ensures
            res == wire_attachment_of(val),
    {
        WireAttachment { filename: val.filename, content: val.content }
    }
}

impl vstd::std_specs::convert::FromSpecImpl<Attachment> for WireAttachment {
    open spec fn obeys_from_spec() -> bool {
        true
    }

    open spec fn from_spec(val: Attachment) -> Self {
        wire_attachment_of(val)
    }
}

/// A recipient's fields mapping survives the trip into wire format
/// unchanged: the wire recipient holds the identical mapping, so the two
/// agree on every key and every value, with no loss and no duplication.
pub proof fn lemma_recipient_fields_round_trip(r: Recipient)
    ensures
        wire_recipient_of(r).fields == r.fields,
        wire_recipient_of(r).fields@ == r.fields@,
        wire_recipient_of(r).email == r.email,
{
}

} // verus!
