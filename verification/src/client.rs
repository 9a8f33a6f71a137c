//! The mail client: connection state, the default sender identity, and the
//! translation of every send operation into its wire-format request.
//!
//! The client owns the channel handle and reuses the same sender for every
//! send it issues. Building a request, and the authorization header that
//! accompanies it, is pure; the caller's I/O layer issues the call over the
//! channel and hands the outcome to [`crate::error::send_outcome`].

use crate::auth::auth_header;
use crate::auth::auth_header_of;
use crate::error::Error;
use crate::transport::endpoint_from_host;
use crate::transport::endpoint_parses;
use crate::transport::endpoint_tls_config;
use crate::transport::tls_config_new;
use crate::transport::tls_with_native_roots;
use crate::types::Attachment;
use crate::types::Recipient;
use crate::types::Sender;
use crate::types::SenderView;
use crate::wire::SendHtmlReq;
use crate::wire::SendTemplateReq;
use crate::wire::WireAttachment;
use crate::wire::WireRecipient;
use crate::wire::WireSender;
use crate::wire::wire_attachment_of;
use crate::wire::wire_recipient_of;
use std::collections::HashMap;
use vstd::prelude::*;

verus! {

/// Kannon mail client: tenant domain, authentication key, default sender,
/// and the exclusively owned channel handle to the remote service.
pub struct Kannon {
    domain: String,
    key: String,
    sender: Sender,
    channel: tonic::transport::Channel,
}

/// Mathematical value of a [`Kannon`] client: the fields its contracts
/// speak of. The channel handle is opaque and carries no view.
pub ghost struct KannonView {
    pub domain: Seq<char>,
    pub key: Seq<char>,
    pub sender: SenderView,
}

impl View for Kannon {
    type V = KannonView;

    closed spec fn view(&self) -> KannonView {
        KannonView { domain: self.domain@, key: self.key@, sender: self.sender@ }
    }
}

impl Kannon {
    /// Parses `host` and configures transport encryption with the
    /// platform's trusted certificate roots, without touching the network.
    /// This is the whole of client construction short of the connection
    /// attempt itself. A host string that does not parse as an endpoint URI
    /// fails here, before any connection could be attempted, and every
    /// failure is a connection failure.
    pub fn endpoint(host: String) -> (r: Result<tonic::transport::Endpoint, Error>)
        ensures
            r is Ok ==> endpoint_parses(host@),
            !endpoint_parses(host@) ==> r is Err,
            r matches Err(e) ==> e is ConnectionError,
    {
        let parsed = match endpoint_from_host(host) {
            Ok(e) => e,
            Err(cause) => {
                return Err(Error::ConnectionError(cause));
            },
        };
        let tls = tls_with_native_roots(tls_config_new());
        match endpoint_tls_config(parsed, tls) {
            Ok(configured) => Ok(configured),
            Err(cause) => Err(Error::ConnectionError(cause)),
        }
    }

    /// Instantiates the client around an already-connected channel, with
    /// the identity every send operation will use from now on.
    pub fn new(domain: String, key: String, sender: Sender, channel: tonic::transport::Channel) -> (k: Kannon)
        ensures
            k@.domain == domain@,
            k@.key == key@,
            k@.sender == sender@,
    {
        Kannon { domain, key, sender, channel }
    }

    /// The `authorization` header value attached to every call:
    /// `"Basic "` followed by the base64 encoding of `"<domain>:<key>"`.
    /// Recomputed on every call, never cached.
    pub fn get_auth_header(&self) -> (h: String)
        ensures
            h@ == auth_header_of(self@.domain, self@.key),
    {
        auth_header(self.domain.as_str(), self.key.as_str())
    }

    /// Builds the wire-format request of a raw-HTML send: the client's
    /// sender, the subject and HTML body verbatim, the recipients and
    /// attachments in their given order, no scheduled time, and an empty
    /// global-fields mapping. Nothing is rejected: an empty recipients or
    /// attachments sequence yields a well-formed request all the same.
    pub fn email_request(
        &self,
        recipients: Vec<Recipient>,
        subject: String,
        body: String,
        attachments: Vec<Attachment>,
    ) -> (req: SendHtmlReq)
        ensures
            req.sender matches Some(s) && s.email@ == self@.sender.email && s.alias@
                == self@.sender.alias,
            req.subject == subject,
            req.html == body,
            req.scheduled_time is None,
            req.recipients@.len() == recipients@.len(),
            forall|i: int|
                0 <= i < recipients@.len() ==> req.recipients@[i] == wire_recipient_of(
                    #[trigger] recipients@[i],
                ),
            req.attachments@.len() == attachments@.len(),
            forall|i: int|
                0 <= i < attachments@.len() ==> req.attachments@[i] == wire_attachment_of(
                    #[trigger] attachments@[i],
                ),
            req.global_fields@ == Map::<String, String>::empty(),
    {
        SendHtmlReq {
            sender: Some(WireSender::from(self.sender.clone())),
            subject,
            html: body,
            scheduled_time: None,
            recipients: wire_recipients(recipients),
            attachments: wire_attachments(attachments),
            global_fields: HashMap::new(),
        }
    }

    /// Builds the wire-format request of a templated send. Identical
    /// envelope to [`Kannon::email_request`], except that the opaque
    /// template identifier stands where the HTML body would; substitution
    /// of each recipient's fields happens on the remote side.
    pub fn template_request(
        &self,
        recipients: Vec<Recipient>,
        subject: String,
        template_id: String,
        attachments: Vec<Attachment>,
    ) -> (req: SendTemplateReq)
        ensures
            req.sender matches Some(s) && s.email@ == self@.sender.email && s.alias@
                == self@.sender.alias,
            req.subject == subject,
            req.template_id == template_id,
            req.scheduled_time is None,
            req.recipients@.len() == recipients@.len(),
            forall|i: int|
                0 <= i < recipients@.len() ==> req.recipients@[i] == wire_recipient_of(
                    #[trigger] recipients@[i],
                ),
            req.attachments@.len() == attachments@.len(),
            forall|i: int|
                0 <= i < attachments@.len() ==> req.attachments@[i] == wire_attachment_of(
                    #[trigger] attachments@[i],
                ),
            req.global_fields@ == Map::<String, String>::empty(),
    {
        SendTemplateReq {
            sender: Some(WireSender::from(self.sender.clone())),
            subject,
            template_id,
            scheduled_time: None,
            recipients: wire_recipients(recipients),
            attachments: wire_attachments(attachments),
            global_fields: HashMap::new(),
        }
    }

    /// The channel handle the client owns. The caller's I/O layer issues
    /// the prepared calls over it.
    pub fn channel(&self) -> &tonic::transport::Channel {
        &self.channel
    }
}

/// Translates a sequence of recipients into wire format, keeping order.
fn wire_recipients(recipients: Vec<Recipient>) -> (out: Vec<WireRecipient>)
    ensures
        out@.len() == recipients@.len(),
        forall|i: int|
            0 <= i < recipients@.len() ==> out@[i] == wire_recipient_of(
                #[trigger] recipients@[i],
            ),
{
    let ghost orig = recipients@;
    let mut rest = recipients;
    let mut out: Vec<WireRecipient> = Vec::new();
    while rest.len() > 0
        invariant
            out@.len() + rest@.len() == orig.len(),
            forall|j: int| 0 <= j < rest@.len() ==> #[trigger] rest@[j] == orig[out@.len() + j],
            forall|i: int| 0 <= i < out@.len() ==> #[trigger] out@[i] == wire_recipient_of(orig[i]),
        decreases rest@.len(),
    {
        let r = rest.remove(0);
        out.push(WireRecipient::from(r));
    }
    out
}

/// Translates a sequence of attachments into wire format, keeping order.
fn wire_attachments(attachments: Vec<Attachment>) -> (out: Vec<WireAttachment>)
    ensures
        out@.len() == attachments@.len(),
        forall|i: int|
            0 <= i < attachments@.len() ==> out@[i] == wire_attachment_of(
                #[trigger] attachments@[i],
            ),
{
    let ghost orig = attachments@;
    let mut rest = attachments;
    let mut out: Vec<WireAttachment> = Vec::new();
    while rest.len() > 0
        invariant
            out@.len() + rest@.len() == orig.len(),
            forall|j: int| 0 <= j < rest@.len() ==> #[trigger] rest@[j] == orig[out@.len() + j],
            forall|i: int| 0 <= i < out@.len() ==> #[trigger] out@[i] == wire_attachment_of(orig[i]),
        decreases rest@.len(),
    {
        let a = rest.remove(0);
        out.push(WireAttachment::from(a));
    }
    out
}

} // verus!
