//! Domain value types: the sender identity, the addressees of a send
//! operation, and binary attachments.

use std::collections::HashMap;
use vstd::prelude::*;

verus! {

/// The identity emails are sent from: an address and a display alias.
#[derive(Debug, PartialEq)]
pub struct Sender {
    pub email: String,
    pub alias: String,
}

/// Mathematical value of a [`Sender`]: both fields as character sequences.
pub ghost struct SenderView {
    pub email: Seq<char>,
    pub alias: Seq<char>,
}

impl View for Sender {
    type V = SenderView;

    open spec fn view(&self) -> SenderView {
        SenderView { email: self.email@, alias: self.alias@ }
    }
}

impl Clone for Sender {
    fn clone(&self) -> (res: Self)
        ensures
            res@ == self@,
    {
        Sender { email: self.email.clone(), alias: self.alias.clone() }
    }
}

/// A recipient to which to send emails.
///
/// The recipient can also carry additional fields, replaced by the remote
/// service when sending the email: if the body or template contains
/// `{{ name }}` and `fields` maps `"name"` to `"Test User"`, the placeholder
/// is replaced with `Test User`. The mapping has unique keys, no ordering,
/// and may be empty.
#[derive(Debug, Clone, PartialEq)]
pub struct Recipient {
    pub email: String,
    pub fields: HashMap<String, String>,
}

/// A binary file attached to an email. The content is an opaque byte
/// sequence; no size or content-type validation happens in this layer.
#[derive(Debug, Clone, PartialEq)]
pub struct Attachment {
    pub filename: String,
    pub content: Vec<u8>,
}

} // verus!
