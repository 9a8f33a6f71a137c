use kannon::auth::auth_header;
use kannon::error::send_outcome;
use kannon::wire::WireAttachment;
use kannon::wire::WireRecipient;
use kannon::Attachment;
use kannon::Error;
use kannon::Kannon;
use kannon::Recipient;
use kannon::Sender;
use std::collections::HashMap;

/// Builds a client over a lazy channel: no connection is attempted until a
/// call would go out, and these tests never issue one. The runtime is
/// returned so that the channel's background task has somewhere to live.
fn lazy_client(
    domain: &str,
    key: &str,
    sender_email: &str,
    alias: &str,
) -> (tokio::runtime::Runtime, Kannon) {
    let rt = tokio::runtime::Builder::new_current_thread().build().unwrap();
    let guard = rt.enter();
    let channel = tonic::transport::Endpoint::from_static("http://127.0.0.1:1").connect_lazy();
    drop(guard);
    let sender = Sender {
        email: sender_email.to_string(),
        alias: alias.to_string(),
    };
    let client = Kannon::new(domain.to_string(), key.to_string(), sender, channel);
    (rt, client)
}

#[test]
fn auth_header_is_basic_then_base64() {
    assert_eq!(
        auth_header("example.com", "secret"),
        "Basic ZXhhbXBsZS5jb206c2VjcmV0"
    );
}

#[test]
fn auth_header_decodes_back_to_domain_colon_key() {
    let pairs = [
        ("example.com", "secret"),
        ("tenant.io", "p@ss:word"),
        ("a", "b"),
    ];
    for (domain, key) in pairs {
        let header = auth_header(domain, key);
        let suffix = header
            .strip_prefix("Basic ")
            .expect("header must start with the scheme token");
        let decoded =
            base64::Engine::decode(&base64::engine::general_purpose::STANDARD, suffix).unwrap();
        assert_eq!(decoded, format!("{}:{}", domain, key).into_bytes());
    }
}

#[test]
fn client_auth_header_matches_free_function() {
    let (_rt, client) = lazy_client("tenant.io", "key0", "s@tenant.io", "S");
    assert_eq!(client.get_auth_header(), auth_header("tenant.io", "key0"));
}

#[test]
fn endpoint_rejects_unparseable_host() {
    let r = Kannon::endpoint("not a valid uri".to_string());
    assert!(matches!(r, Err(Error::ConnectionError(_))));
}

#[test]
fn endpoint_rejects_empty_host() {
    let r = Kannon::endpoint(String::new());
    assert!(matches!(r, Err(Error::ConnectionError(_))));
}

#[test]
fn email_request_accepts_empty_recipients_and_attachments() {
    let (_rt, client) = lazy_client("example.com", "secret", "a@example.com", "A");
    let req = client.email_request(Vec::new(), "Subject".to_string(), "<p>Body</p>".to_string(), Vec::new());
    let sender = req.sender.expect("sender must be set");
    assert_eq!(sender.email, "a@example.com");
    assert_eq!(sender.alias, "A");
    assert_eq!(req.subject, "Subject");
    assert_eq!(req.html, "<p>Body</p>");
    assert!(req.scheduled_time.is_none());
    assert!(req.recipients.is_empty());
    assert!(req.attachments.is_empty());
    assert!(req.global_fields.is_empty());
}

#[test]
fn requests_never_schedule_and_never_fill_global_fields() {
    let (_rt, client) = lazy_client("example.com", "secret", "a@example.com", "A");
    let mut fields = HashMap::new();
    fields.insert("name".to_string(), "Test User".to_string());
    let recipients = vec![Recipient {
        email: "b@example.com".to_string(),
        fields: fields.clone(),
    }];
    let attachments = vec![Attachment {
        filename: "f.txt".to_string(),
        content: vec![1, 2, 3],
    }];
    let req = client.email_request(
        recipients.clone(),
        "S".to_string(),
        "<p>B</p>".to_string(),
        attachments.clone(),
    );
    assert!(req.scheduled_time.is_none());
    assert!(req.global_fields.is_empty());

    let req = client.template_request(recipients, "S".to_string(), "tmpl-1".to_string(), attachments);
    assert!(req.scheduled_time.is_none());
    assert!(req.global_fields.is_empty());
    assert_eq!(req.template_id, "tmpl-1");
    assert_eq!(req.subject, "S");
}

#[test]
fn recipient_fields_round_trip_unchanged() {
    let mut fields = HashMap::new();
    fields.insert("name".to_string(), "Test User".to_string());
    fields.insert("city".to_string(), "Rome".to_string());
    fields.insert("dup".to_string(), "Rome".to_string());
    let recipient = Recipient {
        email: "test@email.com".to_string(),
        fields: fields.clone(),
    };
    let wire: WireRecipient = recipient.into();
    assert_eq!(wire.email, "test@email.com");
    assert_eq!(wire.fields, fields);
}

#[test]
fn recipient_fields_round_trip_through_request() {
    let (_rt, client) = lazy_client("example.com", "secret", "a@example.com", "A");
    let mut fields = HashMap::new();
    fields.insert("name".to_string(), "Test User".to_string());
    let recipients = vec![
        Recipient {
            email: "b@example.com".to_string(),
            fields: fields.clone(),
        },
        Recipient {
            email: "c@example.com".to_string(),
            fields: HashMap::new(),
        },
    ];
    let req = client.email_request(recipients, "S".to_string(), "B".to_string(), Vec::new());
    assert_eq!(req.recipients.len(), 2);
    assert_eq!(req.recipients[0].email, "b@example.com");
    assert_eq!(req.recipients[0].fields, fields);
    assert_eq!(req.recipients[1].email, "c@example.com");
    assert!(req.recipients[1].fields.is_empty());
}

#[test]
fn attachments_keep_name_content_and_order() {
    let a = Attachment {
        filename: "one.bin".to_string(),
        content: vec![0, 255, 7],
    };
    let wire: WireAttachment = a.into();
    assert_eq!(wire.filename, "one.bin");
    assert_eq!(wire.content, vec![0, 255, 7]);

    let (_rt, client) = lazy_client("example.com", "secret", "a@example.com", "A");
    let attachments = vec![
        Attachment {
            filename: "one.bin".to_string(),
            content: vec![1],
        },
        Attachment {
            filename: "two.bin".to_string(),
            content: vec![2],
        },
    ];
    let req = client.email_request(Vec::new(), "S".to_string(), "B".to_string(), attachments);
    assert_eq!(req.attachments.len(), 2);
    assert_eq!(req.attachments[0].filename, "one.bin");
    assert_eq!(req.attachments[1].filename, "two.bin");
}

#[test]
fn send_outcome_wraps_the_exact_status() {
    let status = tonic::Status::permission_denied("denied");
    let r = send_outcome(Err(status));
    match r {
        Err(Error::SendMailError(s)) => {
            assert_eq!(s.code(), tonic::Code::PermissionDenied);
            assert_eq!(s.message(), "denied");
        }
        other => panic!("expected a send failure, got {:?}", other),
    }
}

#[test]
fn send_outcome_passes_success_through() {
    assert!(matches!(send_outcome(Ok(())), Ok(())));
}

#[test]
fn scenario_single_recipient_email() {
    let (_rt, client) = lazy_client("example.com", "secret", "a@example.com", "A");
    assert_eq!(client.get_auth_header(), "Basic ZXhhbXBsZS5jb206c2VjcmV0");
    let recipients = vec![Recipient {
        email: "b@example.com".to_string(),
        fields: HashMap::new(),
    }];
    let req = client.email_request(recipients, "Hi".to_string(), "<p>Hi</p>".to_string(), Vec::new());
    let sender = req.sender.expect("sender must be set");
    assert_eq!(sender.alias, "A");
    assert_eq!(sender.email, "a@example.com");
    assert_eq!(req.recipients.len(), 1);
    assert_eq!(req.recipients[0].email, "b@example.com");
    assert!(req.attachments.is_empty());
}
