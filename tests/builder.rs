use base64::Engine;
use send_grid::models::EmailAddress;
use send_grid::send_grid_sdk::{
    bearer_authorization, on_body, on_status, AttachmentDisposition, ResponseStep, SendGrid,
    SendOutcome, GLOBAL_API_URL,
};

fn s(v: &str) -> String {
    v.to_string()
}

fn builder() -> SendGrid {
    SendGrid::new(s("key-1"))
}

#[test]
fn disposition_strings() {
    assert_eq!(AttachmentDisposition::Attachment.as_str(), "attachment");
    assert_eq!(AttachmentDisposition::Inline.as_str(), "inline");
}

#[test]
fn new_builder_is_empty() {
    let b = builder();
    assert_eq!(b.api_key, "key-1");
    assert!(b.to.is_empty() && b.cc.is_empty() && b.bcc.is_empty());
    assert!(b.subject.is_none() && b.template_id.is_none() && b.from.is_none());
    assert!(b.dynamic_template_data.is_none());
    assert!(b.text_content.is_empty() && b.html_content.is_empty() && b.attachments.is_empty());
}

#[test]
fn recipients_keep_order_and_duplicates() {
    let b = builder()
        .set_to(s("a@x.com"), Some(s("A")))
        .set_to(s("b@x.com"), None)
        .set_to(s("a@x.com"), Some(s("A")));
    let p = b.into_payload();
    let to = &p.personalizations[0].to;
    assert_eq!(to.len(), 3);
    assert_eq!(to[0].email, "a@x.com");
    assert_eq!(to[0].name.as_deref(), Some("A"));
    assert_eq!(to[1].email, "b@x.com");
    assert!(to[1].name.is_none());
    assert_eq!(to[2].email, "a@x.com");
}

#[test]
fn last_sender_and_subject_win() {
    let p = builder()
        .set_from(s("old@x.com"), None)
        .set_from(s("new@x.com"), None)
        .set_subject(s("first"))
        .set_subject(s("second"))
        .into_payload();
    assert_eq!(p.from.as_ref().unwrap().email, "new@x.com");
    assert_eq!(p.subject.as_deref(), Some("second"));
}

#[test]
fn plain_bodies_come_before_html_whatever_the_order() {
    let p = builder()
        .set_html_content(s("<b>1</b>"))
        .set_text_content(s("one"))
        .set_html_content(s("<b>2</b>"))
        .set_text_content(s("two"))
        .into_payload();
    let c = p.content.unwrap();
    let got: Vec<(&str, &str)> = c.iter().map(|b| (b.content_type.as_str(), b.value.as_str())).collect();
    assert_eq!(
        got,
        vec![
            ("text/plain", "one"),
            ("text/plain", "two"),
            ("text/html", "<b>1</b>"),
            ("text/html", "<b>2</b>"),
        ]
    );
}

#[test]
fn no_bodies_means_no_content() {
    let p = builder().set_to(s("r@x.com"), None).into_payload();
    assert!(p.content.is_none());
    assert!(p.attachments.is_none());
}

#[test]
fn cc_and_bcc_absent_when_never_set() {
    let p = builder()
        .set_to(s("r@x.com"), None)
        .set_text_content(s("t"))
        .into_payload();
    assert!(p.personalizations[0].cc.is_none());
    assert!(p.personalizations[0].bcc.is_none());
}

#[test]
fn cc_list_follows_calls() {
    let p = builder()
        .set_cc(s("c1@x.com"))
        .set_bcc(s("b1@x.com"))
        .set_cc(s("c2@x.com"))
        .set_cc(s("c1@x.com"))
        .into_payload();
    let cc = p.personalizations[0].cc.as_ref().unwrap();
    let emails: Vec<&str> = cc.iter().map(|a| a.email.as_str()).collect();
    assert_eq!(emails, vec!["c1@x.com", "c2@x.com", "c1@x.com"]);
    assert!(cc.iter().all(|a| a.name.is_none()));
    let bcc = p.personalizations[0].bcc.as_ref().unwrap();
    assert_eq!(bcc.len(), 1);
    assert_eq!(bcc[0].email, "b1@x.com");
}

#[test]
fn attachment_content_round_trips() {
    let bytes: Vec<u8> = vec![0, 1, 2, 250, 255, 10, 13, 64];
    let b = builder().add_attachment(s("a.bin"), s("application/octet-stream"), AttachmentDisposition::Inline, bytes.clone());
    let a = &b.attachments[0];
    let decoded = base64::engine::general_purpose::STANDARD.decode(&a.content).unwrap();
    assert_eq!(decoded, bytes);
    assert_eq!(a.filename, "a.bin");
    assert_eq!(a.content_type, "application/octet-stream");
    assert_eq!(a.disposition, "inline");
}

#[test]
fn attachment_content_is_base64_text() {
    let b = builder()
        .add_attachment(s("h.txt"), s("text/plain"), AttachmentDisposition::Attachment, b"hello".to_vec())
        .add_attachment(s("e.txt"), s("text/plain"), AttachmentDisposition::Attachment, vec![])
        .add_attachment(s("x.bin"), s("application/octet-stream"), AttachmentDisposition::Attachment, vec![1, 2, 3]);
    assert_eq!(b.attachments[0].content, "aGVsbG8=");
    assert_eq!(b.attachments[1].content, "");
    assert_eq!(b.attachments[2].content, "AQID");
    assert_eq!(b.attachments[0].disposition, "attachment");
    let p = b.into_payload();
    assert_eq!(p.attachments.unwrap().len(), 3);
}

#[test]
fn last_template_wins() {
    let p = builder()
        .set_template_id(s("t-1"), serde_json::Value::String(s("first")))
        .set_subject(s("between"))
        .set_template_id(s("t-2"), serde_json::Value::Bool(true))
        .into_payload();
    assert_eq!(p.template_id.as_deref(), Some("t-2"));
    assert_eq!(p.personalizations[0].dynamic_template_data, Some(serde_json::Value::Bool(true)));
}

#[test]
fn sender_is_also_reply_to() {
    let p = builder().set_from(s("a@x.com"), Some(s("A"))).into_payload();
    let from = p.from.as_ref().unwrap();
    let reply_to = p.reply_to.as_ref().unwrap();
    assert_eq!(from.email, "a@x.com");
    assert_eq!(from.name.as_deref(), Some("A"));
    assert_eq!(reply_to.email, "a@x.com");
    assert_eq!(reply_to.name.as_deref(), Some("A"));
}

#[test]
fn minimal_message_payload() {
    let p = builder()
        .set_to(s("r@x.com"), None)
        .set_from(s("s@x.com"), None)
        .set_subject(s("Hi"))
        .set_text_content(s("hello"))
        .into_payload();
    assert_eq!(p.personalizations.len(), 1);
    let pers = &p.personalizations[0];
    assert_eq!(pers.to.len(), 1);
    assert_eq!(pers.to[0].email, "r@x.com");
    assert!(pers.to[0].name.is_none());
    assert!(pers.cc.is_none() && pers.bcc.is_none() && pers.dynamic_template_data.is_none());
    let from: &EmailAddress = p.from.as_ref().unwrap();
    assert_eq!(from.email, "s@x.com");
    assert!(from.name.is_none());
    assert_eq!(p.reply_to.as_ref().unwrap().email, "s@x.com");
    assert!(p.reply_to.as_ref().unwrap().name.is_none());
    assert_eq!(p.subject.as_deref(), Some("Hi"));
    let c = p.content.as_ref().unwrap();
    assert_eq!(c.len(), 1);
    assert_eq!(c[0].content_type, "text/plain");
    assert_eq!(c[0].value, "hello");
    assert!(p.attachments.is_none() && p.template_id.is_none() && p.categories.is_none());
    assert!(p.send_at.is_none() && p.batch_id.is_none() && p.suppression.is_none());
    assert!(p.ip_pool_name.is_none() && p.mail_settings.is_none() && p.tracking_settings.is_none());
}

#[test]
fn request_carries_bearer_credential() {
    let r = SendGrid::new(s("SG.abc")).set_to(s("r@x.com"), None).into_request();
    assert_eq!(r.authorization, "Bearer SG.abc");
    assert_eq!(r.payload.personalizations[0].to[0].email, "r@x.com");
    assert_eq!(bearer_authorization(""), "Bearer ");
    assert_eq!(GLOBAL_API_URL, "https://api.sendgrid.com");
}

#[test]
fn accepted_status_reads_no_body() {
    assert!(matches!(on_status(202), ResponseStep::Finished(SendOutcome::Sent(202))));
    assert!(matches!(on_status(200), ResponseStep::Finished(SendOutcome::Sent(200))));
    assert!(matches!(on_status(204), ResponseStep::Finished(SendOutcome::Sent(204))));
}

#[test]
fn refused_status_reads_body_once() {
    for status in [400u16, 199, 205, 500] {
        assert!(matches!(on_status(status), ResponseStep::ReadBody));
    }
    match on_body(400, s("bad request")) {
        SendOutcome::RejectedByProvider(code, body) => {
            assert_eq!(code, 400);
            assert_eq!(body, "bad request");
        }
        _ => panic!("expected a rejection"),
    }
}
