use vstd::prelude::*;
use base64::Engine;
use crate::models::{EmailAddress, EmailAttachment, EmailContentJsonModel, EmailPostModel, Personalization, PersonalizationView, PostView};

verus! {

/// Base URL of the provider's API.
pub const GLOBAL_API_URL: &'static str = "https://api.sendgrid.com";

/// What the provider is given as `content` for a base64 encoding of `bytes`.
pub uninterp spec fn base64_of(bytes: Seq<u8>) -> Seq<char>;

/// Relies on base64's `Engine::encode` with the `STANDARD` engine (standard
/// alphabet, padded): the text depends on the bytes alone. It panics only
/// when the encoded length overflows `usize`, which the bound rules out.
#[verifier::external_body]
fn encode_base64(bytes: &Vec<u8>) -> (r: String)
    requires
        bytes@.len() <= usize::MAX / 2,
    ensures
        r@ == base64_of(bytes@),
{
    base64::engine::general_purpose::STANDARD.encode(bytes)
}

/// How an attachment is shown to the reader.
pub enum AttachmentDisposition {
    Attachment,
    Inline,
}

impl AttachmentDisposition {
    pub open spec fn spec_str(&self) -> Seq<char> {
        match self {
            AttachmentDisposition::Attachment => "attachment"@,
            AttachmentDisposition::Inline => "inline"@,
        }
    }

    pub fn as_str(&self) -> (r: &'static str)
        ensures
            r@ == self.spec_str(),
    {
        match self {
            AttachmentDisposition::Attachment => "attachment",
            AttachmentDisposition::Inline => "inline",
        }
    }
}


/// The message being assembled: recipients, sender, subject, bodies,
/// attachments and template reference, plus the credential for the request.
pub struct SendGrid {
    pub api_key: String,
    pub to: Vec<EmailAddress>,
    pub cc: Vec<EmailAddress>,
    pub bcc: Vec<EmailAddress>,
    pub subject: Option<String>,
    pub template_id: Option<String>,
    pub dynamic_template_data: Option<serde_json::Value>,
    pub text_content: Vec<String>,
    pub html_content: Vec<String>,
    pub from: Option<EmailAddress>,
    pub attachments: Vec<EmailAttachment>,
}

/// What a builder holds, with its lists as sequences and each body as text.
pub struct BuilderView {
    pub api_key: Seq<char>,
    pub to: Seq<EmailAddress>,
    pub cc: Seq<EmailAddress>,
    pub bcc: Seq<EmailAddress>,
    pub subject: Option<String>,
    pub template_id: Option<String>,
    pub dynamic_template_data: Option<serde_json::Value>,
    pub text_content: Seq<Seq<char>>,
    pub html_content: Seq<Seq<char>>,
    pub from: Option<EmailAddress>,
    pub attachments: Seq<EmailAttachment>,
}

impl View for SendGrid {
    type V = BuilderView;

    open spec fn view(&self) -> BuilderView {
        BuilderView {
            api_key: self.api_key@,
            to: self.to@,
            cc: self.cc@,
            bcc: self.bcc@,
            subject: self.subject,
            template_id: self.template_id,
            dynamic_template_data: self.dynamic_template_data,
            text_content: self.text_content@.map_values(|t: String| t@),
            html_content: self.html_content@.map_values(|h: String| h@),
            from: self.from,
            attachments: self.attachments@,
        }
    }
}

/// One setter call on a builder, with what it was given.
pub enum BuilderCall {
    To(EmailAddress),
    From(EmailAddress),
    Subject(String),
    Text(Seq<char>),
    Html(Seq<char>),
    Attachment(EmailAttachment),
    Template(String, serde_json::Value),
    Cc(String),
    Bcc(String),
}

/// A builder as `new` makes it.
pub open spec fn fresh_builder(api_key: Seq<char>) -> BuilderView {
    BuilderView {
        api_key,
        to: Seq::empty(),
        cc: Seq::empty(),
        bcc: Seq::empty(),
        subject: None,
        template_id: None,
        dynamic_template_data: None,
        text_content: Seq::empty(),
        html_content: Seq::empty(),
        from: None,
        attachments: Seq::empty(),
    }
}

/// The builder after one setter call: lists grow at the end, single values
/// are overwritten.
pub open spec fn apply_call(v: BuilderView, c: BuilderCall) -> BuilderView {
    match c {
        BuilderCall::To(a) => BuilderView { to: v.to.push(a), ..v },
        BuilderCall::From(a) => BuilderView { from: Some(a), ..v },
        BuilderCall::Subject(s) => BuilderView { subject: Some(s), ..v },
        BuilderCall::Text(t) => BuilderView { text_content: v.text_content.push(t), ..v },
        BuilderCall::Html(h) => BuilderView { html_content: v.html_content.push(h), ..v },
        BuilderCall::Attachment(a) => BuilderView { attachments: v.attachments.push(a), ..v },
        BuilderCall::Template(id, data) => BuilderView {
            template_id: Some(id),
            dynamic_template_data: Some(data),
            ..v
        },
        BuilderCall::Cc(e) => BuilderView { cc: v.cc.push(EmailAddress { email: e, name: None }), ..v },
        BuilderCall::Bcc(e) => BuilderView { bcc: v.bcc.push(EmailAddress { email: e, name: None }), ..v },
    }
}

/// The builder after a sequence of setter calls, in order.
pub open spec fn apply_calls(v: BuilderView, calls: Seq<BuilderCall>) -> BuilderView
    decreases calls.len(),
{
    if calls.len() == 0 {
        v
    } else {
        apply_call(apply_calls(v, calls.drop_last()), calls.last())
    }
}

/// MIME type of a plain-text body.
pub open spec fn plain_type() -> Seq<char> {
    "text/plain"@
}

/// MIME type of an HTML body.
pub open spec fn html_type() -> Seq<char> {
    "text/html"@
}

/// The body list of a request: every plain-text body, then every HTML body,
/// each list in its own order.
pub open spec fn merged_content(texts: Seq<Seq<char>>, htmls: Seq<Seq<char>>) -> Seq<(Seq<char>, Seq<char>)> {
    texts.map_values(|t: Seq<char>| (plain_type(), t)) + htmls.map_values(|h: Seq<char>| (html_type(), h))
}

/// A list that is left out of the request when it is empty.
pub open spec fn unless_empty<T>(s: Seq<T>) -> Option<Seq<T>> {
    if s.len() == 0 {
        None
    } else {
        Some(s)
    }
}

/// The request body that a builder stands for: one personalization, the
/// sender as both `from` and `reply_to`, and empty lists left out.
pub open spec fn payload_of(v: BuilderView) -> PostView {
    PostView {
        personalizations: seq![PersonalizationView {
            to: v.to,
            cc: unless_empty(v.cc),
            bcc: unless_empty(v.bcc),
            dynamic_template_data: v.dynamic_template_data,
        }],
        from: v.from,
        reply_to: v.from,
        attachments: unless_empty(v.attachments),
        subject: v.subject,
        template_id: v.template_id,
        categories: None,
        content: unless_empty(merged_content(v.text_content, v.html_content)),
        send_at: None,
        batch_id: None,
        suppression: None,
        ip_pool_name: None,
        mail_settings: None,
        tracking_settings: None,
    }
}

/// The header value that carries the credential.
pub open spec fn bearer_of(api_key: Seq<char>) -> Seq<char> {
    "Bearer "@ + api_key
}

/// What a send hands to the transport: the `Authorization` header value and
/// the body to post to `/v3/mail/send`.
pub struct MailSendRequest {
    pub authorization: String,
    pub payload: EmailPostModel,
}

/// `Some(list)`, or `None` for an empty list.
fn list_unless_empty<T>(list: Vec<T>) -> (r: Option<Vec<T>>)
    ensures
        crate::models::opt_list_view(r) == unless_empty(list@),
{
    if list.len() == 0 {
        None
    } else {
        Some(list)
    }
}

/// Appends one block of the given MIME type for each body, in order.
fn push_blocks(content: &mut Vec<EmailContentJsonModel>, bodies: &Vec<String>, content_type: &str)
    ensures
        final(content)@.map_values(|b: EmailContentJsonModel| b@) == old(content)@.map_values(
            |b: EmailContentJsonModel| b@,
        ) + bodies@.map_values(|t: String| t@).map_values(|t: Seq<char>| (content_type@, t)),
{
    let ghost start = content@.map_values(|b: EmailContentJsonModel| b@);
    let mut i: usize = 0;
    while i < bodies.len()
        invariant
            i <= bodies@.len(),
            content@.map_values(|b: EmailContentJsonModel| b@) == start + bodies@.take(i as int).map_values(
                |t: String| (content_type@, t@),
            ),
        decreases bodies@.len() - i,
    {
        let block = EmailContentJsonModel { content_type: content_type.to_owned(), value: bodies[i].clone() };
        let ghost prev = content@;
        assert(block@ == (content_type@, bodies@[i as int]@));
        content.push(block);
        proof {
            assert(content@.map_values(|b: EmailContentJsonModel| b@) =~= prev.map_values(
                |b: EmailContentJsonModel| b@,
            ).push(block@));
            assert(bodies@.take(i + 1) =~= bodies@.take(i as int).push(bodies@[i as int]));
            assert(bodies@.take(i + 1).map_values(|t: String| (content_type@, t@)) =~= bodies@.take(
                i as int,
            ).map_values(|t: String| (content_type@, t@)).push(block@));
            assert(content@.map_values(|b: EmailContentJsonModel| b@) =~= start + bodies@.take(
                (i + 1) as int,
            ).map_values(|t: String| (content_type@, t@)));
        }
        i = i + 1;
    }
    proof {
        assert(bodies@.take(i as int) =~= bodies@);
        assert(bodies@.map_values(|t: String| (content_type@, t@)) =~= bodies@.map_values(
            |t: String| t@,
        ).map_values(|t: Seq<char>| (content_type@, t)));
    }
}

/// A status by which the provider accepts a message (200 through 204); any
/// other status has its response body read for the report.
pub open spec fn is_accepted(status: u16) -> bool {
    200 <= status <= 204
}

/// How a send ended.
pub enum SendOutcome {
    Sent(u16),
    RejectedByProvider(u16, String),
    TransportError(String),
}

/// What the transport does next once the status code is known.
pub enum ResponseStep {
    ReadBody,
    Finished(SendOutcome),
}

/// Decides, from the status code, whether a send is done or its response
/// body must be read first.
pub fn on_status(status: u16) -> (r: ResponseStep)
    ensures
        is_accepted(status) ==> r == ResponseStep::Finished(SendOutcome::Sent(status)),
        !is_accepted(status) ==> r is ReadBody,
{
    if 200 <= status && status <= 204 {
        ResponseStep::Finished(SendOutcome::Sent(status))
    } else {
        ResponseStep::ReadBody
    }
}

/// The outcome once the body of a refused request has been read.
pub fn on_body(status: u16, body: String) -> (r: SendOutcome)
    ensures
        r == SendOutcome::RejectedByProvider(status, body),
{
    SendOutcome::RejectedByProvider(status, body)
}

/// The `Authorization` header value for a credential.
pub fn bearer_authorization(api_key: &str) -> (r: String)
    ensures
        r@ == bearer_of(api_key@),
{
    let mut r = "Bearer ".to_owned();
    r.append(api_key);
    r
}

impl SendGrid {
    pub fn new(api_key: String) -> (r: SendGrid)
        ensures
            r@ == fresh_builder(api_key@),
    {
        let r = SendGrid {
            api_key,
            to: Vec::new(),
            cc: Vec::new(),
            bcc: Vec::new(),
            subject: None,
            template_id: None,
            dynamic_template_data: None,
            text_content: Vec::new(),
            html_content: Vec::new(),
            from: None,
            attachments: Vec::new(),
        };
        assert(r@.text_content =~= Seq::empty());
        assert(r@.html_content =~= Seq::empty());
        r
    }

    pub fn set_to(self, email: String, name: Option<String>) -> (r: SendGrid)
        ensures
            r@ == apply_call(self@, BuilderCall::To(EmailAddress { email, name })),
    {
        let mut b = self;
        b.to.push(EmailAddress { email, name });
        b
    }

    pub fn set_from(self, email: String, name: Option<String>) -> (r: SendGrid)
        ensures
            r@ == apply_call(self@, BuilderCall::From(EmailAddress { email, name })),
    {
        let mut b = self;
        b.from = Some(EmailAddress { email, name });
        b
    }

    pub fn set_subject(self, subject: String) -> (r: SendGrid)
        ensures
            r@ == apply_call(self@, BuilderCall::Subject(subject)),
    {
        let mut b = self;
        b.subject = Some(subject);
        b
    }

    pub fn set_text_content(self, text_content: String) -> (r: SendGrid)
        ensures
            r@ == apply_call(self@, BuilderCall::Text(text_content@)),
    {
        let mut b = self;
        b.text_content.push(text_content);
        assert(b@.text_content =~= self@.text_content.push(text_content@));
        b
    }

    pub fn set_html_content(self, html_content: String) -> (r: SendGrid)
        ensures
            r@ == apply_call(self@, BuilderCall::Html(html_content@)),
    {
        let mut b = self;
        b.html_content.push(html_content);
        assert(b@.html_content =~= self@.html_content.push(html_content@));
        b
    }

    /// Encodes `content` as base64 and appends the attachment.
    pub fn add_attachment(
        self,
        filename: String,
        content_type: String,
        disposition: AttachmentDisposition,
        content: Vec<u8>,
    ) -> (r: SendGrid)
        requires
            content@.len() <= usize::MAX / 2,
        ensures
            exists|a: EmailAttachment|
                {
                    &&& r@ == apply_call(self@, BuilderCall::Attachment(a))
                    &&& a.content@ == base64_of(content@)
                    &&& a.filename == filename
                    &&& a.content_type == content_type
                    &&& a.disposition@ == disposition.spec_str()
                },
    {
        let encoded = encode_base64(&content);
        let attachment = EmailAttachment {
            content: encoded,
            filename,
            content_type,
            disposition: disposition.as_str().to_owned(),
        };
        let ghost a = attachment;
        let mut b = self;
        b.attachments.push(attachment);
        assert(b@ == apply_call(self@, BuilderCall::Attachment(a)));
        assert(a.content@ == base64_of(content@));
        assert(a.disposition@ == disposition.spec_str());
        b
    }

    /// Sets the template and its data together, replacing earlier ones.
    pub fn set_template_id(self, template_id: String, dynamic_template_data: serde_json::Value) -> (r: SendGrid)
        ensures
            r@ == apply_call(self@, BuilderCall::Template(template_id, dynamic_template_data)),
    {
        let mut b = self;
        b.template_id = Some(template_id);
        b.dynamic_template_data = Some(dynamic_template_data);
        b
    }

    pub fn set_cc(self, email: String) -> (r: SendGrid)
        ensures
            r@ == apply_call(self@, BuilderCall::Cc(email)),
    {
        let mut b = self;
        b.cc.push(EmailAddress { email, name: None });
        b
    }

    pub fn set_bcc(self, email: String) -> (r: SendGrid)
        ensures
            r@ == apply_call(self@, BuilderCall::Bcc(email)),
    {
        let mut b = self;
        b.bcc.push(EmailAddress { email, name: None });
        b
    }

    /// The request body this builder stands for; the builder is used up.
    pub fn into_payload(self) -> (r: EmailPostModel)
        ensures
            r@ == payload_of(self@),
    {
        let ghost v = self@;
        let from = self.from;
        let reply_to = match &from {
            Some(a) => Some(a.duplicate()),
            None => None,
        };
        let personalization = Personalization {
            to: self.to,
            cc: list_unless_empty(self.cc),
            bcc: list_unless_empty(self.bcc),
            dynamic_template_data: self.dynamic_template_data,
        };
        let mut content: Vec<EmailContentJsonModel> = Vec::new();
        push_blocks(&mut content, &self.text_content, "text/plain");
        push_blocks(&mut content, &self.html_content, "text/html");
        proof {
            assert(content@.map_values(|b: EmailContentJsonModel| b@) =~= merged_content(
                v.text_content,
                v.html_content,
            ));
        }
        let personalizations = vec![personalization];
        let r = EmailPostModel {
            personalizations,
            from,
            reply_to,
            attachments: list_unless_empty(self.attachments),
            subject: self.subject,
            template_id: self.template_id,
            categories: None,
            content: list_unless_empty(content),
            send_at: None,
            batch_id: None,
            suppression: None,
            ip_pool_name: None,
            mail_settings: None,
            tracking_settings: None,
        };
        proof {
            assert(r@.personalizations =~= payload_of(v).personalizations);
        }
        r
    }

    /// Everything a send needs: the credential header and the body. The
    /// builder is used up.
    pub fn into_request(self) -> (r: MailSendRequest)
        ensures
            r.authorization@ == bearer_of(self.api_key@),
            r.payload@ == payload_of(self@),
    {
        let authorization = bearer_authorization(self.api_key.as_str());
        let payload = self.into_payload();
        MailSendRequest { authorization, payload }
    }
}

} // verus!
