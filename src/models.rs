use vstd::prelude::*;

verus! {

/// Makes `serde_json::Value` usable in fields; its contents are never inspected here.
#[verifier::external_type_specification]
#[verifier::external_body]
pub struct ExJsonValue(serde_json::Value);

/// One participant of a message: an address and an optional display name.
pub struct EmailAddress {
    pub email: String,
    pub name: Option<String>,
}

impl EmailAddress {
    /// A copy with the same address and name.
    pub fn duplicate(&self) -> (r: EmailAddress)
        ensures
            r == *self,
    {
        let name = match &self.name {
            Some(n) => Some(n.clone()),
            None => None,
        };
        EmailAddress { email: self.email.clone(), name }
    }
}

/// One delivery group: recipients and the data for the template.
pub struct Personalization {
    pub to: Vec<EmailAddress>,
    pub cc: Option<Vec<EmailAddress>>,
    pub bcc: Option<Vec<EmailAddress>>,
    pub dynamic_template_data: Option<serde_json::Value>,
}

/// What a personalization holds, with its lists as sequences.
pub struct PersonalizationView {
    pub to: Seq<EmailAddress>,
    pub cc: Option<Seq<EmailAddress>>,
    pub bcc: Option<Seq<EmailAddress>>,
    pub dynamic_template_data: Option<serde_json::Value>,
}

impl View for Personalization {
    type V = PersonalizationView;

    open spec fn view(&self) -> PersonalizationView {
        PersonalizationView {
            to: self.to@,
            cc: opt_list_view(self.cc),
            bcc: opt_list_view(self.bcc),
            dynamic_template_data: self.dynamic_template_data,
        }
    }
}

/// An optional list, seen as an optional sequence.
pub open spec fn opt_list_view<T>(o: Option<Vec<T>>) -> Option<Seq<T>> {
    match o {
        Some(v) => Some(v@),
        None => None,
    }
}

/// A file attached to a message; `content` is already base64 text.
pub struct EmailAttachment {
    pub content: String,
    pub filename: String,
    pub content_type: String,
    pub disposition: String,
}

pub struct Asm {
    pub group_id: i32,
    pub groups_to_display: Vec<i32>,
}

pub struct BypassListManagement {
    pub enable: bool,
}

pub struct Footer {
    pub enable: bool,
}

pub struct SandboxMode {
    pub enable: bool,
}

pub struct MailSettings {
    pub bypass_list_management: BypassListManagement,
    pub footer: Footer,
    pub sandbox_mode: SandboxMode,
}

pub struct ClickTracking {
    pub enable: bool,
    pub enable_text: bool,
}

pub struct OpenTracking {
    pub enable: bool,
    pub substitution_tag: String,
}

pub struct SubscriptionTracking {
    pub enable: bool,
}

pub struct TrackingSettings {
    pub click_tracking: ClickTracking,
    pub open_tracking: OpenTracking,
    pub subscription_tracking: SubscriptionTracking,
}

/// One body variant: a MIME type and the text.
pub struct EmailContentJsonModel {
    pub content_type: String,
    pub value: String,
}

impl View for EmailContentJsonModel {
    type V = (Seq<char>, Seq<char>);

    open spec fn view(&self) -> (Seq<char>, Seq<char>) {
        (self.content_type@, self.value@)
    }
}

/// The body of a mail-send request.
pub struct EmailPostModel {
    pub personalizations: Vec<Personalization>,
    pub from: Option<EmailAddress>,
    pub reply_to: Option<EmailAddress>,
    pub attachments: Option<Vec<EmailAttachment>>,
    pub subject: Option<String>,
    pub template_id: Option<String>,
    pub categories: Option<Vec<String>>,
    pub content: Option<Vec<EmailContentJsonModel>>,
    pub send_at: Option<i64>,
    pub batch_id: Option<String>,
    pub suppression: Option<Asm>,
    pub ip_pool_name: Option<String>,
    pub mail_settings: Option<MailSettings>,
    pub tracking_settings: Option<TrackingSettings>,
}

/// What a request body holds, with its lists as sequences and each content
/// block as its (type, value) pair.
pub struct PostView {
    pub personalizations: Seq<PersonalizationView>,
    pub from: Option<EmailAddress>,
    pub reply_to: Option<EmailAddress>,
    pub attachments: Option<Seq<EmailAttachment>>,
    pub subject: Option<String>,
    pub template_id: Option<String>,
    pub categories: Option<Seq<String>>,
    pub content: Option<Seq<(Seq<char>, Seq<char>)>>,
    pub send_at: Option<i64>,
    pub batch_id: Option<String>,
    pub suppression: Option<Asm>,
    pub ip_pool_name: Option<String>,
    pub mail_settings: Option<MailSettings>,
    pub tracking_settings: Option<TrackingSettings>,
}

impl View for EmailPostModel {
    type V = PostView;

    open spec fn view(&self) -> PostView {
        PostView {
            personalizations: self.personalizations@.map_values(|p: Personalization| p@),
            from: self.from,
            reply_to: self.reply_to,
            attachments: opt_list_view(self.attachments),
            subject: self.subject,
            template_id: self.template_id,
            categories: opt_list_view(self.categories),
            content: match self.content {
                Some(c) => Some(c@.map_values(|b: EmailContentJsonModel| b@)),
                None => None,
            },
            send_at: self.send_at,
            batch_id: self.batch_id,
            suppression: self.suppression,
            ip_pool_name: self.ip_pool_name,
            mail_settings: self.mail_settings,
            tracking_settings: self.tracking_settings,
        }
    }
}

} // verus!
