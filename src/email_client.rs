//! The requests sent to the transactional email provider.
use crate::domain::SubscriberEmail;
use crate::sendgrid_email_format::{
    ContentField, FromField, PersonalizationField, SendgridEmailFormat, ToField,
};
use vstd::prelude::*;

verus! {

/// Where and as whom emails are sent.
pub struct EmailClient {
    sender: SubscriberEmail,
    base_url: String,
}

/// One email, ready to be posted as JSON to `url`.
pub struct EmailRequest<'a> {
    pub url: String,
    pub body: SendgridEmailFormat<'a>,
}

/// A body with one recipient, the sender, the subject and one plain-text
/// content part.
pub open spec fn is_email_body(
    body: SendgridEmailFormat,
    sender: Seq<char>,
    recipient: Seq<char>,
    subject: Seq<char>,
    text_content: Seq<char>,
) -> bool {
    &&& body.personalizations@.len() == 1
    &&& body.personalizations@[0].to@.len() == 1
    &&& body.personalizations@[0].to@[0].email@ == recipient
    &&& body.from.email@ == sender
    &&& body.subject@ == subject
    &&& body.content@.len() == 1
    &&& body.content@[0].type_field@ == "text/plain"@
    &&& body.content@[0].value@ == text_content
}

impl EmailClient {
    pub closed spec fn sender_address(&self) -> Seq<char> {
        self.sender@
    }

    pub closed spec fn endpoint(&self) -> Seq<char> {
        self.base_url@
    }

    pub fn new(base_url: String, sender: SubscriberEmail) -> (r: EmailClient)
        ensures
            r.endpoint() == base_url@,
            r.sender_address() == sender@,
    {
        EmailClient { sender, base_url }
    }

    /// The request that sends `text_content` to `recipient` under `subject`.
    /// Only the plain-text part is sent: the provider's schema here carries
    /// one content part.
    pub fn build_request<'a>(
        &'a self,
        recipient: &'a SubscriberEmail,
        subject: &'a str,
        text_content: &'a str,
    ) -> (r: EmailRequest<'a>)
        ensures
            r.url@ == self.endpoint() + "/email"@,
            is_email_body(r.body, self.sender_address(), recipient@, subject@, text_content@),
    {
        let url = self.base_url.clone().concat("/email");
        let to = vec![ToField { email: recipient.as_str() }];
        let personalizations = vec![PersonalizationField { to }];
        let content = vec![ContentField { type_field: "text/plain", value: text_content }];
        let body = SendgridEmailFormat {
            personalizations,
            from: FromField { email: self.sender.as_str() },
            subject,
            content,
        };
        EmailRequest { url, body }
    }
}

} // verus!
