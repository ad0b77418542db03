use crate::domain::SubscriberEmail;
use vstd::prelude::*;

verus! {

/// Where the email service is reached and whom emails are sent from.
pub struct EmailClient {
    pub base_url: String,
    pub sender: SubscriberEmail,
}

/// The path, below the base URL, of the email service's send endpoint.
pub open spec fn email_endpoint_path() -> Seq<char> {
    "/email"@
}

/// One request to the email service's send endpoint: where it goes and the
/// fields of its JSON body (`From`, `To`, `Subject`, `HtmlBody`, `TextBody`).
pub struct SendEmailRequest {
    pub url: String,
    pub from: String,
    pub to: String,
    pub subject: String,
    pub html_body: String,
    pub text_body: String,
}

/// Emails are posted to the base URL followed by exactly `/email`.
pub proof fn lemma_email_endpoint_is_email()
    ensures
        email_endpoint_path() == "/email"@,
{
}

impl Clone for EmailClient {
    fn clone(&self) -> (r: Self)
        ensures
            r.base_url@ == self.base_url@,
            r.sender@ == self.sender@,
    {
        EmailClient { base_url: self.base_url.clone(), sender: self.sender.clone() }
    }
}

impl EmailClient {
    pub fn new(base_url: String, sender: SubscriberEmail) -> (r: EmailClient)
        ensures
            r.base_url == base_url,
            r.sender == sender,
    {
        EmailClient { base_url, sender }
    }

    /// The request that sends an email from this client's sender to
    /// `recipient`: posted to the base URL followed by `/email`.
    pub fn send_email_request(
        &self,
        recipient: &SubscriberEmail,
        subject: &str,
        html_content: &str,
        text_content: &str,
    ) -> (r: SendEmailRequest)
        ensures
            r.url@ == self.base_url@ + email_endpoint_path(),
            r.from@ == self.sender@,
            r.to@ == recipient@,
            r.subject@ == subject@,
            r.html_body@ == html_content@,
            r.text_body@ == text_content@,
    {
        let mut url = self.base_url.clone();
        url.append("/email");
        SendEmailRequest {
            url,
            from: String::from_str(self.sender.as_ref()),
            to: String::from_str(recipient.as_ref()),
            subject: String::from_str(subject),
            html_body: String::from_str(html_content),
            text_body: String::from_str(text_content),
        }
    }
}

} // verus!
