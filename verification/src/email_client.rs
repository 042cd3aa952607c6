//! The request that carries one message to the email provider, and the
//! reading of the provider's answer.

use crate::domain::subscriber_email::SubscriberEmail;
use vstd::prelude::*;
use vstd::string::*;

verus! {

/// How long a request may take when the client was given no timeout, in
/// milliseconds.
pub const REQUEST_TIMEOUT_MILLIS: u64 = 10_000;

/// An address, as the provider's payload holds it.
pub struct SengridEmail {
    pub email: String,
}

/// The recipients of one message.
pub struct SengridPersonalization {
    pub to: Vec<SengridEmail>,
}

/// One rendering of the message.
pub struct SengridContent {
    pub content_type: String,
    pub value: String,
}

/// The payload of the provider's `mail/send` call.
pub struct SendEmailBody {
    pub personalizations: Vec<SengridPersonalization>,
    pub from: SengridEmail,
    pub subject: String,
    pub content: Vec<SengridContent>,
}

/// A payload as mathematical data: for each personalization its recipients,
/// the sender, the subject, and for each content its type and its value.
pub struct SendEmailBodyView {
    pub personalizations: Seq<Seq<Seq<char>>>,
    pub from: Seq<char>,
    pub subject: Seq<char>,
    pub content: Seq<(Seq<char>, Seq<char>)>,
}

impl View for SengridEmail {
    type V = Seq<char>;

    open spec fn view(&self) -> Seq<char> {
        self.email@
    }
}

impl View for SengridPersonalization {
    type V = Seq<Seq<char>>;

    open spec fn view(&self) -> Seq<Seq<char>> {
        Seq::new(self.to@.len(), |i: int| self.to@[i]@)
    }
}

impl View for SengridContent {
    type V = (Seq<char>, Seq<char>);

    open spec fn view(&self) -> (Seq<char>, Seq<char>) {
        (self.content_type@, self.value@)
    }
}

impl View for SendEmailBody {
    type V = SendEmailBodyView;

    open spec fn view(&self) -> SendEmailBodyView {
        SendEmailBodyView {
            personalizations: Seq::new(
                self.personalizations@.len(),
                |i: int| self.personalizations@[i]@,
            ),
            from: self.from@,
            subject: self.subject@,
            content: Seq::new(self.content@.len(), |i: int| self.content@[i]@),
        }
    }
}

/// The addresses of a list of recipients, in order.
pub open spec fn addresses(recipients: Seq<SubscriberEmail>) -> Seq<Seq<char>> {
    Seq::new(recipients.len(), |i: int| recipients[i]@)
}

/// The payload of a message: one personalization that names every
/// recipient in order, the sender, the subject, and the body as the single
/// content, typed `text/html`.
pub open spec fn message_body(
    sender: Seq<char>,
    recipients: Seq<Seq<char>>,
    subject: Seq<char>,
    html: Seq<char>,
) -> SendEmailBodyView {
    SendEmailBodyView {
        personalizations: seq![recipients],
        from: sender,
        subject: subject,
        content: seq![("text/html"@, html)],
    }
}

/// The address of the provider's `mail/send` call under a base address.
pub open spec fn send_url(base_url: Seq<char>) -> Seq<char> {
    base_url + "/mail/send"@
}

/// The value of the `Authorization` header for a key.
pub open spec fn bearer(api_key: Seq<char>) -> Seq<char> {
    "Bearer "@ + api_key
}

/// One HTTP POST to the provider: where it goes, the value of its
/// `Authorization` header, its JSON payload and how long it may take.
pub struct EmailRequest {
    pub url: String,
    pub authorization: String,
    pub body: SendEmailBody,
    pub timeout_millis: u64,
}

/// A request as mathematical data.
pub struct EmailRequestView {
    pub url: Seq<char>,
    pub authorization: Seq<char>,
    pub body: SendEmailBodyView,
    pub timeout_millis: u64,
}

impl View for EmailRequest {
    type V = EmailRequestView;

    open spec fn view(&self) -> EmailRequestView {
        EmailRequestView {
            url: self.url@,
            authorization: self.authorization@,
            body: self.body@,
            timeout_millis: self.timeout_millis,
        }
    }
}

/// Why a message was not delivered.
#[derive(Debug)]
pub enum TransportError {
    /// The provider answered with a status outside 200 to 299.
    Status(u16),
    /// No answer came: the request failed or ran out of time.
    Failed(String),
}

/// A failed delivery as mathematical data.
pub enum TransportErrorView {
    Status(u16),
    Failed(Seq<char>),
}

impl View for TransportError {
    type V = TransportErrorView;

    open spec fn view(&self) -> TransportErrorView {
        match self {
            TransportError::Status(status) => TransportErrorView::Status(*status),
            TransportError::Failed(cause) => TransportErrorView::Failed(cause@),
        }
    }
}

/// Whether a response status reports success.
pub open spec fn is_success_status(status: u16) -> bool {
    200 <= status <= 299
}

/// Reads the provider's answer: a status from 200 to 299 is a delivery, any
/// other a failure that carries the status.
pub fn delivery_outcome(status: u16) -> (outcome: Result<(), TransportError>)
    ensures
        outcome is Ok <==> is_success_status(status),
        outcome matches Err(e) ==> e@ == TransportErrorView::Status(status),
{
    if 200 <= status && status <= 299 {
        Ok(())
    } else {
        Err(TransportError::Status(status))
    }
}

/// What is needed to reach the email provider.
pub struct EmailClient {
    base_url: String,
    sender: SubscriberEmail,
    api_key: String,
    timeout_millis: u64,
}

/// A client as mathematical data.
pub struct EmailClientView {
    pub base_url: Seq<char>,
    pub sender: Seq<char>,
    pub api_key: Seq<char>,
    pub timeout_millis: u64,
}

impl View for EmailClient {
    type V = EmailClientView;

    closed spec fn view(&self) -> EmailClientView {
        EmailClientView {
            base_url: self.base_url@,
            sender: self.sender@,
            api_key: self.api_key@,
            timeout_millis: self.timeout_millis,
        }
    }
}

/// The request by which a client sends one message to a list of recipients.
pub open spec fn email_request(
    client: EmailClientView,
    recipients: Seq<Seq<char>>,
    subject: Seq<char>,
    html: Seq<char>,
) -> EmailRequestView {
    EmailRequestView {
        url: send_url(client.base_url),
        authorization: bearer(client.api_key),
        body: message_body(client.sender, recipients, subject, html),
        timeout_millis: client.timeout_millis,
    }
}

impl EmailClient {
    /// A client for the provider at `base_url`. Without a timeout of its
    /// own it allows each request ten seconds.
    pub fn new(
        base_url: String,
        sender: SubscriberEmail,
        api_key: String,
        timeout_millis: Option<u64>,
    ) -> (client: EmailClient)
        ensures
            client@ == (EmailClientView {
                base_url: base_url@,
                sender: sender@,
                api_key: api_key@,
                timeout_millis: match timeout_millis {
                    Some(t) => t,
                    None => REQUEST_TIMEOUT_MILLIS,
                },
            }),
    {
        let timeout_millis = match timeout_millis {
            Some(t) => t,
            None => REQUEST_TIMEOUT_MILLIS,
        };
        EmailClient { base_url, sender, api_key, timeout_millis }
    }

    /// The request that sends one message to all of `recipients`.
    pub fn broadcast_email_request(
        &self,
        recipients: &Vec<SubscriberEmail>,
        subject: &str,
        html_content: &str,
    ) -> (request: EmailRequest)
        ensures
            request@ == email_request(self@, addresses(recipients@), subject@, html_content@),
    {
        let url = self.base_url.clone().concat("/mail/send");
        let authorization = String::from_str("Bearer ").concat(self.api_key.as_str());
        let mut to: Vec<SengridEmail> = Vec::new();
        let mut i: usize = 0;
        while i < recipients.len()
            invariant
                i <= recipients.len(),
                to@.len() == i,
                forall|j: int| 0 <= j < i ==> (#[trigger] to@[j])@ == recipients@[j]@,
            decreases recipients.len() - i,
        {
            to.push(SengridEmail { email: String::from_str(recipients[i].as_str()) });
            i = i + 1;
        }
        let personalization = SengridPersonalization { to };
        assert(personalization@ =~= addresses(recipients@));
        let mut personalizations: Vec<SengridPersonalization> = Vec::new();
        personalizations.push(personalization);
        let mut content: Vec<SengridContent> = Vec::new();
        content.push(
            SengridContent {
                content_type: String::from_str("text/html"),
                value: String::from_str(html_content),
            },
        );
        let body = SendEmailBody {
            from: SengridEmail { email: String::from_str(self.sender.as_str()) },
            personalizations,
            subject: String::from_str(subject),
            content,
        };
        proof {
            let expected = message_body(
                self@.sender,
                addresses(recipients@),
                subject@,
                html_content@,
            );
            assert(body@.personalizations =~= expected.personalizations);
            assert(body@.content =~= expected.content);
        }
        EmailRequest { url, authorization, body, timeout_millis: self.timeout_millis }
    }

    /// The request that sends one message to one recipient.
    pub fn send_email_request(
        &self,
        recipient: SubscriberEmail,
        subject: &str,
        html_content: &str,
    ) -> (request: EmailRequest)
        ensures
            request@ == email_request(self@, seq![recipient@], subject@, html_content@),
    {
        let mut recipients: Vec<SubscriberEmail> = Vec::new();
        recipients.push(recipient);
        assert(addresses(recipients@) =~= seq![recipient@]);
        self.broadcast_email_request(&recipients, subject, html_content)
    }
}

} // verus!
