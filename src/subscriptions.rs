//! Onboarding a new subscriber. The flow is a state machine: each state
//! names the one piece of outside work (database, email provider) that the
//! runner performs next, and `advance` decides, from its outcome, what
//! comes after. Nothing is committed before the confirmation email was
//! accepted, and every failure ends the flow without a commit.
use crate::domain::{NewSubscriber, SubscriberEmail, SubscriberName, is_valid_email, is_valid_name};
use crate::response::HttpStatus;
use crate::store::SubscriberId;
use rand::Rng;
use vstd::prelude::*;

verus! {

/// The sign-up form as submitted.
pub struct FormData {
    pub email: String,
    pub name: String,
}

impl NewSubscriber {
    /// Validates both fields of a form; the name is checked first, and the
    /// error is that of the first field that fails.
    pub fn try_from_form(form: FormData) -> (r: Result<NewSubscriber, String>)
        ensures
            r is Ok <==> is_valid_name(form.name@) && is_valid_email(form.email@),
            r matches Ok(s) ==> SubscriberName::parse_result(form.name@, s.name)
                && s.email@ == form.email@,
            r matches Err(e) ==> if !is_valid_name(form.name@) {
                e@ == form.name@ + " is not a valid subscriber name."@
            } else {
                e@ == form.email@ + " is not a valid subscriber email."@
            },
    {
        match SubscriberName::parse(form.name) {
            Ok(name) => match SubscriberEmail::parse(form.email) {
                Ok(email) => Ok(NewSubscriber { email, name }),
                Err(e) => Err(e),
            },
            Err(e) => Err(e),
        }
    }
}

/// The causes of an error, one `Caused by:` entry each, outermost first.
pub open spec fn causes_text(causes: Seq<Seq<char>>) -> Seq<char>
    decreases causes.len(),
{
    if causes.len() == 0 {
        Seq::empty()
    } else {
        causes_text(causes.drop_last()) + "Caused by:\n\t"@ + causes.last() + "\n"@
    }
}

/// The report of an error and the chain of its causes.
pub fn error_chain_fmt(error: &str, causes: &Vec<String>) -> (r: String)
    ensures
        r@ == error@ + "\n\n"@ + causes_text(causes@.map_values(|c: String| c@)),
{
    let mut r = error.to_string().concat("\n\n");
    let ghost head = error@ + "\n\n"@;
    let mut i: usize = 0;
    while i < causes.len()
        invariant
            i <= causes@.len(),
            r@ == head + causes_text(causes@.subrange(0, i as int).map_values(|c: String| c@)),
        decreases causes.len() - i,
    {
        r = r.concat("Caused by:\n\t").concat(causes[i].as_str()).concat("\n");
        proof {
            let next = causes@.subrange(0, i + 1).map_values(|c: String| c@);
            assert(next.drop_last() =~= causes@.subrange(0, i as int).map_values(|c: String| c@));
            assert(next.last() == causes@[i as int]@);
        }
        i = i + 1;
    }
    proof {
        assert(causes@.subrange(0, causes@.len() as int) =~= causes@);
    }
    r
}

/// The number of characters in a confirmation token.
pub const TOKEN_LENGTH: usize = 25;

/// An ASCII letter or digit.
pub open spec fn is_token_char(c: char) -> bool {
    let u = c as u32;
    (48 <= u <= 57) || (65 <= u <= 90) || (97 <= u <= 122)
}

/// 25 ASCII letters and digits.
pub open spec fn is_subscription_token(t: Seq<char>) -> bool {
    t.len() == TOKEN_LENGTH && forall|i: int| 0 <= i < t.len() ==> is_token_char(#[trigger] t[i])
}

/// Relies on `rand::distributions::Alphanumeric` sampled from `thread_rng`
/// (a cryptographically strong generator): one of `A-Z a-z 0-9`, uniformly.
#[verifier::external_body]
fn random_token_char() -> (c: char)
    ensures
        is_token_char(c),
{
    char::from(rand::thread_rng().sample(rand::distributions::Alphanumeric))
}

/// Relies on `String::push`: the character is appended.
#[verifier::external_body]
fn push_char(s: &mut String, c: char)
    ensures
        final(s)@ == old(s)@.push(c),
{
    s.push(c)
}

/// A fresh random confirmation token.
pub fn generate_subscription_token() -> (t: String)
    ensures
        is_subscription_token(t@),
{
    let mut t = String::new();
    let mut i: usize = 0;
    while i < TOKEN_LENGTH
        invariant
            i <= TOKEN_LENGTH,
            t@.len() == i,
            forall|j: int| 0 <= j < i ==> is_token_char(#[trigger] t@[j]),
        decreases TOKEN_LENGTH - i,
    {
        let c = random_token_char();
        push_char(&mut t, c);
        i = i + 1;
    }
    t
}

pub open spec fn confirmation_link(base_url: Seq<char>, token: Seq<char>) -> Seq<char> {
    base_url + "/subscriptions/confirm?subscription_token="@ + token
}

pub open spec fn plain_body(link: Seq<char>) -> Seq<char> {
    "Welcome to our newsletter!\nVisit "@ + link + " to confirm your subscription."@
}

pub open spec fn html_body(link: Seq<char>) -> Seq<char> {
    "Welcome to our newsletter!<br />Click <a href=\""@ + link + "\">here</a> to confirm your subscription."@
}

/// The email that asks a new subscriber to confirm.
pub struct ConfirmationEmail {
    pub subject: String,
    pub link: String,
    pub html_body: String,
    pub plain_body: String,
}

pub open spec fn is_confirmation_email(e: ConfirmationEmail, base_url: Seq<char>, token: Seq<
    char,
>) -> bool {
    &&& e.subject@ == "Welcome!"@
    &&& e.link@ == confirmation_link(base_url, token)
    &&& e.html_body@ == html_body(e.link@)
    &&& e.plain_body@ == plain_body(e.link@)
}

/// The confirmation email for a token: both bodies carry the link
/// `{base_url}/subscriptions/confirm?subscription_token={token}`.
pub fn confirmation_email(base_url: &str, token: &str) -> (e: ConfirmationEmail)
    ensures
        is_confirmation_email(e, base_url@, token@),
{
    let link = base_url.to_string().concat("/subscriptions/confirm?subscription_token=").concat(
        token,
    );
    let plain = String::from_str("Welcome to our newsletter!\nVisit ").concat(link.as_str()).concat(
        " to confirm your subscription.",
    );
    let html = String::from_str("Welcome to our newsletter!<br />Click <a href=\"").concat(
        link.as_str(),
    ).concat("\">here</a> to confirm your subscription.");
    ConfirmationEmail { subject: String::from_str("Welcome!"), link, html_body: html, plain_body: plain }
}

/// Where an onboarding flow stands; each state but `Done` names the work
/// that is to be done next.
pub enum SubscribeState {
    /// Begin a database transaction.
    Begin { subscriber: NewSubscriber, base_url: String },
    /// Insert the subscriber in the transaction.
    Insert { subscriber: NewSubscriber, base_url: String },
    /// Store the token for the inserted subscriber in the transaction.
    StoreToken {
        recipient: SubscriberEmail,
        subscriber_id: SubscriberId,
        token: String,
        base_url: String,
    },
    /// Send the confirmation email.
    SendEmail { recipient: SubscriberEmail, email: ConfirmationEmail },
    /// Commit the transaction.
    Commit,
    /// Answer the request; a transaction still open is rolled back.
    Done { status: HttpStatus },
}

/// What came of the work that a state named.
#[derive(Clone, Copy, Debug, PartialEq, Eq, Structural)]
pub enum StepOutcome {
    Succeeded,
    /// The subscriber was inserted under this id.
    Inserted(SubscriberId),
    Failed,
}

pub open spec fn failed() -> SubscribeState {
    SubscribeState::Done { status: HttpStatus::InternalServerError }
}

/// The first state: a bad request when the form does not validate, else
/// the start of the transaction.
pub open spec fn is_start(form: FormData, base_url: Seq<char>, s: SubscribeState) -> bool {
    if is_valid_name(form.name@) && is_valid_email(form.email@) {
        s matches SubscribeState::Begin { subscriber, base_url: u } && u@ == base_url
            && subscriber.email@ == form.email@ && SubscriberName::parse_result(
            form.name@,
            subscriber.name,
        )
    } else {
        s == SubscribeState::Done { status: HttpStatus::BadRequest }
    }
}

/// One step of the flow: on the expected outcome the next piece of work,
/// on any other a server error.
pub open spec fn is_next(s: SubscribeState, o: StepOutcome, t: SubscribeState) -> bool {
    match s {
        SubscribeState::Begin { subscriber, base_url } => if o is Succeeded {
            t == SubscribeState::Insert { subscriber, base_url }
        } else {
            t == failed()
        },
        SubscribeState::Insert { subscriber, base_url } => match o {
            StepOutcome::Inserted(id) => t matches SubscribeState::StoreToken {
                recipient,
                subscriber_id,
                token,
                base_url: u,
            } && recipient == subscriber.email && subscriber_id == id && is_subscription_token(
                token@,
            ) && u == base_url,
            _ => t == failed(),
        },
        SubscribeState::StoreToken { recipient, subscriber_id, token, base_url } => if o is Succeeded {
            t matches SubscribeState::SendEmail { recipient: r, email } && r == recipient
                && is_confirmation_email(email, base_url@, token@)
        } else {
            t == failed()
        },
        SubscribeState::SendEmail { .. } => if o is Succeeded {
            t == SubscribeState::Commit
        } else {
            t == failed()
        },
        SubscribeState::Commit => if o is Succeeded {
            t == SubscribeState::Done { status: HttpStatus::Success }
        } else {
            t == failed()
        },
        SubscribeState::Done { status } => t == SubscribeState::Done { status },
    }
}

/// The flow asks for a commit only right after the confirmation email was
/// accepted; a failed step never leads to one.
pub proof fn lemma_commit_only_after_email(s: SubscribeState, o: StepOutcome, t: SubscribeState)
    requires
        is_next(s, o, t),
        t is Commit,
    ensures
        s is SendEmail,
        o is Succeeded,
{
}

/// Starts onboarding from a submitted form.
pub fn start_subscription(form: FormData, base_url: String) -> (s: SubscribeState)
    ensures
        is_start(form, base_url@, s),
{
    match NewSubscriber::try_from_form(form) {
        Ok(subscriber) => SubscribeState::Begin { subscriber, base_url },
        Err(_) => SubscribeState::Done { status: HttpStatus::BadRequest },
    }
}

/// Decides what follows the work that `state` named, given its outcome.
pub fn advance(state: SubscribeState, outcome: StepOutcome) -> (next: SubscribeState)
    ensures
        is_next(state, outcome, next),
{
    match state {
        SubscribeState::Begin { subscriber, base_url } => match outcome {
            StepOutcome::Succeeded => SubscribeState::Insert { subscriber, base_url },
            _ => SubscribeState::Done { status: HttpStatus::InternalServerError },
        },
        SubscribeState::Insert { subscriber, base_url } => match outcome {
            StepOutcome::Inserted(subscriber_id) => {
                let token = generate_subscription_token();
                SubscribeState::StoreToken {
                    recipient: subscriber.email,
                    subscriber_id,
                    token,
                    base_url,
                }
            },
            _ => SubscribeState::Done { status: HttpStatus::InternalServerError },
        },
        SubscribeState::StoreToken { recipient, subscriber_id, token, base_url } => match outcome {
            StepOutcome::Succeeded => {
                let email = confirmation_email(base_url.as_str(), token.as_str());
                SubscribeState::SendEmail { recipient, email }
            },
            _ => SubscribeState::Done { status: HttpStatus::InternalServerError },
        },
        SubscribeState::SendEmail { .. } => match outcome {
            StepOutcome::Succeeded => SubscribeState::Commit,
            _ => SubscribeState::Done { status: HttpStatus::InternalServerError },
        },
        SubscribeState::Commit => match outcome {
            StepOutcome::Succeeded => SubscribeState::Done { status: HttpStatus::Success },
            _ => SubscribeState::Done { status: HttpStatus::InternalServerError },
        },
        SubscribeState::Done { status } => SubscribeState::Done { status },
    }
}

} // verus!
