use zero2prod::domain::SubscriberEmail;
use zero2prod::email_client::EmailClient;
use zero2prod::response::HttpStatus;
use zero2prod::store::{SubscriberStore, SubscriptionStatus, Transaction};
use zero2prod::subscriptions::{
    advance, confirmation_email, error_chain_fmt, generate_subscription_token,
    start_subscription, FormData, StepOutcome, SubscribeState,
};
use zero2prod::subscriptions_confirm::{confirm, Parameters};

const BASE_URL: &str = "http://127.0.0.1";

/// What the mocked email provider received.
struct SentEmail {
    url: String,
    recipient: String,
    subject: String,
    text: String,
}

/// Runs the onboarding flow against an in-memory store; the email provider
/// accepts or refuses every email.
fn post_subscriptions(
    store: &mut SubscriberStore,
    name: &str,
    email: &str,
    provider_accepts: bool,
    sent: &mut Vec<SentEmail>,
) -> HttpStatus {
    let client = EmailClient::new(
        "http://email.test".to_string(),
        SubscriberEmail::parse("sender@example.com".to_string()).unwrap(),
    );
    let form = FormData { name: name.to_string(), email: email.to_string() };
    let mut state = start_subscription(form, BASE_URL.to_string());
    let mut tx: Option<Transaction> = None;
    loop {
        let outcome = match &state {
            SubscribeState::Begin { .. } => {
                tx = Some(store.begin());
                StepOutcome::Succeeded
            }
            SubscribeState::Insert { subscriber, .. } => {
                match store.insert_subscriber(tx.as_mut().unwrap(), subscriber) {
                    Ok(id) => StepOutcome::Inserted(id),
                    Err(_) => StepOutcome::Failed,
                }
            }
            SubscribeState::StoreToken { subscriber_id, token, .. } => {
                match store.store_token(tx.as_mut().unwrap(), *subscriber_id, token) {
                    Ok(()) => StepOutcome::Succeeded,
                    Err(_) => StepOutcome::Failed,
                }
            }
            SubscribeState::SendEmail { recipient, email } => {
                let request = client.build_request(recipient, &email.subject, &email.plain_body);
                sent.push(SentEmail {
                    url: request.url.clone(),
                    recipient: request.body.personalizations[0].to[0].email.to_string(),
                    subject: request.body.subject.to_string(),
                    text: request.body.content[0].value.to_string(),
                });
                if provider_accepts {
                    StepOutcome::Succeeded
                } else {
                    StepOutcome::Failed
                }
            }
            SubscribeState::Commit => match store.commit(tx.take().unwrap()) {
                Ok(()) => StepOutcome::Succeeded,
                Err(_) => StepOutcome::Failed,
            },
            SubscribeState::Done { status } => return *status,
        };
        state = advance(state, outcome);
    }
}

fn token_of_link(text: &str) -> String {
    let marker = "/subscriptions/confirm?subscription_token=";
    let start = text.find(marker).unwrap() + marker.len();
    text[start..].chars().take_while(|c| c.is_ascii_alphanumeric()).collect()
}

#[test]
fn subscribe_returns_200_for_valid_form_data() {
    let mut store = SubscriberStore::new();
    let mut sent = Vec::new();
    let status =
        post_subscriptions(&mut store, "le guin", "ursula_le_guin@gmail.com", true, &mut sent);
    assert_eq!(200, status.code());
}

#[test]
fn subscribe_persists_the_new_subscriber() {
    let mut store = SubscriberStore::new();
    let mut sent = Vec::new();
    post_subscriptions(&mut store, "le guin", "ursula_le_guin@gmail.com", true, &mut sent);
    let saved = &store.subscribers()[0];
    assert_eq!(saved.email, "ursula_le_guin@gmail.com");
    assert_eq!(saved.name, "le guin");
    assert_eq!(saved.status.as_str(), "pending_confirmation");
}

#[test]
fn subscribe_sends_a_confirmation_email_for_valid_data() {
    let mut store = SubscriberStore::new();
    let mut sent = Vec::new();
    post_subscriptions(&mut store, "le guin", "ursula_le_guin@gmail.com", true, &mut sent);
    assert_eq!(sent.len(), 1);
    assert_eq!(sent[0].url, "http://email.test/email");
    assert_eq!(sent[0].recipient, "ursula_le_guin@gmail.com");
    assert_eq!(sent[0].subject, "Welcome!");
}

#[test]
fn subscribe_sends_a_confirmation_email_with_a_link() {
    let mut store = SubscriberStore::new();
    let mut sent = Vec::new();
    post_subscriptions(&mut store, "le guin", "ursula_le_guin@gmail.com", true, &mut sent);
    let token = token_of_link(&sent[0].text);
    assert_eq!(token.len(), 25);
    let link = format!("{BASE_URL}/subscriptions/confirm?subscription_token={token}");
    assert!(sent[0].text.contains(&link));
}

#[test]
fn subscribe_returns_400_when_fields_are_present_but_invalid() {
    let test_cases = vec![
        ("", "ursula_le_guin@gmail.com", "empty name"),
        ("Ursula", "", "empty email"),
        ("Ursula", "definitely-not-an-email", "invalid email"),
    ];
    for (name, email, description) in test_cases {
        let mut store = SubscriberStore::new();
        let mut sent = Vec::new();
        let status = post_subscriptions(&mut store, name, email, true, &mut sent);
        assert_eq!(
            400,
            status.code(),
            "The API did not return a 400 Bad Request when the payload was {}.",
            description
        );
        assert!(store.subscribers().is_empty());
        assert!(sent.is_empty());
    }
}

#[test]
fn subscribe_returns_400_when_fields_are_empty() {
    let test_cases = vec![
        ("le guin", "", "empty email"),
        ("", "ursula_le_guin@gmail.com", "empty name"),
        ("", "", "empty name and email"),
    ];
    for (name, email, error_message) in test_cases {
        let mut store = SubscriberStore::new();
        let mut sent = Vec::new();
        let status = post_subscriptions(&mut store, name, email, true, &mut sent);
        assert_eq!(
            400,
            status.code(),
            "The API did not fail with `400 Bad Request` when the payload was `{error_message}`"
        );
        assert!(store.subscribers().is_empty());
    }
}

#[test]
fn subscribe_returns_500_when_email_already_exists() {
    let mut store = SubscriberStore::new();
    let mut sent = Vec::new();
    let first =
        post_subscriptions(&mut store, "le guin", "ursula_le_guin@gmail.com", true, &mut sent);
    assert_eq!(200, first.code());
    let second =
        post_subscriptions(&mut store, "le guin", "ursula_le_guin@gmail.com", true, &mut sent);
    assert_eq!(500, second.code());
    assert_eq!(store.subscribers().len(), 1);
}

#[test]
fn link_returned_by_subscribe_returns_200_if_called() {
    let mut store = SubscriberStore::new();
    let mut sent = Vec::new();
    post_subscriptions(&mut store, "le guin", "ursula_le_guin@gmail.com", true, &mut sent);
    let token = token_of_link(&sent[0].text);
    let status = confirm(&mut store, &Parameters { subscription_token: token.clone() });
    assert_eq!(status.code(), 200);
    assert_eq!(store.subscribers()[0].status, SubscriptionStatus::Confirmed);
    let again = confirm(&mut store, &Parameters { subscription_token: token });
    assert_eq!(again.code(), 200);
    assert_eq!(store.subscribers()[0].status, SubscriptionStatus::Confirmed);
}

#[test]
fn confirmation_with_an_unknown_token_is_unauthorized() {
    let mut store = SubscriberStore::new();
    let status =
        confirm(&mut store, &Parameters { subscription_token: "doesnotexist".to_string() });
    assert_eq!(status.code(), 401);
}

#[test]
fn subscribe_rolls_back_when_the_email_provider_fails() {
    let mut store = SubscriberStore::new();
    let mut sent = Vec::new();
    let status =
        post_subscriptions(&mut store, "le guin", "ursula_le_guin@gmail.com", false, &mut sent);
    assert_eq!(status.code(), 500);
    assert_eq!(sent.len(), 1);
    assert!(store.subscribers().is_empty());
}

#[test]
fn a_failed_step_ends_the_flow_with_500() {
    let form = FormData { name: "le guin".to_string(), email: "ursula_le_guin@gmail.com".to_string() };
    let state = start_subscription(form, BASE_URL.to_string());
    assert!(matches!(state, SubscribeState::Begin { .. }));
    let state = advance(state, StepOutcome::Failed);
    assert!(matches!(state, SubscribeState::Done { status: HttpStatus::InternalServerError }));
    let state = advance(state, StepOutcome::Succeeded);
    assert!(matches!(state, SubscribeState::Done { status: HttpStatus::InternalServerError }));
}

#[test]
fn confirmation_email_carries_the_link_in_both_bodies() {
    let email = confirmation_email("https://news.example", "abc123");
    let link = "https://news.example/subscriptions/confirm?subscription_token=abc123";
    assert_eq!(email.subject, "Welcome!");
    assert_eq!(email.link, link);
    assert_eq!(
        email.plain_body,
        format!("Welcome to our newsletter!\nVisit {link} to confirm your subscription.")
    );
    assert_eq!(
        email.html_body,
        format!(
            "Welcome to our newsletter!<br />Click <a href=\"{link}\">here</a> to confirm your subscription."
        )
    );
}

#[test]
fn tokens_are_25_alphanumeric_characters() {
    let a = generate_subscription_token();
    let b = generate_subscription_token();
    assert_eq!(a.len(), 25);
    assert!(a.chars().all(|c| c.is_ascii_alphanumeric()));
    assert_ne!(a, b);
}

#[test]
fn error_chain_lists_each_cause() {
    let causes = vec!["pool timed out".to_string(), "connection refused".to_string()];
    let text = error_chain_fmt("could not store the token", &causes);
    assert_eq!(
        text,
        "could not store the token\n\nCaused by:\n\tpool timed out\nCaused by:\n\tconnection refused\n"
    );
    assert_eq!(error_chain_fmt("alone", &Vec::new()), "alone\n\n");
}

#[test]
fn status_codes() {
    assert_eq!(HttpStatus::Success.code(), 200);
    assert_eq!(HttpStatus::BadRequest.code(), 400);
    assert_eq!(HttpStatus::Unauthorized.code(), 401);
    assert_eq!(HttpStatus::InternalServerError.code(), 500);
}
