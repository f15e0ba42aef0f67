//! Newsletter subscription service: validation of subscriber input, the
//! subscriber store, confirmation tokens, the confirmation email and the
//! two request flows (onboarding and confirmation).
pub mod configuration;
pub mod domain;
pub mod email_client;
pub mod response;
pub mod sendgrid_email_format;
pub mod store;
pub mod subscriptions;
pub mod subscriptions_confirm;
