//! Subscriber data: names and e-mail addresses that passed validation.

pub mod new_subscriber;
pub mod string_checks;
pub mod subscriber_email;
pub mod subscriber_name;

pub use new_subscriber::NewSubscriber;
pub use string_checks::generic_string_checks;
pub use subscriber_email::SubscriberEmail;
pub use subscriber_name::SubscriberName;
