pub mod new_subscriber;
pub mod password;

pub use new_subscriber::{NewSubscriber, SubscriberEmail, SubscriberName};
pub use password::Password;
