//! The newsletter service's logic: validation of user input, the decisions of the
//! delivery and expiry workers and of the HTTP handlers, each with its contract.

pub mod domain;
pub mod exit_report;
pub mod expiry_requrests;
pub mod issue_delivery_worker;
pub mod routes;
pub mod secret;
pub mod text;

pub use domain::{NewSubscriber, Password, SubscriberEmail, SubscriberName};
pub use exit_report::report_exit;
pub use issue_delivery_worker::ExecutionOutcome;
pub use routes::login::LoginError;
