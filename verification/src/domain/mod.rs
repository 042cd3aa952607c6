//! Validated values that identify a subscriber.

pub mod new_subscriber;
pub mod subscriber;
pub mod subscriber_email;
pub mod subscriber_name;
pub mod subscriber_status;
