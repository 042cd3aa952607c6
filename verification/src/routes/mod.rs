//! The three workflows, each as a state machine that answers the outcome
//! of one step with the next.

pub mod newsletters;
pub mod subscriptions;
pub mod subscriptions_confirm;
