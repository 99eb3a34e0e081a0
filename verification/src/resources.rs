//! The calls of the individual resources and their parameters.

pub mod account;
pub mod login_link;
pub mod refund;
pub mod subscription_schedule;
pub mod treasury_transaction_entry;
