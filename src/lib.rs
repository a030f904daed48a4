//! A contact-form relay: turns a submitted form into one outbound email.

pub mod config;
pub mod dispatch;
pub mod handler;
pub mod mailbox;
pub mod reply;
pub mod submission;
