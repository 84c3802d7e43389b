//! One handler per command, and the registry that finds them by name.
pub mod data_handler;
pub mod noop_handler;
pub mod quit_handler;
pub mod rset_handler;
pub mod starttls_handler;
pub mod vrfy_handler;
pub mod ehlo_handler;
pub mod helo_handler;
pub mod address;
pub mod mail_handler;
pub mod rcpt_handler;
pub mod auth_handler;
pub mod data_end_handler;
pub mod registry;
