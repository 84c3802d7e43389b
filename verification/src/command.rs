//! SMTP commands as the server receives them, and the handlers that answer them.
pub mod smtp_command;
pub mod command_handler;
pub mod handlers;
