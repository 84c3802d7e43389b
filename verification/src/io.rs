//! Protocol state, replies, and the byte-level codecs of both sides of a session.
pub mod codec_state;
pub mod smtp_client_codec;
pub mod smtp_codec;
pub mod smtp_response;
pub mod smtp_state;
pub mod transaction_type;
pub mod server;
pub mod client;
pub mod transaction;
pub mod client_session;
pub mod delivery_laws;
pub mod session_laws;
pub mod handler_laws;
pub mod round_trip;
