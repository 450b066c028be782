pub mod attrs;
pub mod bridge;
pub mod classes;
pub mod client;
pub mod dom;
pub mod jid;
pub mod packet;
pub mod sasl_auth;
pub mod text;
pub mod user;
pub mod xml_events;
pub mod xmpp_stream;
