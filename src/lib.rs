//! A forward proxy's decision core: the client/destination IP firewall with
//! hot-reloadable lists, the HTTP request-line classifier, the byte relay of a
//! CONNECT tunnel and the per-connection session that orders connect,
//! authorization, reply and relay.
pub mod text;
pub mod proxy_listener;
pub mod firewall;
pub mod request_handler;
pub mod tunnel;
pub mod logging;
pub mod statistics;
