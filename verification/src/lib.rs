//! RTMP source and sink elements: the rules behind them.

pub mod client;
pub mod endpoint;
pub mod flv;
pub mod handshake;
pub mod headers;
pub mod link;
pub mod passage;
pub mod property;
pub mod script;
pub mod session;
pub mod sink;
pub mod sink_listen;
pub mod sink_publish;
pub mod source;
pub mod source_listen;
pub mod source_play;
pub mod start;
pub mod text;
pub mod tls;
pub mod worker;
