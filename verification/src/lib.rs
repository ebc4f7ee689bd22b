//! WebSocket upgrades and messages for HTTP services.

pub mod ws;

pub use tokio_tungstenite::tungstenite::Message as TungsteniteMessage;
