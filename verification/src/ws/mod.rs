pub mod handler;
pub mod message;

pub use message::ClientCountMessage;
pub use message::MediaMessage;
pub use message::User;
pub use message::WsMessage;
