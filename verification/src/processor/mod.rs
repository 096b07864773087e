//! The three operations on a trade, each over the accounts it is handed.

pub mod cancel;
pub mod create;
pub mod exchange;

pub use cancel::{handler_cancel, Cancel};
pub use create::{handler_create_trade, Create, CreateParams};
pub use exchange::{handler_exchange, Exchange};
