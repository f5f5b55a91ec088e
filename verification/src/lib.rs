//! State machine of a small chat widget: an append-only conversation, an
//! input line with a busy gate, and the rules that turn the outcome of one
//! network round trip into exactly one reply.
//!
//! Nothing here performs I/O. A caller asks the widget what to send, makes the
//! round trip itself, and hands the outcome back.

pub mod dispatch;
pub mod facts;
pub mod input;
pub mod message;
pub mod store;
pub mod text;
pub mod widget;
