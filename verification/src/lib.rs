pub mod buffer;
pub mod conn;
pub mod events;
pub mod handler;
pub mod laws;
pub mod message;
pub mod next;
pub mod state;
