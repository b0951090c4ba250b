//! Windows with an asynchronous interface, driven from one dispatcher thread.
pub mod channel;
pub mod close;
pub mod context;
pub mod device;
pub mod dispatcher;
pub mod error;
pub mod event;
pub mod geometry;
pub mod ime;
pub mod message;
pub mod registry;
pub mod resource;
pub mod style;
pub mod window;
