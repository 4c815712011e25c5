//! Orchestration engine of a plugin-driven chat-network client.
//!
//! The engine routes every inbound chat event to a set of plugins, merges
//! their replies, and republishes outbound events to the network and to the
//! other plugins. This library holds the decisions of that engine: who is
//! invoked, what is recorded, who observes, how the authentication
//! handshake advances, and what becomes of the plugins' background tasks.
//! Performing the network and task plumbing is left to the program around
//! it.
//!
//! The engine: [`message`], [`error`], [`plugin`], [`handshake`],
//! [`dispatch`], [`window`], [`broadcast`], [`supervisor`], [`golem`],
//! [`credential`], and in [`laws`] what holds of them together.
//!
//! The plugins that need nothing from outside but the message and the time:
//! [`plugins`], with [`parser`], [`text`], [`calendar`] and [`civil`].

pub mod broadcast;
pub mod calendar;
pub mod civil;
pub mod credential;
pub mod dispatch;
pub mod error;
pub mod golem;
pub mod handshake;
pub mod laws;
pub mod message;
pub mod parser;
pub mod plugin;
pub mod plugins;
pub mod supervisor;
pub mod text;
pub mod window;
