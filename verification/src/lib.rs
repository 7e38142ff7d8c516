//! A relay between a game session's chat and outside messaging platforms.
//!
//! A bridge is a pair of unbounded queues between the game side and one
//! platform, with an ignore list and links to other bridges. What is said in
//! the game is sent to the platform as an event; what is said on the
//! platform is cut into fragments that the game accepts and handed on to the
//! linked bridges.
//!
//! - `chunk`: the cutting of a line into fragments.
//! - `filter`: the ignore list.
//! - `event`: the events and the plain values they are made of.
//! - `producer`: from a line seen in the game to an event.
//! - `consumer`: from an event of a platform to fragments and forwards.
//! - `channel`: what is believed of the queues.
//! - `bridge`: the bridge and its two halves.
//! - `plugin`, `discord`, `matrix`: the platforms that keep queues of their
//!   own, and what their adapters decide.
//! - `health`: the health check's rules.
//! - `text`: operations on text.

pub mod bridge;
pub mod channel;
pub mod chunk;
pub mod consumer;
pub mod discord;
pub mod event;
pub mod filter;
pub mod health;
pub mod matrix;
pub mod plugin;
pub mod producer;
pub mod text;
