//! Agents that connect a workflow to a Mattermost server: they post messages,
//! read a channel's history, list channels, listen for new messages and turn
//! Mattermost messages into chat messages.
pub mod api;
pub mod channels;
pub mod client;
pub mod config;
pub mod connect;
pub mod error;
pub mod history;
pub mod image;
pub mod image_search;
pub mod json;
pub mod listener;
pub mod post;
pub mod reconnect;
pub mod sequences;
pub mod text;
pub mod text_map;
pub mod to_message;
pub mod value;
