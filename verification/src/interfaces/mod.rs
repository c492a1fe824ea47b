//! The ways into the gateway: HTTP endpoints, webhooks of channels, hooks and the websocket.
pub mod channel_adapter_common;
pub mod channels;
pub mod compat;
pub mod discord;
pub mod hooks;
pub mod http;
pub mod openai;
pub mod openresponses;
pub mod signal;
pub mod slack;
pub mod telegram;
pub mod tools_invoke;
pub mod webhooks;
pub mod whatsapp;
pub mod ws;
