//! Verified core of a Telegram bot framework with AI tool calling: tool
//! parameter schemas, MarkdownV2 escaping, command and callback handling,
//! inline keyboards, the AI conversation, and start-up configuration.

pub mod text;
pub mod property;
pub mod schema;
pub mod markdown;
pub mod bot;
pub mod action;
pub mod keyboard;
pub mod ai;
pub mod field_types;
pub mod health;
pub mod config;

pub use action::{reply_for, FileRep, ToolCallAction};
pub use ai::{create_ai_fun, GroqProvider, VeniceProvider};
pub use bot::TgBot;
pub use config::{Cli, InfisicalConfig};
pub use health::get_port;
pub use markdown::escape_md;
pub use property::{Properties, Property, PropertyKind, ToolParameters};
pub use schema::props_to_json;
