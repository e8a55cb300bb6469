//! Core logic of a moderated, tool-driven Telegram chat agent.

pub mod archive;
pub mod bridge;
pub mod claude;
pub mod clock;
pub mod config;
pub mod context;
pub mod debounce;
pub mod docx;
pub mod engine;
pub mod import;
pub mod intake;
pub mod logbook;
pub mod media;
pub mod memory;
pub mod message;
pub mod moderation;
pub mod order;
pub mod peer;
pub mod prompt;
pub mod reminders;
pub mod signals;
pub mod surface;
pub mod text;
pub mod tools;
pub mod turn;
pub mod vocabulary;
pub mod web;
pub mod wording;
