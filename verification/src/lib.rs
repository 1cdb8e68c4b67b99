//! Decision logic of a Discord house bot and of its deployment companion.
//!
//! Every module holds what the two programs decide and compute; what they read
//! and send stays outside.
pub mod answer;
pub mod answering;
pub mod bridge;
pub mod catalog;
pub mod changelog;
pub mod clock;
pub mod commands;
pub mod components;
pub mod containers;
pub mod conversation;
pub mod deploy_control;
pub mod deployment;
pub mod develop;
pub mod dispatch;
pub mod environment;
pub mod formatting;
pub mod history;
pub mod media;
pub mod message_log;
pub mod options;
pub mod pagination;
pub mod profile;
pub mod prompt;
pub mod redaction;
pub mod replies;
pub mod rollout;
pub mod routing;
pub mod settings;
pub mod text;
pub mod user_config;
