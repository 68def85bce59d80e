//! Client library for the Gemini generative-language REST API: typed request
//! and response models, URI building, chat sessions and safety settings.
pub mod chat;
pub mod client;
pub mod conversation;
pub mod error;
pub mod files;
pub mod harm_probability;
pub mod response;
pub mod safety;
pub mod safety_settings;
pub mod text;
pub mod types;

pub use chat::Chat;
pub use client::Client;
pub use error::GeminiError;
