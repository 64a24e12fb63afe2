//! Provider configuration for the ScholarAI desktop app: the metadata of the
//! AI providers the user configured, the rules that add, update, delete and
//! activate them, where their API keys live in the OS keychain, and the
//! decisions that drive the Python sidecar (locating it, polling its health,
//! stopping it).
//!
//! Nothing here touches the disk, the keychain, the network or processes:
//! every operation takes what was read and returns what is to be written or
//! run, so that each rule is verified on its own.

pub mod ai_bridge;
pub mod commands;
pub mod config;
pub mod laws;
pub mod models;
pub mod platform;
pub mod text;

pub use ai_bridge::AiBridge;
pub use config::{ConfigError, ConfigManager};
pub use models::{AppConfig, ProviderMeta, ProviderType};
