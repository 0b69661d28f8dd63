//! Provider setup for the pager: presets, the setup wizard, config writing, endpoint
//! validation planning, default model resolution and log buffering.
pub mod headers;
pub mod laws;
pub mod models;
pub mod provider_config_write;
pub mod provider_presets;
pub mod setup_wizard;
pub mod text;
pub mod toml_doc;
pub mod unified_log;
