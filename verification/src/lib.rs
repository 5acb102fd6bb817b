//! Bootstraps a typed application configuration from TOML text, filling any
//! field the user omitted with a caller-supplied default, and idempotently
//! provisions auxiliary plain-text assets the same way.

pub mod config;
pub mod loader;
pub mod toml_text;

pub use config::Conf;
pub use config::Config;
pub use config::ConfigOptional;
pub use config::OptConf;
pub use loader::LoadError;
pub use loader::ReadConfigFileError;
pub use loader::create_config;
pub use loader::ensure_file_content;
pub use loader::needs_provisioning;
pub use loader::read_specific_config;
pub use loader::read_specific_css;
