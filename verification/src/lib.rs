//! A process-local log sink.
//!
//! Log records are rendered through a compiled line template and appended to
//! a growing log file that is rotated after a configurable number of lines.
//! The write path — offset and line-count bookkeeping, template rendering,
//! and the rotation protocol — is verified; the host program performs the
//! actual file and console I/O and drives the verified step functions in the
//! order documented on [`dispatch`].

pub mod config;
pub mod decimal;
pub mod dispatch;
pub mod record;
pub mod rotation;
pub mod state;
pub mod template;

pub use config::LogConfig;
pub use config::LogConfigBuilder;
pub use dispatch::WriteConfig;
pub use record::Context;
pub use record::Level;
pub use record::LogRecord;
pub use state::SharedWriteState;
pub use template::Template;
pub use template::TemplateError;
