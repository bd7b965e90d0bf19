//! Configuration: an immutable snapshot of the sink's settings, produced
//! once at initialization through [`LogConfigBuilder`].
//!
//! Configuration errors are recovered locally, never propagated: an invalid
//! line pattern falls back to the built-in default pattern, and an output
//! path that cannot be created as a new file falls back to console-only
//! output.

use vstd::prelude::*;
use crate::template::{compile, default_template, spec_default_template, valid_pattern};

verus! {

/// The sink's settings, fixed for the life of the process.
pub struct LogConfig {
    /// Name of the environment variable the host reads the minimum level
    /// filter from.
    pub env: &'static str,
    /// Target file path; `"stdout"` means file logging is disabled.
    pub output: &'static str,
    /// Whether file logging is enabled.
    pub file: bool,
    /// The line pattern rendered into the file for each record.
    pub format: &'static str,
    /// Line count that triggers a rotation; 0 disables rotation.
    pub rotation: usize,
}

impl LogConfig {
    /// Whether a config carries the default settings.
    pub open spec fn is_default_settings(self) -> bool {
        self.env@ == "RUST_LOG"@ && self.output@ == "stdout"@ && !self.file && self.format@
            == spec_default_template() && self.rotation == 0
    }

    /// Get a builder for the log config.
    pub fn builder() -> (r: LogConfigBuilder)
        ensures
            r.is_default_settings(),
    {
        LogConfigBuilder::new()
    }

    /// Get a log config with default settings: level filter from `RUST_LOG`,
    /// console output only, the built-in default pattern, no rotation.
    pub fn default() -> (r: LogConfig)
        ensures
            r.is_default_settings(),
    {
        LogConfigBuilder::new().finish()
    }
}

/// Builder for [`LogConfig`]; every setting starts at its default.
pub struct LogConfigBuilder {
    /// Name of the environment variable for the level filter.
    pub env: &'static str,
    /// Target file path; `"stdout"` means file logging is disabled.
    pub output: &'static str,
    /// Whether file logging is enabled.
    pub file: bool,
    /// The line pattern rendered into the file for each record.
    pub format: &'static str,
    /// Line count that triggers a rotation; 0 disables rotation.
    pub rotation: usize,
}

impl LogConfigBuilder {
    /// Whether a builder carries the default settings.
    pub open spec fn is_default_settings(self) -> bool {
        self.env@ == "RUST_LOG"@ && self.output@ == "stdout"@ && !self.file && self.format@
            == spec_default_template() && self.rotation == 0
    }

    /// Create a new log config builder with default settings: level filter
    /// from `RUST_LOG`, console output only, the built-in default pattern,
    /// no rotation.
    pub fn new() -> (r: LogConfigBuilder)
        ensures
            r.is_default_settings(),
    {
        LogConfigBuilder {
            env: "RUST_LOG",
            output: "stdout",
            file: false,
            format: default_template(),
            rotation: 0,
        }
    }

    /// Set the environment variable name for the log level filter.
    pub fn env(self, env: &'static str) -> (r: LogConfigBuilder)
        ensures
            r.env@ == env@,
            r.output@ == self.output@,
            r.file == self.file,
            r.format@ == self.format@,
            r.rotation == self.rotation,
    {
        LogConfigBuilder {
            env,
            output: self.output,
            file: self.file,
            format: self.format,
            rotation: self.rotation,
        }
    }

    /// Set the output destination, given the outcome of the host's probe of
    /// the path.
    ///
    /// The host must first try to create the path as a new file (never
    /// touching an existing one); `created` says whether that succeeded.
    /// When it did, file logging is enabled on that path. When the path
    /// already existed as a regular file, or could not be created, file
    /// logging stays disabled and output falls back to the console.
    pub fn output(self, output: &'static str, created: bool) -> (r: LogConfigBuilder)
        ensures
            r.env@ == self.env@,
            r.format@ == self.format@,
            r.rotation == self.rotation,
            created ==> r.output@ == output@ && r.file,
            !created ==> r.output@ == "stdout"@ && !r.file,
    {
        if created {
            LogConfigBuilder {
                env: self.env,
                output,
                file: true,
                format: self.format,
                rotation: self.rotation,
            }
        } else {
            LogConfigBuilder {
                env: self.env,
                output: "stdout",
                file: false,
                format: self.format,
                rotation: self.rotation,
            }
        }
    }

    /// Set the line pattern for file output.
    ///
    /// The pattern is compiled for validation; a pattern the compiler
    /// rejects falls back to the built-in default pattern, never to a
    /// partially parsed one.
    pub fn format(self, format: &'static str) -> (r: LogConfigBuilder)
        ensures
            r.env@ == self.env@,
            r.output@ == self.output@,
            r.file == self.file,
            r.rotation == self.rotation,
            valid_pattern(format@) ==> r.format@ == format@,
            !valid_pattern(format@) ==> r.format@ == spec_default_template(),
    {
        match compile(format) {
            Ok(_) => LogConfigBuilder {
                env: self.env,
                output: self.output,
                file: self.file,
                format,
                rotation: self.rotation,
            },
            Err(_) => LogConfigBuilder {
                env: self.env,
                output: self.output,
                file: self.file,
                format: default_template(),
                rotation: self.rotation,
            },
        }
    }

    /// Set the file rotation threshold; 0 means no rotation.
    pub fn rotation(self, rotation: usize) -> (r: LogConfigBuilder)
        ensures
            r.env@ == self.env@,
            r.output@ == self.output@,
            r.file == self.file,
            r.format@ == self.format@,
            r.rotation == rotation,
    {
        LogConfigBuilder {
            env: self.env,
            output: self.output,
            file: self.file,
            format: self.format,
            rotation,
        }
    }

    /// Finish the builder into the immutable config.
    pub fn finish(self) -> (r: LogConfig)
        ensures
            r.env@ == self.env@,
            r.output@ == self.output@,
            r.file == self.file,
            r.format@ == self.format@,
            r.rotation == self.rotation,
    {
        LogConfig::from(self)
    }
}

impl Default for LogConfigBuilder {
    fn default() -> (r: LogConfigBuilder)
        ensures
            r.is_default_settings(),
    {
        LogConfigBuilder::new()
    }
}

impl From<LogConfigBuilder> for LogConfig {
    fn from(builder: LogConfigBuilder) -> (r: LogConfig) {
        LogConfig {
            env: builder.env,
            output: builder.output,
            file: builder.file,
            format: builder.format,
            rotation: builder.rotation,
        }
    }
}

impl vstd::std_specs::convert::FromSpecImpl<LogConfigBuilder> for LogConfig {
    open spec fn obeys_from_spec() -> bool {
        true
    }

    open spec fn from_spec(builder: LogConfigBuilder) -> LogConfig {
        LogConfig {
            env: builder.env,
            output: builder.output,
            file: builder.file,
            format: builder.format,
            rotation: builder.rotation,
        }
    }
}

} // verus!
