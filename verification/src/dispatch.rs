//! The dispatch entry point: the decisions behind emitting one log record.
//!
//! The host performs the I/O; for each emitted record it drives these steps
//! in this fixed order (the console line is produced unconditionally and is
//! never withheld pending the file write):
//!
//! 1. format the console line ([`console_line`], with the padding width kept
//!    monotone through [`max_target_width`]);
//! 2. if file logging is enabled, render the file line
//!    ([`WriteConfig::render_line`]);
//! 3. append the rendered bytes to the active file at
//!    [`SharedWriteState::current_offset`], and advance the offset by the
//!    byte count the write actually reported
//!    ([`SharedWriteState::advance_offset`]); a failed append advances
//!    nothing;
//! 4. count the line and evaluate rotation ([`after_append`]); when a backup
//!    name is returned, rename the active file to it and, only if the rename
//!    succeeded, consume the backup index just used
//!    ([`SharedWriteState::next_rotation_index`]) and call
//!    [`SharedWriteState::reset_after_rotation`]. A failed rename is reported
//!    and leaves every counter as it was: the active file keeps growing past
//!    the threshold, and the same backup index is used once a rename
//!    succeeds.

use vstd::prelude::*;
use crate::config::LogConfig;
use crate::record::{Context, LogRecord, spec_context_of, spec_level_text};
use crate::rotation::{backup_name, is_rotation_due, rotation_due, spec_backup_name};
use crate::state::SharedWriteState;
use crate::template::{
    compile, default_template, lemma_default_template_valid, parse_pattern, spec_default_template,
    spec_render, valid_pattern, Template,
};

verus! {

/// The write path's snapshot of the configuration: the template is compiled
/// once, at initialization.
pub struct WriteConfig {
    /// Path of the active log file.
    pub output: &'static str,
    /// Whether file logging is enabled.
    pub file: bool,
    /// Line count that triggers a rotation; 0 disables rotation.
    pub rotation: usize,
    /// The compiled line template.
    pub template: Template,
}

impl WriteConfig {
    /// Compile the configured pattern once. A pattern the compiler rejects
    /// falls back to the built-in default pattern; a partially parsed
    /// template is never used.
    pub fn from_config(config: &LogConfig) -> (r: WriteConfig)
        ensures
            r.output@ == config.output@,
            r.file == config.file,
            r.rotation == config.rotation,
            valid_pattern(config.format@) ==> r.template@ == parse_pattern(config.format@),
            !valid_pattern(config.format@) ==> r.template@ == parse_pattern(
                spec_default_template(),
            ),
    {
        let template = match compile(config.format) {
            Ok(t) => t,
            Err(_) => {
                proof {
                    lemma_default_template_valid();
                }
                match compile(default_template()) {
                    Ok(t) => t,
                    Err(_) => vstd::pervasive::unreached(),
                }
            },
        };
        WriteConfig { output: config.output, file: config.file, rotation: config.rotation, template }
    }

    /// Render the file line for one record.
    pub fn render_line(&self, record: &LogRecord) -> (r: String)
        ensures
            r@ == spec_render(self.template@, spec_context_of(*record)),
    {
        let context = Context::from_record(record);
        self.template.render(&context)
    }
}

/// The synchronous text of one emission.
pub struct Emission {
    /// The console line, produced for every record.
    pub console: String,
    /// The rendered file line, present exactly when file logging is enabled.
    pub file_line: Option<String>,
}

/// The synchronous part of emitting one record: the console line is always
/// produced (never withheld pending file work), and the file line is
/// rendered exactly when file logging is enabled. The host then appends the
/// file line's bytes and runs [`after_append`].
pub fn emit(config: &WriteConfig, record: &LogRecord, width: usize) -> (r: Emission)
    ensures
        r.console@ == spec_console_line(*record, width as nat),
        r.file_line is Some <==> config.file,
        r.file_line matches Some(line) ==> line@ == spec_render(
            config.template@,
            spec_context_of(*record),
        ),
{
    let console = console_line(record, width);
    let file_line = if config.file {
        Some(config.render_line(record))
    } else {
        None
    };
    Emission { console, file_line }
}

/// After a completed append: count the line and evaluate rotation from the
/// count this call observed. Returns the backup name to rename the active
/// file to exactly when the threshold is enabled and the fresh count equals
/// it. The name is taken from the current rotation index without consuming
/// it, and neither the offset nor the index is touched: the index advances
/// only per successful rotation, so the caller consumes it
/// ([`SharedWriteState::next_rotation_index`]) and resets the counters
/// ([`SharedWriteState::reset_after_rotation`]) only once the rename
/// succeeded; after a failed rename the same index names the next attempt.
pub fn after_append(state: &mut SharedWriteState, config: &WriteConfig) -> (r: Option<String>)
    requires
        old(state).line_count < u64::MAX,
    ensures
        final(state).line_count == old(state).line_count + 1,
        final(state).write_offset == old(state).write_offset,
        final(state).rotation_index == old(state).rotation_index,
        r is Some <==> rotation_due(config.rotation, (old(state).line_count + 1) as u64),
        r matches Some(b) ==> b@ == spec_backup_name(
            config.output@,
            old(state).rotation_index as nat,
        ),
{
    let lines = state.increment_line();
    if is_rotation_due(config.rotation, lines) {
        Some(backup_name(config.output, state.rotation_index))
    } else {
        None
    }
}

/// The widest target name seen so far: the console target column is padded
/// to this width, which never shrinks.
pub fn max_target_width(max_width: usize, target: &str) -> (r: usize)
    ensures
        r == vstd::math::max(max_width as int, target@.len() as int),
{
    let len = target.unicode_len();
    if max_width < len {
        len
    } else {
        max_width
    }
}

/// A target name padded with spaces to the column width (a name already as
/// wide is kept as it is).
pub open spec fn spec_padded_target(target: Seq<char>, width: nat) -> Seq<char> {
    if target.len() >= width {
        target
    } else {
        target + Seq::new((width - target.len()) as nat, |i: int| ' ')
    }
}

/// Pad a target name with spaces to the column width.
pub fn padded_target(target: &str, width: usize) -> (r: String)
    ensures
        r@ == spec_padded_target(target@, width as nat),
{
    let mut s = String::from_str(target);
    let len = target.unicode_len();
    if len >= width {
        return s;
    }
    let mut k: usize = len;
    proof {
        assert(s@ =~= target@ + Seq::new(0, |i: int| ' '));
    }
    while k < width
        invariant
            len == target@.len(),
            len <= k <= width,
            s@ == target@ + Seq::new((k - len) as nat, |i: int| ' '),
        decreases width - k,
    {
        s.append(" ");
        proof {
            reveal_strlit(" ");
            assert(s@ =~= target@ + Seq::new((k + 1 - len) as nat, |i: int| ' '));
        }
        k = k + 1;
    }
    s
}

/// The characters of a console line: the level column, the padded target
/// column, a separator, and the message.
pub open spec fn spec_console_line(record: LogRecord, width: nat) -> Seq<char> {
    spec_level_text(record.level) + seq![' '] + spec_padded_target(record.target@, width) + " > "@
        + record.message@ + seq!['\n']
}

/// Format the console line `<LEVEL> <padded-target> > <message>\n` for one
/// record. Produced synchronously for every emitted record, whether or not
/// file logging is enabled. (Any coloring is the host's concern.)
pub fn console_line(record: &LogRecord, width: usize) -> (r: String)
    ensures
        r@ == spec_console_line(*record, width as nat),
{
    let mut s = String::from_str(record.level.text());
    s.append(" ");
    s.append(padded_target(record.target.as_str(), width).as_str());
    s.append(" > ");
    s.append(record.message.as_str());
    s.append("\n");
    proof {
        reveal_strlit(" ");
        reveal_strlit("\n");
        assert(s@ =~= spec_console_line(*record, width as nat));
    }
    s
}

} // verus!
