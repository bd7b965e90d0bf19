//! The log record model: severity levels, the record a caller emits, and the
//! field set a compiled template substitutes from.

use vstd::prelude::*;
use crate::decimal::{dec_rep, dec_string};

verus! {

/// Severity of a log record, ordered `Trace < Debug < Info < Warn < Error`.
#[derive(Clone, Copy, PartialEq, Eq, Structural, Debug)]
pub enum Level {
    Trace,
    Debug,
    Info,
    Warn,
    Error,
}

impl Level {
    /// Position of the level in the severity order.
    pub open spec fn rank(self) -> int {
        match self {
            Level::Trace => 0,
            Level::Debug => 1,
            Level::Info => 2,
            Level::Warn => 3,
            Level::Error => 4,
        }
    }

    /// Whether `self` is at most as severe as `other`.
    pub fn le(self, other: Level) -> (r: bool)
        ensures
            r == (self.rank() <= other.rank()),
    {
        self.rank_value() <= other.rank_value()
    }

    fn rank_value(self) -> (r: u8)
        ensures
            r == self.rank(),
    {
        match self {
            Level::Trace => 0,
            Level::Debug => 1,
            Level::Info => 2,
            Level::Warn => 3,
            Level::Error => 4,
        }
    }

    /// The five-character column text of the level, as it appears in console
    /// and file lines (`INFO ` and `WARN ` are padded to five characters).
    pub fn text(self) -> (r: &'static str)
        ensures
            r@ == spec_level_text(self),
    {
        match self {
            Level::Trace => "TRACE",
            Level::Debug => "DEBUG",
            Level::Info => "INFO ",
            Level::Warn => "WARN ",
            Level::Error => "ERROR",
        }
    }
}

/// The five-character column text of a level.
pub open spec fn spec_level_text(l: Level) -> Seq<char> {
    match l {
        Level::Trace => "TRACE"@,
        Level::Debug => "DEBUG"@,
        Level::Info => "INFO "@,
        Level::Warn => "WARN "@,
        Level::Error => "ERROR"@,
    }
}

/// One emitted log record, consumed synchronously by the sink.
pub struct LogRecord {
    /// Severity of the record.
    pub level: Level,
    /// Hierarchical component name that emitted the record.
    pub target: String,
    /// The rendered message text.
    pub message: String,
    /// Milliseconds since the epoch at which the record was emitted.
    pub timestamp_millis: u64,
    /// Source file that emitted the record, when known.
    pub source_file: Option<String>,
}

/// The field set a template substitutes from, one text per recognized
/// substitution field.
#[allow(non_snake_case)]
pub struct Context {
    /// Level column text (field `L`).
    pub L: String,
    /// Target name (field `T`).
    pub T: String,
    /// Message text (field `M`).
    pub M: String,
    /// Timestamp in milliseconds, as decimal text (field `t`).
    pub t: String,
    /// Source file, empty when unknown (field `F`).
    pub F: String,
}

/// Mathematical view of a [`Context`]: the five field texts.
#[allow(non_snake_case)]
pub struct ContextView {
    pub L: Seq<char>,
    pub T: Seq<char>,
    pub M: Seq<char>,
    pub t: Seq<char>,
    pub F: Seq<char>,
}

impl View for Context {
    type V = ContextView;

    open spec fn view(&self) -> ContextView {
        ContextView { L: self.L@, T: self.T@, M: self.M@, t: self.t@, F: self.F@ }
    }
}

/// The field set determined by a record: the level column text, the target,
/// the message, the decimal timestamp, and the source file (empty when
/// unknown).
pub open spec fn spec_context_of(r: LogRecord) -> ContextView {
    ContextView {
        L: spec_level_text(r.level),
        T: r.target@,
        M: r.message@,
        t: dec_rep(r.timestamp_millis as nat),
        F: match r.source_file {
            Option::Some(f) => f@,
            Option::None => Seq::empty(),
        },
    }
}

impl Context {
    /// Build the field set for one record.
    pub fn from_record(r: &LogRecord) -> (c: Context)
        ensures
            c@ == spec_context_of(*r),
    {
        let f = match &r.source_file {
            Option::Some(f) => f.clone(),
            Option::None => String::new(),
        };
        let c = Context {
            L: String::from_str(r.level.text()),
            T: r.target.clone(),
            M: r.message.clone(),
            t: dec_string(r.timestamp_millis),
            F: f,
        };
        proof {
            assert(c@.F =~= spec_context_of(*r).F);
        }
        c
    }
}

} // verus!
