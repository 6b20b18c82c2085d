use vstd::prelude::*;

verus! {

/// Severity of a record, ordered from most severe (`Critical`) to least
/// severe (`Trace`).
#[derive(Clone, Copy, PartialEq, Eq, Structural, Debug)]
pub enum Level {
    Critical,
    Error,
    Warning,
    Info,
    Debug,
    Trace,
}

impl Level {
    /// Rank of the level: smaller means more severe.
    pub open spec fn severity(self) -> nat {
        match self {
            Level::Critical => 0,
            Level::Error => 1,
            Level::Warning => 2,
            Level::Info => 3,
            Level::Debug => 4,
            Level::Trace => 5,
        }
    }

    /// Whether `self` is at least as severe as `other`.
    pub open spec fn spec_at_least(self, other: Level) -> bool {
        self.severity() <= other.severity()
    }

    /// Rank of the level as a machine integer.
    pub fn severity_index(&self) -> (n: u8)
        ensures
            n as nat == self.severity(),
    {
        match self {
            Level::Critical => 0,
            Level::Error => 1,
            Level::Warning => 2,
            Level::Info => 3,
            Level::Debug => 4,
            Level::Trace => 5,
        }
    }

    /// Whether `self` is at least as severe as `other`.
    pub fn at_least(&self, other: Level) -> (r: bool)
        ensures
            r == self.spec_at_least(other),
    {
        self.severity_index() <= other.severity_index()
    }
}

/// One completed unit of output handed to a sink: a severity and a message.
pub struct SinkRecord {
    pub level: Level,
    pub message: String,
}

/// Mathematical value of a record.
pub struct RecordView {
    pub level: Level,
    pub message: Seq<char>,
}

impl View for SinkRecord {
    type V = RecordView;

    open spec fn view(&self) -> RecordView {
        RecordView { level: self.level, message: self.message@ }
    }
}

impl SinkRecord {
    pub fn new(level: Level, message: String) -> (r: SinkRecord)
        ensures
            r@.level == level,
            r@.message == message@,
    {
        SinkRecord { level, message }
    }
}

/// The sink capability: accept one record, and report whether a given
/// severity is currently accepted.
///
/// A sink's observable behaviour is a function of its mathematical value
/// (its view): `log_out` says which result `log` returns, and `enabled`
/// says how `is_enabled` answers. Side effects of a real destination
/// (writing, flushing) are outside this model.
pub trait Sink: View + Sized {
    /// What a successful `log` returns.
    type Ok;

    /// What a failed `log` returns, passed through to the caller unchanged.
    type Err;

    /// The result `log` returns when a sink with value `v` receives `record`.
    spec fn log_out(v: Self::V, record: RecordView) -> Result<Self::Ok, Self::Err>;

    /// How a sink with value `v` answers `is_enabled(level)`.
    spec fn enabled(v: Self::V, level: Level) -> bool;

    /// Hand one record to the sink.
    fn log(&self, record: &SinkRecord) -> (r: Result<Self::Ok, Self::Err>)
        ensures
            r == Self::log_out(self@, record@),
    ;

    /// Whether the sink currently accepts records of severity `level`.
    fn is_enabled(&self, level: Level) -> (r: bool)
        ensures
            r == Self::enabled(self@, level),
    ;
}

/// A sink that accepts nothing and reports every record as handled.
#[derive(Clone, Copy, PartialEq, Eq, Structural, Debug)]
pub struct DiscardSink;

impl View for DiscardSink {
    type V = DiscardSink;

    open spec fn view(&self) -> DiscardSink {
        *self
    }
}

impl Sink for DiscardSink {
    type Ok = ();

    type Err = ();

    open spec fn log_out(v: DiscardSink, record: RecordView) -> Result<(), ()> {
        Ok(())
    }

    open spec fn enabled(v: DiscardSink, level: Level) -> bool {
        false
    }

    fn log(&self, record: &SinkRecord) -> (r: Result<(), ()>) {
        Ok(())
    }

    fn is_enabled(&self, level: Level) -> (r: bool) {
        false
    }
}

/// A sink that answers every record with its own token: `Ok(token)` for a
/// record severe enough for `min_level`, `Err(token)` otherwise. The token
/// identifies, at the caller, which sink served a call.
#[derive(Clone, Copy, PartialEq, Eq, Structural, Debug)]
pub struct TokenSink {
    pub token: u64,
    pub min_level: Level,
}

impl View for TokenSink {
    type V = TokenSink;

    open spec fn view(&self) -> TokenSink {
        *self
    }
}

impl Sink for TokenSink {
    type Ok = u64;

    type Err = u64;

    open spec fn log_out(v: TokenSink, record: RecordView) -> Result<u64, u64> {
        if record.level.spec_at_least(v.min_level) {
            Ok(v.token)
        } else {
            Err(v.token)
        }
    }

    open spec fn enabled(v: TokenSink, level: Level) -> bool {
        level.spec_at_least(v.min_level)
    }

    fn log(&self, record: &SinkRecord) -> (r: Result<u64, u64>) {
        if record.level.at_least(self.min_level) {
            Ok(self.token)
        } else {
            Err(self.token)
        }
    }

    fn is_enabled(&self, level: Level) -> (r: bool) {
        level.at_least(self.min_level)
    }
}

} // verus!
