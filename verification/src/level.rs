//! Severities of records and the thresholds that admit them.

use vstd::prelude::*;

verus! {

/// How grave a record is. `Error` is the gravest, `Trace` the least grave.
#[derive(Clone, Copy, Debug, PartialEq, Eq, Hash, Structural)]
pub enum Severity {
    Error,
    Warn,
    Info,
    Debug,
    Trace,
}

/// The least grave severity that still passes; `Off` lets nothing pass.
#[derive(Clone, Copy, Debug, PartialEq, Eq, Hash, Structural)]
pub enum Threshold {
    Off,
    Error,
    Warn,
    Info,
    Debug,
    Trace,
}

/// The threshold of every module that no setting names.
pub const DEFAULT_LEVEL: Threshold = Threshold::Info;

impl Severity {
    /// Position in the order of verbosity: 1 for `Error` up to 5 for `Trace`.
    pub open spec fn rank(self) -> nat {
        match self {
            Severity::Error => 1,
            Severity::Warn => 2,
            Severity::Info => 3,
            Severity::Debug => 4,
            Severity::Trace => 5,
        }
    }

    /// The name as it is printed, in capitals.
    pub open spec fn name(self) -> Seq<char> {
        match self {
            Severity::Error => "ERROR"@,
            Severity::Warn => "WARN"@,
            Severity::Info => "INFO"@,
            Severity::Debug => "DEBUG"@,
            Severity::Trace => "TRACE"@,
        }
    }
}

impl Threshold {
    /// Position in the order of verbosity: 0 for `Off`, 1 for `Error` up to
    /// 5 for `Trace`.
    pub open spec fn rank(self) -> nat {
        match self {
            Threshold::Off => 0,
            Threshold::Error => 1,
            Threshold::Warn => 2,
            Threshold::Info => 3,
            Threshold::Debug => 4,
            Threshold::Trace => 5,
        }
    }

    /// A record passes when it is at least as grave as the threshold asks.
    pub open spec fn admits_spec(self, record: Severity) -> bool {
        record.rank() <= self.rank()
    }

    /// Whether a record of the given severity passes this threshold.
    #[verifier::when_used_as_spec(admits_spec)]
    pub fn admits(self, record: Severity) -> (passes: bool)
        ensures
            passes == self.admits_spec(record),
    {
        let limit: u8 = match self {
            Threshold::Off => 0,
            Threshold::Error => 1,
            Threshold::Warn => 2,
            Threshold::Info => 3,
            Threshold::Debug => 4,
            Threshold::Trace => 5,
        };
        let rank: u8 = match record {
            Severity::Error => 1,
            Severity::Warn => 2,
            Severity::Info => 3,
            Severity::Debug => 4,
            Severity::Trace => 5,
        };
        rank <= limit
    }
}

/// A more verbose threshold admits everything that a stricter one admits,
/// and `Off` admits nothing.
pub proof fn lemma_threshold_order(strict: Threshold, verbose: Threshold, record: Severity)
    requires
        strict.rank() <= verbose.rank(),
    ensures
        strict.admits_spec(record) ==> verbose.admits_spec(record),
        !Threshold::Off.admits_spec(record),
        DEFAULT_LEVEL.admits_spec(record) <==> record is Error || record is Warn || record is Info,
{
}

} // verus!
