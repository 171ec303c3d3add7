//! The lines that report an error together with the errors that caused it.

use crate::level::Severity;
use vstd::prelude::*;
use vstd::string::*;

verus! {

/// One line to be logged.
#[derive(Clone, Debug)]
pub struct Emission {
    pub level: Severity,
    pub text: String,
}

/// `Emission` as plain values.
pub struct EmissionView {
    pub level: Severity,
    pub text: Seq<char>,
}

impl View for Emission {
    type V = EmissionView;

    open spec fn view(&self) -> EmissionView {
        EmissionView { level: self.level, text: self.text@ }
    }
}

/// Where a line is written.
#[derive(Clone, Copy, Debug, PartialEq, Eq, Structural)]
pub enum Channel {
    /// Through the installed logger.
    Logger,
    /// Straight to standard error.
    Stderr,
}

/// A list of lines as plain values.
pub open spec fn emissions_view(lines: Seq<Emission>) -> Seq<EmissionView> {
    lines.map_values(|line: Emission| line@)
}

/// A list of messages as plain values.
pub open spec fn messages_view(messages: Seq<String>) -> Seq<Seq<char>> {
    messages.map_values(|message: String| message@)
}

/// A line at the severity of errors.
pub open spec fn error_line(text: Seq<char>) -> EmissionView {
    EmissionView { level: Severity::Error, text }
}

/// The line for one cause: its message behind four blanks.
pub open spec fn cause_line(cause: Seq<char>) -> EmissionView {
    error_line("    "@ + cause)
}

/// The report of an error with the message `primary` and the causes
/// `causes`, nearest cause first: the message; and, where there is a cause,
/// the marker `  caused by` and one line for each cause in their order.
pub open spec fn chain_lines(primary: Seq<char>, causes: Seq<Seq<char>>) -> Seq<EmissionView> {
    if causes.len() == 0 {
        seq![error_line(primary)]
    } else {
        seq![error_line(primary), error_line("  caused by"@)] + causes.map_values(
            |cause: Seq<char>| cause_line(cause),
        )
    }
}

/// Writes the report of an error and its causes, line by line. `primary` is
/// the message of the error, `causes` the messages of its causes from the
/// nearest to the root.
pub fn log_error_cause_chain(primary: &str, causes: &Vec<String>) -> (lines: Vec<Emission>)
    ensures
        emissions_view(lines@) == chain_lines(primary@, messages_view(causes@)),
{
    let level = Severity::Error;
    let mut lines: Vec<Emission> = Vec::new();
    lines.push(Emission { level, text: String::from_str(primary) });
    if causes.len() == 0 {
        return lines;
    }
    lines.push(Emission { level, text: String::from_str("  caused by") });
    let ghost head = seq![error_line(primary@), error_line("  caused by"@)];
    let ghost shown = messages_view(causes@).map_values(|cause: Seq<char>| cause_line(cause));
    let mut at: usize = 0;
    while at < causes.len()
        invariant
            at <= causes.len(),
            level == Severity::Error,
            head == seq![error_line(primary@), error_line("  caused by"@)],
            shown == messages_view(causes@).map_values(|cause: Seq<char>| cause_line(cause)),
            emissions_view(lines@) == head + shown.take(at as int),
        decreases causes.len() - at,
    {
        let ghost before = lines@;
        let mut text = String::from_str("    ");
        text.append(causes[at].as_str());
        lines.push(Emission { level, text });
        at = at + 1;
        assert(emissions_view(lines@) =~= emissions_view(before).push(shown[at - 1]));
    }
    lines
}

/// Where a line of the report is written: through the logger where it lets
/// errors of the reporting module pass, else straight to standard error, so
/// that no line of the report is lost.
pub fn force_log(logger_enabled: bool) -> (channel: Channel)
    ensures
        channel == if logger_enabled {
            Channel::Logger
        } else {
            Channel::Stderr
        },
{
    if logger_enabled {
        Channel::Logger
    } else {
        Channel::Stderr
    }
}

/// The report has one line where there is no cause, and two more than
/// there are causes otherwise; every line is at the severity of errors, the
/// first is the message, and the causes keep their order.
pub proof fn lemma_chain_shape(primary: Seq<char>, causes: Seq<Seq<char>>)
    ensures
        chain_lines(primary, causes).len() == if causes.len() == 0 {
            1
        } else {
            causes.len() + 2
        },
        chain_lines(primary, causes)[0] == error_line(primary),
        forall|i: int|
            0 <= i < chain_lines(primary, causes).len() ==> (#[trigger] chain_lines(
                primary,
                causes,
            )[i]).level == Severity::Error,
        causes.len() > 0 ==> chain_lines(primary, causes)[1] == error_line("  caused by"@),
        forall|i: int|
            0 <= i < causes.len() ==> #[trigger] chain_lines(primary, causes)[i + 2] == cause_line(
                causes[i],
            ),
{
}

} // verus!
