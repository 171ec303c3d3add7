//! One line of text per record: ` LEVEL module | message`, with the level in
//! its colour, the module in bold and padded to the tracked width, and a
//! local timestamp in front where that is asked for.

use crate::level::Severity;
use crate::text::{byte_len, last_segment, last_segment_of, pad_right, padded};
use crate::width::{max_module_width, ModuleWidth};
use vstd::prelude::*;
use vstd::string::*;

verus! {

/// The colours that a level is shown in.
#[derive(Clone, Copy, Debug, PartialEq, Eq, Structural)]
pub enum LevelColor {
    Red,
    Yellow,
    Green,
    Blue,
    Magenta,
}

/// Which colour each severity is shown in.
#[derive(Clone, Copy, Debug, PartialEq, Eq, Structural)]
pub struct LevelColors {
    pub error: LevelColor,
    pub warn: LevelColor,
    pub info: LevelColor,
    pub debug: LevelColor,
    pub trace: LevelColor,
}

impl LevelColors {
    /// The colour of `level` in this table.
    pub open spec fn color_of(self, level: Severity) -> LevelColor {
        match level {
            Severity::Error => self.error,
            Severity::Warn => self.warn,
            Severity::Info => self.info,
            Severity::Debug => self.debug,
            Severity::Trace => self.trace,
        }
    }

    /// Looks up the colour of `level`.
    pub fn get_color(&self, level: Severity) -> (color: LevelColor)
        ensures
            color == self.color_of(level),
    {
        match level {
            Severity::Error => self.error,
            Severity::Warn => self.warn,
            Severity::Info => self.info,
            Severity::Debug => self.debug,
            Severity::Trace => self.trace,
        }
    }
}

/// Red errors, yellow warnings, green notices, blue and magenta for the two
/// verbose levels.
pub open spec fn nimiq_colors_spec() -> LevelColors {
    LevelColors {
        error: LevelColor::Red,
        warn: LevelColor::Yellow,
        info: LevelColor::Green,
        debug: LevelColor::Blue,
        trace: LevelColor::Magenta,
    }
}

/// The colour table of this logger.
#[verifier::when_used_as_spec(nimiq_colors_spec)]
pub fn nimiq_colors() -> (colors: LevelColors)
    ensures
        colors == nimiq_colors_spec(),
{
    LevelColors {
        error: LevelColor::Red,
        warn: LevelColor::Yellow,
        info: LevelColor::Green,
        debug: LevelColor::Blue,
        trace: LevelColor::Magenta,
    }
}

/// The number by which a terminal knows a foreground colour.
pub open spec fn color_code(color: LevelColor) -> Seq<char> {
    match color {
        LevelColor::Red => "31"@,
        LevelColor::Green => "32"@,
        LevelColor::Yellow => "33"@,
        LevelColor::Blue => "34"@,
        LevelColor::Magenta => "35"@,
    }
}

/// The control sequence that switches a terminal to the style `code`.
pub open spec fn escape(code: Seq<char>) -> Seq<char> {
    "\x1B["@ + code + "m"@
}

/// The control sequence that switches every style off.
pub open spec fn reset() -> Seq<char> {
    escape("0"@)
}

/// The level as a record line shows it: the name, padded to five
/// characters, between the sequence for its colour and a reset.
pub open spec fn level_field(level: Severity, color: LevelColor) -> Seq<char> {
    escape(color_code(color)) + padded(level.name(), 5) + reset()
}

/// `text` between the sequence for bold and a reset.
pub open spec fn emphasized(text: Seq<char>) -> Seq<char> {
    escape("1"@) + text + reset()
}

/// `text` holds a reset sequence of its own.
pub open spec fn has_reset(text: Seq<char>) -> bool {
    exists|at: int| 0 <= at && at + 4 <= text.len() && #[trigger] text.subrange(at, at + 4) == reset()
}

/// `shown` is what a terminal is sent for `text` in bold: `text` itself
/// where colours are switched off for the process, else `text` emphasized.
/// Nothing is said of a `text` that holds a reset sequence of its own.
pub open spec fn shown_bold(text: Seq<char>, shown: Seq<char>) -> bool {
    has_reset(text) || shown == text || shown == emphasized(text)
}

/// The line for a record, from its parts as they are shown.
pub open spec fn line_of(
    stamp: Option<Seq<char>>,
    level: Seq<char>,
    module: Seq<char>,
    message: Seq<char>,
) -> Seq<char> {
    let head = match stamp {
        Some(stamp) => " "@ + stamp + " "@,
        None => " "@,
    };
    head + level + " "@ + module + " | "@ + message
}

/// `shown` is the module column for a record with the given target, under
/// a tracker that started at `start`: the last segment of the target,
/// padded to a width that is no less than the segment's length in bytes nor
/// than `start`, and shown in bold.
pub open spec fn is_module_field(shown: Seq<char>, start: nat, target: Seq<char>) -> bool {
    exists|width: nat|
        {
            &&& width >= byte_len(last_segment_of(target))
            &&& width >= start
            &&& #[trigger] shown_bold(padded(last_segment_of(target), width), shown)
        }
}

/// `line` is a record line for the given record, under a tracker that
/// started at `start`: the level in its colour, the module column, and the
/// message.
pub open spec fn is_record_line(
    line: Seq<char>,
    stamp: Option<Seq<char>>,
    color: LevelColor,
    level: Severity,
    start: nat,
    target: Seq<char>,
    message: Seq<char>,
) -> bool {
    exists|module: Seq<char>| #[trigger]
        is_module_field(module, start, target) && line == line_of(
            stamp,
            level_field(level, color),
            module,
            message,
        )
}

/// `line` is a record line with some timestamp in front.
pub open spec fn is_stamped_record_line(
    line: Seq<char>,
    color: LevelColor,
    level: Severity,
    start: nat,
    target: Seq<char>,
    message: Seq<char>,
) -> bool {
    exists|stamp: Seq<char>| #[trigger]
        is_record_line(line, Some(stamp), color, level, start, target, message)
}

/// The name of a level as it is printed.
pub fn level_name(level: Severity) -> (name: &'static str)
    ensures
        name@ == level.name(),
{
    match level {
        Severity::Error => "ERROR",
        Severity::Warn => "WARN",
        Severity::Info => "INFO",
        Severity::Debug => "DEBUG",
        Severity::Trace => "TRACE",
    }
}

/// The level name in its colour, padded to five columns. The sequences are
/// written whether or not the output is a terminal.
pub fn paint_level(level: Severity, color: LevelColor) -> (out: String)
    ensures
        out@ == level_field(level, color),
{
    let code = match color {
        LevelColor::Red => "31",
        LevelColor::Green => "32",
        LevelColor::Yellow => "33",
        LevelColor::Blue => "34",
        LevelColor::Magenta => "35",
    };
    let name = pad_right(level_name(level), 5);
    let mut out = String::from_str("\x1B[");
    out.append(code);
    out.append("m");
    out.append(name.as_str());
    out.append("\x1B[0m");
    proof {
        reveal_strlit("\x1B[0m");
        reveal_strlit("\x1B[");
        reveal_strlit("0");
        reveal_strlit("m");
    }
    out
}

/// Text in bold: `Colorize::bold` of colored, as it prints. colored
/// decides for the whole process whether it colours at all, from the
/// variables `CLICOLOR`, `CLICOLOR_FORCE` and `NO_COLOR`, from whether
/// standard output is a terminal, and from its own switch; where it does
/// not colour, the text comes back as it is. Inside a text that holds reset
/// sequences colored repeats the style behind each of them, which the
/// contract leaves open.
#[verifier::external_body]
fn embolden(text: &str) -> (out: String)
    ensures
        shown_bold(text@, out@),
{
    format!("{}", colored::Colorize::bold(text))
}

/// The local time of this moment as `YYYY-MM-DD HH:MM:SS`: `Local::now` of
/// chrono, formatted. Nothing is promised of a clock's reading. chrono
/// panics where the clock stands before 1970.
#[verifier::external_body]
fn local_timestamp() -> (stamp: String) {
    format!("{}", chrono::Local::now().format("%Y-%m-%d %H:%M:%S"))
}

/// Puts a record line together from its parts as they are shown.
pub fn render_line(stamp: Option<&str>, level: &str, module: &str, message: &str) -> (line: String)
    ensures
        line@ == line_of(
            match stamp {
                Some(stamp) => Some(stamp@),
                None => None,
            },
            level@,
            module@,
            message@,
        ),
{
    let mut line = String::from_str(" ");
    match stamp {
        Some(stamp) => {
            line.append(stamp);
            line.append(" ");
        },
        None => {},
    }
    line.append(level);
    line.append(" ");
    line.append(module);
    line.append(" | ");
    line.append(message);
    line
}

/// The module column of a record: the last segment of `target`, padded to
/// the tracked width, in bold. The tracker sees the segment on the way.
pub fn module_field(width: &ModuleWidth, target: &str) -> (shown: String)
    ensures
        is_module_field(shown@, width.start(), target@),
{
    let module = last_segment(target);
    let max_width: usize = max_module_width(width, module);
    let column = pad_right(module, max_width);
    let shown = embolden(column.as_str());
    assert(shown_bold(padded(last_segment_of(target@), max_width as nat), shown@));
    shown
}

/// Formats a record without a timestamp: ` LEVEL module | message`.
pub fn pretty_logging(
    width: &ModuleWidth,
    colors: &LevelColors,
    level: Severity,
    target: &str,
    message: &str,
) -> (line: String)
    ensures
        is_record_line(
            line@,
            None,
            colors.color_of(level),
            level,
            width.start(),
            target@,
            message@,
        ),
{
    let module = module_field(width, target);
    let painted = paint_level(level, colors.get_color(level));
    render_line(None, painted.as_str(), module.as_str(), message)
}

/// Formats a record with the local time in front:
/// ` YYYY-MM-DD HH:MM:SS LEVEL module | message`.
pub fn pretty_logging_with_timestamps(
    width: &ModuleWidth,
    colors: &LevelColors,
    level: Severity,
    target: &str,
    message: &str,
) -> (line: String)
    ensures
        is_stamped_record_line(
            line@,
            colors.color_of(level),
            level,
            width.start(),
            target@,
            message@,
        ),
{
    let module = module_field(width, target);
    let stamp = local_timestamp();
    let painted = paint_level(level, colors.get_color(level));
    let line = render_line(Some(stamp.as_str()), painted.as_str(), module.as_str(), message);
    assert(is_record_line(
        line@,
        Some(stamp@),
        colors.color_of(level),
        level,
        width.start(),
        target@,
        message@,
    ));
    line
}

/// How records are turned into lines: with or without a timestamp, and in
/// which colours.
#[derive(Clone, Copy, Debug, PartialEq, Eq, Structural)]
pub struct LineFormatter {
    pub timestamps: bool,
    pub colors: LevelColors,
}

impl LineFormatter {
    /// Formats one record; `width` is the tracker of the module column.
    pub fn format_record(&self, width: &ModuleWidth, level: Severity, target: &str, message: &str) -> (line: String)
        ensures
            self.timestamps ==> is_stamped_record_line(
                line@,
                self.colors.color_of(level),
                level,
                width.start(),
                target@,
                message@,
            ),
            !self.timestamps ==> is_record_line(
                line@,
                None,
                self.colors.color_of(level),
                level,
                width.start(),
                target@,
                message@,
            ),
    {
        if self.timestamps {
            pretty_logging_with_timestamps(width, &self.colors, level, target, message)
        } else {
            pretty_logging(width, &self.colors, level, target, message)
        }
    }
}

/// A module name that is no longer than the tracked width fills the column
/// to exactly that width, whatever its own length.
pub proof fn lemma_short_name_fills_column(name: Seq<char>, current: nat)
    requires
        byte_len(name) <= current,
    ensures
        crate::width::widened(current, byte_len(name)) == current,
        padded(name, current).len() == current,
        name.is_prefix_of(padded(name, current)),
{
    crate::text::lemma_byte_len_bounds(name);
}

/// A longer name widens the column to its own length in bytes, and is
/// padded where its characters are fewer than its bytes.
pub proof fn lemma_long_name_sets_column(name: Seq<char>, current: nat)
    requires
        byte_len(name) > current,
    ensures
        crate::width::widened(current, byte_len(name)) == byte_len(name),
        padded(name, byte_len(name)).len() == byte_len(name),
{
    crate::text::lemma_byte_len_bounds(name);
}

} // verus!
