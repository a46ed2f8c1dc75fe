//! Where the log goes, which of it is kept for the overlay, and how much.
use std::collections::VecDeque;
use vstd::prelude::*;

use crate::app::LogLevelOverride;
use crate::backend::gamestream::stream::{ascii_lower, equal_ignoring_case, same_but_case};
use crate::seqs::views;
use crate::text::{join3, same_text};

verus! {

broadcast use crate::seqs::group_views;

/// How long a log file may grow before it is started over.
pub const MAX_LOG_BYTES: u64 = 2_097_152;

/// How many lines are kept for the overlay.
pub const RING_CAPACITY: usize = 200;

/// How long a kept line is at most, in characters.
pub const RING_LINE_MAX_CHARS: usize = 200;

/// How much a line of the log matters.
#[derive(Clone, Copy, Debug, PartialEq, Eq, Structural)]
pub enum Level {
    Error,
    Warn,
    Info,
    Debug,
    Trace,
}

/// What the system hands over at launch that concerns the log.
#[derive(Debug)]
pub struct LaunchParams {
    /// Where to send the log.
    pub telemetry: Option<String>,
    /// The level to log at.
    pub telemetry_level: Option<String>,
}

/// Where the log is to be sent, if anywhere.
pub fn telemetry_addr<'a>(params: &'a LaunchParams) -> (r: Option<&'a str>)
    ensures
        match r {
            Some(addr) => params.telemetry is Some && addr@ == params.telemetry->0@ && addr@.len()
                > 0,
            None => params.telemetry is Some ==> params.telemetry->0@.len() == 0,
        },
{
    match &params.telemetry {
        Some(addr) => if addr.as_str().unicode_len() > 0 {
            Some(addr.as_str())
        } else {
            None
        },
        None => None,
    }
}

/// The level that a word stands for, in any case.
pub open spec fn level_named(word: Seq<char>) -> Option<LogLevelOverride> {
    if same_but_case(word, "debug"@) {
        Some(LogLevelOverride::Debug)
    } else if same_but_case(word, "info"@) {
        Some(LogLevelOverride::Info)
    } else if same_but_case(word, "warn"@) {
        Some(LogLevelOverride::Warn)
    } else if same_but_case(word, "error"@) {
        Some(LogLevelOverride::Error)
    } else {
        None
    }
}

/// The level that the launch asks for. None leaves the stored one.
pub fn launch_level_override(params: &LaunchParams) -> (r: Option<LogLevelOverride>)
    ensures
        r == (match params.telemetry_level {
            Some(word) => level_named(word@),
            None => None,
        }),
{
    match &params.telemetry_level {
        None => None,
        Some(word) => {
            let w = word.as_str();
            if equal_ignoring_case(w, "debug") {
                Some(LogLevelOverride::Debug)
            } else if equal_ignoring_case(w, "info") {
                Some(LogLevelOverride::Info)
            } else if equal_ignoring_case(w, "warn") {
                Some(LogLevelOverride::Warn)
            } else if equal_ignoring_case(w, "error") {
                Some(LogLevelOverride::Error)
            } else {
                None
            }
        },
    }
}

/// The level of a setting.
pub open spec fn level_of(o: LogLevelOverride) -> Level {
    match o {
        LogLevelOverride::Debug => Level::Debug,
        LogLevelOverride::Info => Level::Info,
        LogLevelOverride::Warn => Level::Warn,
        LogLevelOverride::Error => Level::Error,
    }
}

/// How far down a level is: the more it lets through, the higher.
pub open spec fn ordinal(level: Level) -> u8 {
    match level {
        Level::Error => 1,
        Level::Warn => 2,
        Level::Info => 3,
        Level::Debug => 4,
        Level::Trace => 5,
    }
}

/// The level of a setting.
pub fn override_to_level(o: LogLevelOverride) -> (r: Level)
    ensures
        r == level_of(o),
{
    match o {
        LogLevelOverride::Debug => Level::Debug,
        LogLevelOverride::Info => Level::Info,
        LogLevelOverride::Warn => Level::Warn,
        LogLevelOverride::Error => Level::Error,
    }
}

/// The level to start at, from the stored setting.
pub fn resolved_level(stored: LogLevelOverride) -> (r: Level)
    ensures
        r == level_of(stored),
{
    override_to_level(stored)
}

/// How far down a level is.
pub fn level_ordinal(level: Level) -> (r: u8)
    ensures
        r == ordinal(level),
{
    match level {
        Level::Error => 1,
        Level::Warn => 2,
        Level::Info => 3,
        Level::Debug => 4,
        Level::Trace => 5,
    }
}

/// The name of the log file of a version, in the app's directory.
pub fn log_file_name(version: &str) -> (r: String)
    ensures
        r@ == "punktfunk-webos-"@ + version@ + ".log"@,
{
    join3("punktfunk-webos-", version, ".log")
}

/// A log file's length.
#[derive(Clone, Copy, Debug, PartialEq, Eq, Structural)]
pub struct LogFile {
    pub written: u64,
}

impl LogFile {
    /// A file that was just emptied.
    pub fn new() -> (r: Self)
        ensures
            r.written == 0,
    {
        LogFile { written: 0 }
    }

    /// After `n` bytes were written.
    pub fn wrote(&mut self, n: u64)
        requires
            old(self).written + n <= u64::MAX,
        ensures
            final(self).written == old(self).written + n,
    {
        self.written = self.written + n;
    }

    /// After a flush: whether the file is to be emptied and started over.
    pub fn flushed(&mut self) -> (start_over: bool)
        ensures
            start_over == (old(self).written >= MAX_LOG_BYTES),
            final(self).written == (if start_over {
                0
            } else {
                old(self).written
            }),
            final(self).written < MAX_LOG_BYTES,
    {
        if self.written >= MAX_LOG_BYTES {
            self.written = 0;
            true
        } else {
            false
        }
    }
}

/// The last lines of the log, while the overlay wants them.
#[derive(Debug)]
pub struct LogRing {
    /// Whether the log is set up.
    set_up: bool,
    capturing: bool,
    /// The ordinal of the level up to which lines are kept.
    level: u8,
    lines: VecDeque<String>,
}

/// A `LogRing` as values.
pub struct LogRingView {
    /// Whether the log is set up.
    pub set_up: bool,
    pub capturing: bool,
    pub level: u8,
    pub lines: Seq<Seq<char>>,
}

impl View for LogRing {
    type V = LogRingView;

    closed spec fn view(&self) -> LogRingView {
        LogRingView {
            set_up: self.set_up,
            capturing: self.capturing,
            level: self.level,
            lines: views(self.lines@),
        }
    }
}

/// The name of a level, filled up to five characters.
pub open spec fn padded_level(level: Level) -> Seq<char> {
    match level {
        Level::Error => "ERROR"@,
        Level::Warn => "WARN "@,
        Level::Info => "INFO "@,
        Level::Debug => "DEBUG"@,
        Level::Trace => "TRACE"@,
    }
}

/// The first `n` characters of a text.
pub open spec fn first_chars(s: Seq<char>, n: nat) -> Seq<char> {
    if s.len() <= n {
        s
    } else {
        s.take(n as int)
    }
}

/// The line for an event.
pub open spec fn ring_line(level: Level, message: Seq<char>) -> Seq<char> {
    first_chars(padded_level(level) + " "@ + message, RING_LINE_MAX_CHARS as nat)
}

impl LogRingView {
    /// With a line more, the oldest leaving where there is no room.
    pub open spec fn with_line(self, line: Seq<char>) -> LogRingView {
        LogRingView {
            lines: (if self.lines.len() >= RING_CAPACITY {
                self.lines.drop_first()
            } else {
                self.lines
            }).push(line),
            ..self
        }
    }

    /// The last `n` lines.
    pub open spec fn last_lines(self, n: nat) -> Seq<Seq<char>> {
        if self.lines.len() <= n {
            self.lines
        } else {
            self.lines.skip(self.lines.len() - n)
        }
    }
}

impl LogRing {
    /// Whether no more lines are kept than may be.
    pub closed spec fn wf(self) -> bool {
        self.lines@.len() <= RING_CAPACITY
    }

    /// An empty ring that keeps nothing yet, before the log is set up.
    pub fn new(level: Level) -> (r: Self)
        ensures
            r.wf(),
            r@ == (LogRingView {
                set_up: false,
                capturing: false,
                level: ordinal(level),
                lines: seq![],
            }),
    {
        let r = LogRing {
            set_up: false,
            capturing: false,
            level: level_ordinal(level),
            lines: VecDeque::new(),
        };
        assert(r@.lines =~= seq![]);
        r
    }

    /// Notes that the log is set up, at this level.
    pub fn init_subscriber(&mut self, level: Level)
        requires
            old(self).wf(),
        ensures
            final(self).wf(),
            final(self)@ == (LogRingView { set_up: true, level: ordinal(level), ..old(self)@ }),
    {
        self.set_up = true;
        self.level = level_ordinal(level);
    }

    /// Whether an event of this level is kept.
    pub fn enabled(&self, level: Level) -> (r: bool)
        ensures
            r == (self@.capturing && ordinal(level) <= self@.level),
    {
        self.capturing && level_ordinal(level) <= self.level
    }

    /// The furthest level that is let through, so that the others can be passed over at once.
    pub fn max_level_hint(&self) -> (r: Level)
        ensures
            r == (match self@.level {
                1 => Level::Error,
                2 => Level::Warn,
                3 => Level::Info,
                4 => Level::Debug,
                _ => Level::Trace,
            }),
    {
        match self.level {
            1 => Level::Error,
            2 => Level::Warn,
            3 => Level::Info,
            4 => Level::Debug,
            _ => Level::Trace,
        }
    }

    /// Keeps the line for an event.
    pub fn on_event(&mut self, level: Level, message: &str)
        requires
            old(self).wf(),
        ensures
            final(self).wf(),
            final(self)@ == old(self)@.with_line(ring_line(level, message@)),
    {
        let name = match level {
            Level::Error => "ERROR",
            Level::Warn => "WARN ",
            Level::Info => "INFO ",
            Level::Debug => "DEBUG",
            Level::Trace => "TRACE",
        };
        let whole = join3(name, " ", message);
        let line = shortened(whole.as_str(), RING_LINE_MAX_CHARS);
        if self.lines.len() >= RING_CAPACITY {
            let _ = self.lines.pop_front();
            assert(self@.lines =~= old(self)@.lines.drop_first());
        }
        self.lines.push_back(line);
        assert(self@.lines =~= old(self)@.with_line(ring_line(level, message@)).lines);
    }
}

/// The first `n` characters of a text.
pub fn shortened(s: &str, n: usize) -> (r: String)
    ensures
        r@ == first_chars(s@, n as nat),
{
    let len: usize = s.unicode_len();
    if len <= n {
        s.to_owned()
    } else {
        s.substring_char(0, n).to_owned()
    }
}

/// Appends a field of an event to its message: the message itself as it is, others by name.
pub fn add_field(message: &mut String, name: &str, value: &str)
    ensures
        final(message)@ == old(message)@ + (if name@ == "message"@ {
            value@
        } else {
            " "@ + name@ + "="@ + value@
        }),
{
    if same_text(name, "message") {
        message.append(value);
    } else {
        message.append(" ");
        message.append(name);
        message.append("=");
        message.append(value);
        assert(message@ =~= old(message)@ + (" "@ + name@ + "="@ + value@));
    }
}

/// Changes the level, at once. Hands out the level for the log itself. Before the log is set up
/// this does nothing.
pub fn set_level_override(ring: &mut LogRing, level: LogLevelOverride) -> (r: Option<Level>)
    requires
        old(ring).wf(),
    ensures
        final(ring).wf(),
        r == (if old(ring)@.set_up {
            Some(level_of(level))
        } else {
            None
        }),
        final(ring)@ == (if old(ring)@.set_up {
            LogRingView { level: ordinal(level_of(level)), ..old(ring)@ }
        } else {
            old(ring)@
        }),
{
    if !ring.set_up {
        return None;
    }
    let resolved = override_to_level(level);
    ring.level = level_ordinal(resolved);
    Some(resolved)
}

/// Starts keeping lines, or stops, which also lets go of those kept.
pub fn set_ring_capture(ring: &mut LogRing, active: bool)
    requires
        old(ring).wf(),
    ensures
        final(ring).wf(),
        final(ring)@ == (LogRingView {
            capturing: active,
            lines: if active {
                old(ring)@.lines
            } else {
                seq![]
            },
            ..old(ring)@
        }),
{
    ring.capturing = active;
    if !active {
        ring.lines = VecDeque::new();
        assert(ring@.lines =~= seq![]);
    }
}

/// The last `n` lines, oldest first.
pub fn recent_lines(ring: &LogRing, n: usize) -> (r: Vec<String>)
    requires
        ring.wf(),
    ensures
        views(r@) == ring@.last_lines(n as nat),
{
    let len: usize = ring.lines.len();
    let skip: usize = if len <= n {
        0
    } else {
        len - n
    };
    let mut out: Vec<String> = Vec::new();
    let mut i: usize = skip;
    while i < len
        invariant
            skip <= i <= len,
            len == ring.lines@.len(),
            out@.len() == i - skip,
            forall|k: int| 0 <= k < out@.len() ==> (#[trigger] out@[k])@ == ring.lines@[skip + k]@,
        decreases len - i,
    {
        out.push(ring.lines[i].clone());
        i += 1;
    }
    assert(views(out@) =~= ring@.last_lines(n as nat));
    out
}

/// The overlay sees what was just kept: the newest line is the last.
pub proof fn law_newest_line_is_last(ring: LogRingView, line: Seq<char>, n: nat)
    requires
        n > 0,
        ring.lines.len() <= RING_CAPACITY,
    ensures
        ring.with_line(line).last_lines(n).len() > 0,
        ring.with_line(line).last_lines(n).last() == line,
        ring.with_line(line).lines.len() <= RING_CAPACITY,
{
}

/// A log line is never longer than the overlay has room for.
pub proof fn law_ring_line_is_short(level: Level, message: Seq<char>)
    ensures
        ring_line(level, message).len() <= RING_LINE_MAX_CHARS,
{
}

/// A setting lets through its own level and what matters more, and nothing that matters less.
pub proof fn law_setting_lets_through_what_matters(o: LogLevelOverride)
    ensures
        ({
            let upto = ordinal(level_of(o));
            &&& ordinal(Level::Error) <= upto
            &&& ordinal(Level::Warn) <= upto <==> !(o is Error)
            &&& ordinal(Level::Info) <= upto <==> o is Info || o is Debug
            &&& ordinal(Level::Debug) <= upto <==> o is Debug
            &&& ordinal(Level::Trace) > upto
        }),
        o is Error ==> level_of(o) is Error,
        o is Warn ==> level_of(o) is Warn,
        o is Info ==> level_of(o) is Info,
        o is Debug ==> level_of(o) is Debug,
{
}

/// The word for a level is its name, in any case; any other word is none.
pub proof fn law_levels_go_by_their_names(word: Seq<char>)
    ensures
        same_but_case(word, "debug"@) ==> level_named(word) == Some(LogLevelOverride::Debug),
        same_but_case(word, "info"@) ==> level_named(word) == Some(LogLevelOverride::Info),
        same_but_case(word, "warn"@) ==> level_named(word) == Some(LogLevelOverride::Warn),
        same_but_case(word, "error"@) ==> level_named(word) == Some(LogLevelOverride::Error),
        level_named(word) is Some ==> same_but_case(word, "debug"@) || same_but_case(word, "info"@)
            || same_but_case(word, "warn"@) || same_but_case(word, "error"@),
{
    reveal_strlit("debug");
    reveal_strlit("info");
    reveal_strlit("warn");
    reveal_strlit("error");
    if same_but_case(word, "warn"@) {
        assert(ascii_lower(word[0]) == ascii_lower("warn"@[0]));
        if same_but_case(word, "info"@) {
            assert(ascii_lower(word[0]) == ascii_lower("info"@[0]));
        }
    }
    if same_but_case(word, "error"@) {
        assert(ascii_lower(word[0]) == ascii_lower("error"@[0]));
        if same_but_case(word, "debug"@) {
            assert(ascii_lower(word[0]) == ascii_lower("debug"@[0]));
        }
    }
}

/// A line begins with its level, five characters wide, then a space and the message, as far as
/// there is room.
pub proof fn law_line_begins_with_its_level(level: Level, message: Seq<char>, i: int)
    requires
        0 <= i < message.len(),
        i + 6 < 200,
    ensures
        ring_line(level, message).len() == (if message.len() + 6 <= 200 {
            message.len() + 6
        } else {
            200
        }),
        ring_line(level, message)[i + 6] == message[i],
        ring_line(level, message)[5] == ' ',
        level is Error ==> ring_line(level, message).take(5) == "ERROR"@,
        level is Warn ==> ring_line(level, message).take(5) == "WARN "@,
        level is Info ==> ring_line(level, message).take(5) == "INFO "@,
        level is Debug ==> ring_line(level, message).take(5) == "DEBUG"@,
        level is Trace ==> ring_line(level, message).take(5) == "TRACE"@,
{
    reveal_strlit("ERROR");
    reveal_strlit("WARN ");
    reveal_strlit("INFO ");
    reveal_strlit("DEBUG");
    reveal_strlit("TRACE");
    reveal_strlit(" ");
    assert(ring_line(level, message).take(5) =~= padded_level(level));
}

/// A line more leaves those before it in their order; only the oldest leaves, and only where there
/// is no room.
pub proof fn law_lines_stay_in_order(ring: LogRingView, line: Seq<char>)
    requires
        ring.lines.len() <= 200,
    ensures
        ring.lines.len() < 200 ==> ring.with_line(line).lines == ring.lines.push(line),
        ring.lines.len() == 200 ==> ring.with_line(line).lines == ring.lines.skip(1).push(line),
        ring.with_line(line).capturing == ring.capturing,
        ring.with_line(line).level == ring.level,
        ring.with_line(line).set_up == ring.set_up,
{
    assert(ring.lines.len() > 0 ==> ring.lines.drop_first() =~= ring.lines.skip(1));
}

/// The overlay is shown the end of the log: as many lines as it asks for, or all there are.
pub proof fn law_overlay_shows_the_end(ring: LogRingView, n: nat, i: int)
    requires
        0 <= i < ring.last_lines(n).len(),
    ensures
        ring.last_lines(n).len() == (if ring.lines.len() <= n {
            ring.lines.len()
        } else {
            n
        }),
        ring.last_lines(n)[i] == ring.lines[ring.lines.len() - ring.last_lines(n).len() + i],
{
}

} // verus!
