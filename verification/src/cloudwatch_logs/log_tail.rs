//! The lines of a log that is followed: how they are sorted by severity and how
//! many are kept.

use vstd::prelude::*;

use crate::command;
use crate::command::{as_slice, with_option, with_region};
use crate::text;
use crate::text::{cat2, cat3, contains, to_ascii_lower};

verus! {

/// How severe a line is.
#[derive(Clone, Copy, Debug, PartialEq, Eq, Structural)]
pub enum LineSeverity {
    Error,
    Warn,
    Info,
    Debug,
    Plain,
}

/// The line has the mark of an error, or speaks of an exception or a panic, in
/// whatever case.
pub open spec fn is_error(line: Seq<char>) -> bool {
    let small = text::ascii_lower(line);
    ||| text::has_part(line, "[ERROR]"@)
    ||| text::has_part(line, "ERROR:"@)
    ||| text::has_part(line, " ERROR "@)
    ||| text::has_part(line, "[FAIL]"@)
    ||| text::has_part(line, "FAIL:"@)
    ||| text::has_part(small, "exception"@)
    ||| text::has_part(small, "panicked at"@)
    ||| text::has_part(small, "panic:"@)
}

/// The line has the mark of a warning.
pub open spec fn is_warning(line: Seq<char>) -> bool {
    ||| text::has_part(line, "[WARN]"@)
    ||| text::has_part(line, "WARN:"@)
    ||| text::has_part(line, " WARN "@)
    ||| text::has_part(line, "[WARNING]"@)
    ||| text::has_part(line, "WARNING:"@)
}

/// How severe a line is: the first kind whose marks it has.
pub open spec fn severity(line: Seq<char>) -> LineSeverity {
    if is_error(line) {
        LineSeverity::Error
    } else if is_warning(line) {
        LineSeverity::Warn
    } else if text::has_part(line, "[INFO]"@) || text::has_part(line, "INFO:"@) || text::has_part(
        line,
        " INFO "@,
    ) {
        LineSeverity::Info
    } else if text::has_part(line, "[DEBUG]"@) || text::has_part(line, "DEBUG:"@) || text::has_part(
        line,
        " DEBUG "@,
    ) {
        LineSeverity::Debug
    } else {
        LineSeverity::Plain
    }
}

impl LineSeverity {
    /// How severe a line is. Marks of loggers count as they are written, words
    /// in any case.
    pub fn classify(line: &str) -> (r: LineSeverity)
        ensures
            r == severity(line@),
    {
        let lower = to_ascii_lower(line);
        let small = lower.as_str();
        if contains(line, "[ERROR]") || contains(line, "ERROR:") || contains(line, " ERROR ") || contains(
            line,
            "[FAIL]",
        ) || contains(line, "FAIL:") || contains(small, "exception") || contains(small, "panicked at")
            || contains(small, "panic:") {
            LineSeverity::Error
        } else if contains(line, "[WARN]") || contains(line, "WARN:") || contains(line, " WARN ")
            || contains(line, "[WARNING]") || contains(line, "WARNING:") {
            LineSeverity::Warn
        } else if contains(line, "[INFO]") || contains(line, "INFO:") || contains(line, " INFO ") {
            LineSeverity::Info
        } else if contains(line, "[DEBUG]") || contains(line, "DEBUG:") || contains(line, " DEBUG ") {
            LineSeverity::Debug
        } else {
            LineSeverity::Plain
        }
    }
}

/// A line of a log.
pub struct LogLine {
    pub text: String,
    pub severity: LineSeverity,
}

/// A `LogLine` by its contents.
pub struct LineV {
    pub text: Seq<char>,
    pub severity: LineSeverity,
}

impl View for LogLine {
    type V = LineV;

    open spec fn view(&self) -> LineV {
        LineV { text: self.text@, severity: self.severity }
    }
}

/// The line with a text.
pub open spec fn line_of(text: Seq<char>) -> LineV {
    LineV { text, severity: severity(text) }
}

/// The contents of a sequence of lines.
pub open spec fn line_views(s: Seq<LogLine>) -> Seq<LineV> {
    Seq::new(s.len(), |i: int| s[i]@)
}

/// A log that is followed. The newest line comes last; the scroll position is the
/// line at the top, or `usize::MAX` to have the newest lines on the screen.
pub struct LogTailPane {
    pub log_group: String,
    pub log_stream: Option<String>,
    pub lines: Vec<LogLine>,
    pub scroll: usize,
    /// How many lines are kept at most.
    pub capacity: usize,
}

/// A `LogTailPane` by its contents.
#[verifier::ext_equal]
pub struct PaneV {
    pub log_group: Seq<char>,
    pub log_stream: Option<Seq<char>>,
    pub lines: Seq<LineV>,
    pub scroll: int,
    pub capacity: int,
}

impl View for LogTailPane {
    type V = PaneV;

    open spec fn view(&self) -> PaneV {
        PaneV {
            log_group: self.log_group@,
            log_stream: text::opt_view(self.log_stream),
            lines: line_views(self.lines@),
            scroll: self.scroll as int,
            capacity: self.capacity as int,
        }
    }
}

/// What comes from a log that is followed.
pub enum LogTailEvent {
    Line(String),
    /// The program that follows the log has ended.
    Exited,
    /// The program that follows the log has complained.
    Failed(String),
}

/// How many lines are kept at most.
pub const DEFAULT_CAPACITY: usize = 10_000;

/// The arguments of the AWS command line that follow a log.
pub open spec fn tail_command(
    group: Seq<char>,
    stream: Option<Seq<char>>,
    filter: Option<Seq<char>>,
    region: Option<Seq<char>>,
) -> Seq<Seq<char>> {
    seq!["logs"@, "tail"@, group, "--follow"@, "--format"@, "short"@] + command::option_with(
        "--log-stream-names"@,
        stream,
    ) + command::option_with("--filter-pattern"@, filter) + command::region_option(region)
}

/// A log of which nothing has been read.
pub open spec fn fresh_pane(group: Seq<char>, stream: Option<Seq<char>>) -> PaneV {
    PaneV {
        log_group: group,
        log_stream: stream,
        lines: Seq::empty(),
        scroll: usize::MAX as int,
        capacity: DEFAULT_CAPACITY as int,
    }
}

/// The newest `most` of some lines.
pub open spec fn newest(lines: Seq<LineV>, most: int) -> Seq<LineV> {
    if lines.len() > most {
        lines.skip(lines.len() - most)
    } else {
        lines
    }
}

/// Drops the oldest lines, so that `most` are left, and says how many.
pub(crate) fn keep_newest(lines: &mut Vec<LogLine>, most: usize) -> (r: usize)
    ensures
        line_views(final(lines)@) == newest(line_views(old(lines)@), most as int),
        r == (if old(lines)@.len() > most {
            old(lines)@.len() - most
        } else {
            0
        }),
{
    let ghost all = lines@;
    let n: usize = if lines.len() > most { lines.len() - most } else { 0 };
    let mut i: usize = 0;
    assert(all.skip(0) =~= all);
    while i < n
        invariant
            i <= n <= all.len(),
            lines@ == all.skip(i as int),
        decreases n - i,
    {
        lines.remove(0);
        assert(lines@ =~= all.skip(i + 1));
        i = i + 1;
    }
    assert(line_views(lines@) =~= newest(line_views(all), most as int));
    n
}

impl PaneV {
    /// With a line at the end, and the oldest dropped where there are too many.
    /// A fixed scroll position moves with its line.
    pub open spec fn pushed(self, text: Seq<char>) -> PaneV {
        let lines = self.lines.push(line_of(text));
        let dropped = if lines.len() > self.capacity {
            lines.len() - self.capacity
        } else {
            0
        };
        PaneV {
            lines: newest(lines, self.capacity),
            scroll: if self.scroll == usize::MAX {
                self.scroll
            } else if self.scroll > dropped {
                self.scroll - dropped
            } else {
                0
            },
            ..self
        }
    }

    /// Every line has the severity of its text.
    pub open spec fn classified(self) -> bool {
        forall|i: int| 0 <= i < self.lines.len() ==> #[trigger] self.lines[i] == line_of(self.lines[i].text)
    }
}

impl LogTailPane {
    /// A log that is about to be followed, and the arguments of the AWS command
    /// line that follow it.
    pub fn spawn_with_filter(
        log_group: String,
        log_stream: Option<String>,
        filter: Option<String>,
        aws_region: Option<String>,
    ) -> (r: (LogTailPane, Vec<String>))
        ensures
            r.0@ == fresh_pane(log_group@, text::opt_view(log_stream)),
            text::views(r.1@) == tail_command(
                log_group@,
                text::opt_view(log_stream),
                text::opt_view(filter),
                text::opt_view(aws_region),
            ),
    {
        let first = text::list_of(
            vec!["logs", "tail", log_group.as_str(), "--follow", "--format", "short"],
        );
        assert(text::views(first@) =~= seq![
            "logs"@,
            "tail"@,
            log_group@,
            "--follow"@,
            "--format"@,
            "short"@,
        ]);
        let args = with_option(
            first,
            "--log-stream-names",
            as_slice(&log_stream),
        );
        let args = with_option(
            args,
            "--filter-pattern",
            as_slice(&filter),
        );
        let args = with_region(args, as_slice(&aws_region));
        let pane = LogTailPane {
            log_group,
            log_stream,
            lines: Vec::new(),
            scroll: usize::MAX,
            capacity: DEFAULT_CAPACITY,
        };
        assert(pane@ =~= fresh_pane(log_group@, text::opt_view(log_stream)));
        (pane, args)
    }

    /// Appends a line, and drops the oldest where there are too many.
    pub fn push_line(&mut self, text: String)
        ensures
            final(self)@ == old(self)@.pushed(text@),
    {
        let ghost before = self@;
        let severity = LineSeverity::classify(text.as_str());
        self.lines.push(LogLine { text, severity });
        assert(line_views(self.lines@) =~= before.lines.push(line_of(text@)));
        let dropped: usize = keep_newest(&mut self.lines, self.capacity);
        if dropped > 0 && self.scroll != usize::MAX {
            self.scroll = self.scroll.saturating_sub(dropped);
        }
    }
}

/// The message where the AWS command line cannot be started.
pub fn spawn_error(reason: &str) -> (r: String)
    ensures
        r@ == "spawn aws logs tail: "@ + reason@,
{
    cat2("spawn aws logs tail: ", reason)
}

/// The lines of a complaint that say something, each with its end.
pub open spec fn complaint(lines: Seq<String>) -> Seq<char>
    decreases lines.len(),
{
    if lines.len() == 0 {
        Seq::empty()
    } else if lines.last()@.len() == 0 {
        complaint(lines.drop_last())
    } else {
        complaint(lines.drop_last()) + lines.last()@ + "\n"@
    }
}

/// What the complaint of the AWS command line leads to, where it says something.
pub fn complained(lines: &Vec<String>) -> (r: Option<LogTailEvent>)
    ensures
        match r {
            Some(LogTailEvent::Failed(e)) => e@ == complaint(lines@) && complaint(lines@).len() > 0,
            Some(_) => false,
            None => complaint(lines@).len() == 0,
        },
{
    let mut out = String::new();
    let mut i: usize = 0;
    assert(lines@.take(0) =~= Seq::empty());
    while i < lines.len()
        invariant
            i <= lines.len(),
            out@ == complaint(lines@.take(i as int)),
        decreases lines.len() - i,
    {
        assert(lines@.take(i + 1).drop_last() =~= lines@.take(i as int));
        if !lines[i].as_str().is_empty() {
            out = cat3(out.as_str(), lines[i].as_str(), "\n");
        }
        i = i + 1;
    }
    assert(lines@.take(lines@.len() as int) =~= lines@);
    if out.as_str().is_empty() {
        None
    } else {
        Some(LogTailEvent::Failed(out))
    }
}

/// However many lines come, no more than the capacity are kept; the newest line
/// is the last one.
pub proof fn law_capacity_is_kept(p: PaneV, text: Seq<char>)
    requires
        p.capacity > 0,
    ensures
        0 < p.pushed(text).lines.len() <= p.capacity,
        p.pushed(text).lines.last() == line_of(text),
{
}

/// The severity of a line is that of its text, whatever comes.
pub proof fn law_lines_stay_classified(p: PaneV, text: Seq<char>)
    requires
        p.classified(),
        0 <= p.capacity,
    ensures
        p.pushed(text).classified(),
{
    let q = p.pushed(text);
    let lines = p.lines.push(line_of(text));
    assert forall|i: int| 0 <= i < q.lines.len() implies #[trigger] q.lines[i] == line_of(q.lines[i].text) by {
        let k = if lines.len() > p.capacity {
            i + (lines.len() - p.capacity)
        } else {
            i
        };
        assert(q.lines[i] == lines[k]);
        if k < p.lines.len() {
            assert(p.lines[k] == line_of(p.lines[k].text));
        }
    }
}

/// A reader who has scrolled up keeps the same line at the top, as long as it is
/// kept; one who follows the log goes on following it.
pub proof fn law_scroll_moves_with_its_line(p: PaneV, text: Seq<char>)
    requires
        0 < p.capacity,
        p.lines.len() <= p.capacity,
        0 <= p.scroll,
    ensures
        p.scroll == usize::MAX ==> p.pushed(text).scroll == usize::MAX,
        0 < p.scroll < p.lines.len() && p.scroll < usize::MAX ==> p.pushed(text).lines[p.pushed(text).scroll]
            == p.lines[p.scroll],
{
}

/// A line with the mark of an error, or that speaks of an exception or a panic, is
/// an error, and no other line is.
pub proof fn law_errors_are_marked(line: &str, r: LineSeverity)
    requires
        call_ensures(LineSeverity::classify, (line,), r),
    ensures
        text::has_part(line@, "[ERROR]"@) || text::has_part(line@, "ERROR:"@) || text::has_part(line@, " ERROR "@)
            ==> r == LineSeverity::Error,
        text::has_part(line@, "[FAIL]"@) || text::has_part(line@, "FAIL:"@) ==> r == LineSeverity::Error,
        text::has_part(text::ascii_lower(line@), "exception"@) || text::has_part(
            text::ascii_lower(line@),
            "panicked at"@,
        ) || text::has_part(text::ascii_lower(line@), "panic:"@) ==> r == LineSeverity::Error,
        r == LineSeverity::Error ==> text::has_part(line@, "[ERROR]"@) || text::has_part(line@, "ERROR:"@)
            || text::has_part(line@, " ERROR "@) || text::has_part(line@, "[FAIL]"@) || text::has_part(
            line@,
            "FAIL:"@,
        ) || text::has_part(text::ascii_lower(line@), "exception"@) || text::has_part(
            text::ascii_lower(line@),
            "panicked at"@,
        ) || text::has_part(text::ascii_lower(line@), "panic:"@),
{
}

/// The marks of warnings, of news and of details count in this order, behind those
/// of errors; a line without any mark is plain.
pub proof fn law_lesser_marks(line: &str, r: LineSeverity)
    requires
        call_ensures(LineSeverity::classify, (line,), r),
    ensures
        ({
            let warn = text::has_part(line@, "[WARN]"@) || text::has_part(line@, "WARN:"@) || text::has_part(
                line@,
                " WARN "@,
            ) || text::has_part(line@, "[WARNING]"@) || text::has_part(line@, "WARNING:"@);
            let info = text::has_part(line@, "[INFO]"@) || text::has_part(line@, "INFO:"@) || text::has_part(
                line@,
                " INFO "@,
            );
            let debug = text::has_part(line@, "[DEBUG]"@) || text::has_part(line@, "DEBUG:"@) || text::has_part(
                line@,
                " DEBUG "@,
            );
            &&& warn ==> r == LineSeverity::Error || r == LineSeverity::Warn
            &&& info ==> r != LineSeverity::Debug && r != LineSeverity::Plain
            &&& debug ==> r != LineSeverity::Plain
            &&& r == LineSeverity::Warn ==> warn
            &&& r == LineSeverity::Info ==> info && !warn
            &&& r == LineSeverity::Debug ==> debug && !info && !warn
            &&& r == LineSeverity::Plain ==> !debug && !info && !warn
        }),
{
}

/// Whatever stands around an error is an error too, and whatever stands around a
/// marked line is not plain.
pub proof fn law_marks_count_anywhere(a: Seq<char>, p: Seq<char>, b: Seq<char>)
    ensures
        text::has_part(a + p + b, p),
        p == "[ERROR]"@ || p == "ERROR:"@ || p == " ERROR "@ || p == "[FAIL]"@ || p == "FAIL:"@ ==> line_of(
            a + p + b,
        ).severity == LineSeverity::Error,
        p == "[WARN]"@ || p == "WARN:"@ || p == " WARN "@ || p == "[WARNING]"@ || p == "WARNING:"@ ==> line_of(
            a + p + b,
        ).severity == LineSeverity::Error || line_of(a + p + b).severity == LineSeverity::Warn,
        line_of(a + p + b).text == a + p + b,
{
    text::law_part_of_a_text(a, p, b);
}

} // verus!
