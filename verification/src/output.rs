//! Structured log records: which events are recorded under which settings,
//! what a record holds, and how a record reads as a line of text.
//!
//! Nothing is written here. The caller stamps a record with the time and
//! prints it.

use crate::error::{ErrorCode, RuGetError};
use crate::text::{concat3, decimal, decimal_string};
use vstd::prelude::*;

verus! {

/// Severity of a record.
#[derive(Debug, Clone, Copy, PartialEq, Eq, Structural)]
pub enum LogLevel {
    Info,
    Debug,
    Warn,
    Error,
}

impl LogLevel {
    /// The level in capitals.
    pub open spec fn spec_name(self) -> Seq<char> {
        match self {
            LogLevel::Info => "INFO"@,
            LogLevel::Debug => "DEBUG"@,
            LogLevel::Warn => "WARN"@,
            LogLevel::Error => "ERROR"@,
        }
    }

    /// The level in capitals, as records show it.
    pub fn name(&self) -> (r: &'static str)
        ensures
            r@ == self.spec_name(),
    {
        match self {
            LogLevel::Info => "INFO",
            LogLevel::Debug => "DEBUG",
            LogLevel::Warn => "WARN",
            LogLevel::Error => "ERROR",
        }
    }
}

/// One log record, without its time stamp. The context is a list of keys
/// with their values, in the order in which they were added.
#[derive(Debug)]
pub struct StructuredLogRecord {
    pub level: LogLevel,
    pub code: Option<String>,
    pub message: String,
    pub context: Vec<(String, String)>,
}

/// Keys and values as plain text.
pub open spec fn context_text(context: Seq<(String, String)>) -> Seq<(Seq<char>, Seq<char>)> {
    context.map_values(|p: (String, String)| (p.0@, p.1@))
}

/// No key occurs twice.
pub open spec fn distinct_keys(context: Seq<(Seq<char>, Seq<char>)>) -> bool {
    forall|i: int, j: int|
        0 <= i < j < context.len() ==> (#[trigger] context[i]).0 != (#[trigger] context[j]).0
}

/// The context as the text form of a record shows it: each key, `=` and
/// its value, the pairs parted by a comma and a space.
pub open spec fn spec_context_line(context: Seq<(Seq<char>, Seq<char>)>) -> Seq<char>
    decreases context.len(),
{
    if context.len() == 0 {
        Seq::empty()
    } else if context.len() == 1 {
        context[0].0 + "="@ + context[0].1
    } else {
        spec_context_line(context.drop_last()) + ", "@ + context.last().0 + "="@
            + context.last().1
    }
}

impl StructuredLogRecord {
    /// No key occurs twice in the context.
    pub open spec fn wf(self) -> bool {
        distinct_keys(context_text(self.context@))
    }

    /// The record has this level, code, message and context.
    pub open spec fn holds(
        self,
        level: LogLevel,
        code: Option<Seq<char>>,
        message: Seq<char>,
        context: Seq<(Seq<char>, Seq<char>)>,
    ) -> bool {
        &&& self.level == level
        &&& self.code is Some == code is Some
        &&& self.code is Some ==> self.code->0@ == code->0
        &&& self.message@ == message
        &&& context_text(self.context@) == context
    }

    /// The record as a line of text, given its time stamp: the code in
    /// brackets where there is one that is not empty, the level and the time
    /// stamp in brackets, the message, and the context after a bar where
    /// there is any.
    pub open spec fn spec_line(self, timestamp: Seq<char>) -> Seq<char> {
        let head = if self.code is Some && self.code->0@.len() > 0 {
            "["@ + self.code->0@ + "]["@
        } else {
            "["@
        };
        let tail = if self.context@.len() == 0 {
            Seq::<char>::empty()
        } else {
            " | "@ + spec_context_line(context_text(self.context@))
        };
        head + self.level.spec_name() + "]["@ + timestamp + "] "@ + self.message@ + tail
    }

    /// The record as a line of text, given its time stamp.
    pub fn format_human_readable(&self, timestamp: &str) -> (r: String)
        ensures
            r@ == self.spec_line(timestamp@),
    {
        let mut s = String::from_str("[");
        match &self.code {
            Some(code) => {
                if !code.as_str().is_empty() {
                    s.append(code.as_str());
                    s.append("][");
                }
            },
            None => {},
        }
        let ghost head = s@;
        s.append(self.level.name());
        s.append("][");
        s.append(timestamp);
        s.append("] ");
        s.append(self.message.as_str());
        let ghost body = s@;
        if self.context.len() > 0 {
            s.append(" | ");
            let ghost all = context_text(self.context@);
            let mut i: usize = 0;
            while i < self.context.len()
                invariant
                    i <= self.context.len(),
                    all == context_text(self.context@),
                    s@ == body + " | "@ + spec_context_line(all.take(i as int)),
                decreases self.context.len() - i,
            {
                let ghost before = s@;
                if i > 0 {
                    s.append(", ");
                }
                s.append(self.context[i].0.as_str());
                s.append("=");
                s.append(self.context[i].1.as_str());
                proof {
                    let next = all.take(i + 1);
                    assert(next.drop_last() =~= all.take(i as int));
                    assert(next.last() == all[i as int]);
                    let entry = self.context@[i as int];
                    assert(all[i as int] == (entry.0@, entry.1@));
                    if i == 0 {
                        assert(spec_context_line(all.take(0)) =~= Seq::<char>::empty());
                        assert(s@ =~= body + " | "@ + spec_context_line(next));
                    } else {
                        assert(s@ =~= body + " | "@ + spec_context_line(next));
                    }
                }
                i += 1;
            }
            proof {
                assert(all.take(i as int) =~= all);
            }
        }
        assert(s@ =~= self.spec_line(timestamp@));
        s
    }
}

fn pair(key: &str, value: &str) -> (r: (String, String))
    ensures
        r.0@ == key@,
        r.1@ == value@,
{
    (String::from_str(key), String::from_str(value))
}

fn make_record(
    level: LogLevel,
    message: &str,
    context: Vec<(String, String)>,
    code: Option<String>,
) -> (r: StructuredLogRecord)
    ensures
        r.level == level,
        r.code == code,
        r.message@ == message@,
        r.context == context,
{
    StructuredLogRecord { level, code, message: String::from_str(message), context }
}

/// The settings under which events are recorded.
#[derive(Debug, Clone, Copy, PartialEq, Eq, Structural)]
pub struct Logger {
    pub quiet: bool,
    pub verbose: bool,
    pub json_output: bool,
}

/// The message of an error report: the text and the hint of the code.
pub open spec fn spec_hinted(text: Seq<char>, code: ErrorCode) -> Seq<char> {
    text + " Hint: "@ + code.spec_hint()
}

impl Logger {
    pub fn new(quiet: bool, verbose: bool) -> (r: Self)
        ensures
            r == (Logger { quiet, verbose, json_output: false }),
    {
        Self { quiet, verbose, json_output: false }
    }

    pub fn new_with_json(quiet: bool, verbose: bool, json_output: bool) -> (r: Self)
        ensures
            r == (Logger { quiet, verbose, json_output }),
    {
        Self { quiet, verbose, json_output }
    }

    /// An informational record, unless quiet.
    pub fn info(&self, message: &str) -> (r: Option<StructuredLogRecord>)
        ensures
            r is Some <==> !self.quiet,
            r matches Some(rec) ==> rec.wf(),
            r matches Some(rec) ==> rec.holds(LogLevel::Info, None, message@, Seq::empty()),
    {
        let r = self.info_with_context(message, Vec::new());
        proof {
            if r is Some {
                assert(context_text(r->0.context@) =~= Seq::empty());
            }
        }
        r
    }

    /// An informational record with the given context, unless quiet.
    pub fn info_with_context(&self, message: &str, context: Vec<(String, String)>) -> (r: Option<
        StructuredLogRecord,
    >)
        ensures
            r is Some <==> !self.quiet,
            r matches Some(rec) ==> rec.level == LogLevel::Info && rec.code is None
                && rec.message@ == message@ && rec.context == context,
    {
        if !self.quiet {
            Some(make_record(LogLevel::Info, message, context, None))
        } else {
            None
        }
    }

    /// A debug record, if verbose and not quiet.
    pub fn verbose(&self, message: &str) -> (r: Option<StructuredLogRecord>)
        ensures
            r is Some <==> self.verbose && !self.quiet,
            r matches Some(rec) ==> rec.wf(),
            r matches Some(rec) ==> rec.holds(LogLevel::Debug, None, message@, Seq::empty()),
    {
        let r = self.verbose_with_context(message, Vec::new());
        proof {
            if r is Some {
                assert(context_text(r->0.context@) =~= Seq::empty());
            }
        }
        r
    }

    /// A debug record with the given context, if verbose and not quiet.
    pub fn verbose_with_context(&self, message: &str, context: Vec<(String, String)>) -> (r:
        Option<StructuredLogRecord>)
        ensures
            r is Some <==> self.verbose && !self.quiet,
            r matches Some(rec) ==> rec.level == LogLevel::Debug && rec.code is None
                && rec.message@ == message@ && rec.context == context,
    {
        if self.verbose && !self.quiet {
            Some(make_record(LogLevel::Debug, message, context, None))
        } else {
            None
        }
    }

    /// An error record. Errors are recorded whatever the settings.
    pub fn error(&self, message: &str) -> (r: StructuredLogRecord)
        ensures
            r.wf(),
            r.holds(LogLevel::Error, None, message@, Seq::empty()),
    {
        let r = self.error_with_context(message, Vec::new());
        proof {
            assert(context_text(r.context@) =~= Seq::empty());
        }
        r
    }

    /// An error record with the given context.
    pub fn error_with_context(&self, message: &str, context: Vec<(String, String)>) -> (r:
        StructuredLogRecord)
        ensures
            r.level == LogLevel::Error,
            r.code is None,
            r.message@ == message@,
            r.context == context,
    {
        make_record(LogLevel::Error, message, context, None)
    }

    /// The record of an error of the library: its code, the concise message
    /// of the code with the hint, and as context the kind, the source where
    /// there is one, and the hint.
    pub fn error_from_ruget_error(&self, error: &RuGetError) -> (r: StructuredLogRecord)
        ensures
            r.wf(),
            r.holds(
                LogLevel::Error,
                Some(error.code.spec_text()),
                spec_hinted(error.code.spec_message(), error.code),
                if error.source is Some {
                    seq![
                        ("error_kind"@, error.kind.spec_name()),
                        ("source"@, error.source->0@),
                        ("hint"@, error.code.spec_hint()),
                    ]
                } else {
                    seq![("error_kind"@, error.kind.spec_name()), ("hint"@, error.code.spec_hint())]
                },
            ),
    {
        let mut context: Vec<(String, String)> = Vec::new();
        context.push(pair("error_kind", error.kind.name()));
        match &error.source {
            Some(source) => {
                context.push(pair("source", source.as_str()));
            },
            None => {},
        }
        context.push(pair("hint", error.code.hint()));
        let message = concat3(error.code.message(), " Hint: ", error.code.hint());
        let r = make_record(
            LogLevel::Error,
            message.as_str(),
            context,
            Some(error.code.to_string()),
        );
        proof {
            reveal_strlit("error_kind");
            reveal_strlit("source");
            reveal_strlit("hint");
            assert("error_kind"@.len() == 10 && "source"@.len() == 6 && "hint"@.len() == 4);
            if error.source is Some {
                assert(context_text(r.context@) =~= seq![
                    ("error_kind"@, error.kind.spec_name()),
                    ("source"@, error.source->0@),
                    ("hint"@, error.code.spec_hint()),
                ]);
            } else {
                assert(context_text(r.context@) =~= seq![
                    ("error_kind"@, error.kind.spec_name()),
                    ("hint"@, error.code.spec_hint()),
                ]);
            }
        }
        r
    }

    /// An error record under a code: the message with the hint of the code,
    /// and the hint as context.
    pub fn error_with_hint(&self, code: ErrorCode, message: &str) -> (r: StructuredLogRecord)
        ensures
            r.wf(),
            r.holds(
                LogLevel::Error,
                Some(code.spec_text()),
                spec_hinted(message@, code),
                seq![("hint"@, code.spec_hint())],
            ),
    {
        let mut context: Vec<(String, String)> = Vec::new();
        context.push(pair("hint", code.hint()));
        let enhanced = concat3(message, " Hint: ", code.hint());
        let r = make_record(LogLevel::Error, enhanced.as_str(), context, Some(code.to_string()));
        proof {
            assert(context_text(r.context@) =~= seq![("hint"@, code.spec_hint())]);
        }
        r
    }

    /// A warning, unless quiet.
    pub fn warn(&self, message: &str) -> (r: Option<StructuredLogRecord>)
        ensures
            r is Some <==> !self.quiet,
            r matches Some(rec) ==> rec.wf(),
            r matches Some(rec) ==> rec.holds(LogLevel::Warn, None, message@, Seq::empty()),
    {
        let r = self.warn_with_context(message, Vec::new());
        proof {
            if r is Some {
                assert(context_text(r->0.context@) =~= Seq::empty());
            }
        }
        r
    }

    /// A warning with the given context, unless quiet.
    pub fn warn_with_context(&self, message: &str, context: Vec<(String, String)>) -> (r: Option<
        StructuredLogRecord,
    >)
        ensures
            r is Some <==> !self.quiet,
            r matches Some(rec) ==> rec.level == LogLevel::Warn && rec.code is None
                && rec.message@ == message@ && rec.context == context,
    {
        if !self.quiet {
            Some(make_record(LogLevel::Warn, message, context, None))
        } else {
            None
        }
    }

    fn event2(&self, level: LogLevel, message: &str, k1: &str, v1: &str, k2: &str, v2: &str)
        -> (r: Option<StructuredLogRecord>)
        requires
            k1@ != k2@,
        ensures
            r is Some <==> !self.quiet,
            r matches Some(rec) ==> rec.wf() && rec.holds(
                level,
                None,
                message@,
                seq![(k1@, v1@), (k2@, v2@)],
            ),
    {
        if self.quiet {
            return None;
        }
        let mut context: Vec<(String, String)> = Vec::new();
        context.push(pair(k1, v1));
        context.push(pair(k2, v2));
        let r = make_record(level, message, context, None);
        proof {
            assert(context_text(r.context@) =~= seq![(k1@, v1@), (k2@, v2@)]);
        }
        Some(r)
    }

    /// The status of a response, unless quiet.
    pub fn status(&self, url: &str, status: &str) -> (r: Option<StructuredLogRecord>)
        ensures
            r is Some <==> !self.quiet,
            r matches Some(rec) ==> rec.wf() && rec.holds(
                LogLevel::Info,
                None,
                "HTTP Status"@,
                seq![("url"@, url@), ("status"@, status@)],
            ),
    {
        proof {
            reveal_strlit("url");
            reveal_strlit("status");
            assert("url"@.len() != "status"@.len());
        }
        self.event2(LogLevel::Info, "HTTP Status", "url", url, "status", status)
    }

    /// One debug record per header, in the order given, if verbose and not
    /// quiet; none otherwise.
    pub fn headers(&self, headers: &Vec<(String, String)>) -> (r: Vec<StructuredLogRecord>)
        ensures
            r.len() == (if self.verbose && !self.quiet {
                headers.len()
            } else {
                0
            }),
            forall|i: int|
                0 <= i < r.len() ==> (#[trigger] r@[i]).wf() && r@[i].holds(
                    LogLevel::Debug,
                    None,
                    "HTTP Header"@,
                    seq![("header_name"@, headers@[i].0@), ("header_value"@, headers@[i].1@)],
                ),
    {
        let mut out: Vec<StructuredLogRecord> = Vec::new();
        if !(self.verbose && !self.quiet) {
            return out;
        }
        let mut i: usize = 0;
        while i < headers.len()
            invariant
                i <= headers.len(),
                out.len() == i,
                forall|j: int|
                    0 <= j < i ==> (#[trigger] out@[j]).wf() && out@[j].holds(
                        LogLevel::Debug,
                        None,
                        "HTTP Header"@,
                        seq![("header_name"@, headers@[j].0@), ("header_value"@, headers@[j].1@)],
                    ),
            decreases headers.len() - i,
        {
            let mut context: Vec<(String, String)> = Vec::new();
            context.push(pair("header_name", headers[i].0.as_str()));
            context.push(pair("header_value", headers[i].1.as_str()));
            let rec = make_record(LogLevel::Debug, "HTTP Header", context, None);
            proof {
                reveal_strlit("header_name");
                reveal_strlit("header_value");
                assert("header_name"@.len() != "header_value"@.len());
                assert(context_text(rec.context@) =~= seq![
                    ("header_name"@, headers@[i as int].0@),
                    ("header_value"@, headers@[i as int].1@),
                ]);
            }
            out.push(rec);
            i += 1;
        }
        out
    }

    /// The text of a progress line, unless quiet: a carriage return and the
    /// message.
    pub fn progress(&self, message: &str) -> (r: Option<String>)
        ensures
            r is Some <==> !self.quiet,
            r matches Some(line) ==> line@ == "\r"@ + message@,
    {
        if !self.quiet {
            Some(crate::text::concat2("\r", message))
        } else {
            None
        }
    }

    /// The start of a download, unless quiet.
    pub fn download_start(&self, url: &str, output_path: &str) -> (r: Option<StructuredLogRecord>)
        ensures
            r is Some <==> !self.quiet,
            r matches Some(rec) ==> rec.wf() && rec.holds(
                LogLevel::Info,
                None,
                "Download started"@,
                seq![("url"@, url@), ("output_path"@, output_path@)],
            ),
    {
        proof {
            reveal_strlit("url");
            reveal_strlit("output_path");
            assert("url"@.len() != "output_path"@.len());
        }
        self.event2(LogLevel::Info, "Download started", "url", url, "output_path", output_path)
    }

    /// The resumption of a download at a byte offset, unless quiet.
    pub fn download_resume(&self, output_path: &str, bytes: u64) -> (r: Option<
        StructuredLogRecord,
    >)
        ensures
            r is Some <==> !self.quiet,
            r matches Some(rec) ==> rec.wf() && rec.holds(
                LogLevel::Info,
                None,
                "Download resumed"@,
                seq![("output_path"@, output_path@), ("resume_bytes"@, decimal(bytes as nat))],
            ),
    {
        proof {
            reveal_strlit("output_path");
            reveal_strlit("resume_bytes");
            assert("output_path"@.len() != "resume_bytes"@.len());
        }
        let n = decimal_string(bytes);
        self.event2(
            LogLevel::Info,
            "Download resumed",
            "output_path",
            output_path,
            "resume_bytes",
            n.as_str(),
        )
    }

    /// The end of a download, unless quiet.
    pub fn download_complete(&self, output_path: &str) -> (r: Option<StructuredLogRecord>)
        ensures
            r is Some <==> !self.quiet,
            r matches Some(rec) ==> rec.wf() && rec.holds(
                LogLevel::Info,
                None,
                "Download complete"@,
                seq![("output_path"@, output_path@)],
            ),
    {
        if self.quiet {
            return None;
        }
        let mut context: Vec<(String, String)> = Vec::new();
        context.push(pair("output_path", output_path));
        let r = make_record(LogLevel::Info, "Download complete", context, None);
        proof {
            assert(context_text(r.context@) =~= seq![("output_path"@, output_path@)]);
        }
        Some(r)
    }

    /// A retry after an error, unless quiet.
    pub fn retry_attempt(&self, url: &str, error: &str) -> (r: Option<StructuredLogRecord>)
        ensures
            r is Some <==> !self.quiet,
            r matches Some(rec) ==> rec.wf() && rec.holds(
                LogLevel::Warn,
                None,
                "Retrying after error"@,
                seq![("url"@, url@), ("error"@, error@)],
            ),
    {
        proof {
            reveal_strlit("url");
            reveal_strlit("error");
            assert("url"@.len() != "error"@.len());
        }
        self.event2(LogLevel::Warn, "Retrying after error", "url", url, "error", error)
    }

    /// How many downloads went through and out of how many, unless quiet.
    pub fn summary(&self, successful: usize, total: usize) -> (r: Option<StructuredLogRecord>)
        ensures
            r is Some <==> !self.quiet,
            r matches Some(rec) ==> rec.wf() && rec.holds(
                LogLevel::Info,
                None,
                "Download summary"@,
                seq![
                    ("successful"@, decimal(successful as nat)),
                    ("total"@, decimal(total as nat)),
                ],
            ),
    {
        proof {
            reveal_strlit("successful");
            reveal_strlit("total");
            assert("successful"@.len() != "total"@.len());
        }
        let s = decimal_string(successful as u64);
        let t = decimal_string(total as u64);
        self.event2(
            LogLevel::Info,
            "Download summary",
            "successful",
            s.as_str(),
            "total",
            t.as_str(),
        )
    }
}

} // verus!
