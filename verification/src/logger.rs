//! The log bridge: the process-visible logging sink. It owns a filter, an
//! optional plugin-name prefix and a formatter, assembles each enabled
//! record into a null-terminated payload for the host's C-style sink, and
//! always hands the scratch buffer back empty.

use vstd::prelude::*;
use vstd::string::StrSliceExecFns;
use vstd::string::StringExecFns;

use crate::filter::Filter;
use crate::filter::FilterBuilder;
use crate::filter::DirectiveV;
use crate::filter::spec_insert;
use crate::filter::spec_max_level;
use crate::level::Level;
use crate::level::LevelFilter;
use crate::level::LogLevel;
use crate::plugins::PluginManager;

verus! {

/// One logging event: a level, the module path of its origin, and the
/// message text.
#[derive(Debug)]
pub struct LogRecord {
    /// Severity of the event.
    pub level: Level,
    /// Module path of the call site, when known.
    pub module: Option<String>,
    /// The message text.
    pub message: String,
}

/// The mathematical value of a record.
pub struct LogRecordV {
    /// Severity of the event.
    pub level: Level,
    /// Module path of the call site, when known.
    pub module: Option<Seq<char>>,
    /// The message text.
    pub message: Seq<char>,
}

impl View for LogRecord {
    type V = LogRecordV;

    open spec fn view(&self) -> LogRecordV {
        LogRecordV {
            level: self.level,
            module: match self.module {
                Some(m) => Some(m@),
                None => None,
            },
            message: self.message@,
        }
    }
}

impl LogRecordV {
    /// The module name the filter sees: records without a module path are
    /// matched as if their path were empty.
    pub open spec fn target(self) -> Seq<char> {
        match self.module {
            Some(m) => m,
            None => Seq::empty(),
        }
    }
}

/// Failure of a formatter on one record; the record is dropped.
#[derive(Debug, Clone, Copy, PartialEq, Eq, Structural)]
pub struct FormatError;

/// A rendering strategy for log records. The default formatter writes
/// `"<module path>: "` (omitted when the record carries none) followed by
/// the message; a caller may substitute any strategy honoring this
/// interface.
pub trait Formatter: Sized {
    /// The characters this formatter renders for `rec`, or `None` when it
    /// fails on that record.
    spec fn spec_format(&self, rec: LogRecordV) -> Option<Seq<char>>;

    /// Appends the rendition of `rec` to `out`; on failure `out` may hold
    /// any partial rendition.
    fn format(&self, out: &mut String, rec: &LogRecord) -> (r: Result<(), FormatError>)
        ensures
            r is Ok <==> self.spec_format(rec@) is Some,
            r is Ok ==> final(out)@ == old(out)@ + self.spec_format(rec@)->Some_0,
    ;
}

/// What the default formatter renders: the module path and `": "` when a
/// path is present, then the message.
pub open spec fn default_rendition(rec: LogRecordV) -> Seq<char> {
    match rec.module {
        Some(m) => m + ": "@ + rec.message,
        None => rec.message,
    }
}

/// The default rendering strategy; it never fails.
#[derive(Debug, Clone, Copy, PartialEq, Eq, Structural)]
pub struct DefaultFormat;

impl Formatter for DefaultFormat {
    open spec fn spec_format(&self, rec: LogRecordV) -> Option<Seq<char>> {
        Some(default_rendition(rec))
    }

    fn format(&self, out: &mut String, rec: &LogRecord) -> (r: Result<(), FormatError>) {
        match &rec.module {
            Some(m) => {
                out.append(m.as_str());
                out.append(": ");
                out.append(rec.message.as_str());
                proof {
                    assert(out@ =~= old(out)@ + (m@ + ": "@ + rec.message@));
                }
            },
            None => {
                out.append(rec.message.as_str());
            },
        }
        Ok(())
    }
}

/// Relies on `String::push`: appends one character, keeping what was there.
#[verifier::external_body]
pub(crate) fn push_char(s: &mut String, c: char)
    ensures
        final(s)@ == old(s)@.push(c),
{
    s.push(c);
}

/// Relies on `String::clear`: removes all contents, leaving the string
/// empty (its allocation is kept, which is what makes the scratch buffer
/// cheap to reuse).
#[verifier::external_body]
fn clear_string(s: &mut String)
    ensures
        final(s)@ == Seq::<char>::empty(),
{
    s.clear();
}

/// The payload handed to the host sink for one record: a severity and the
/// null-terminated message text.
pub struct SinkMessage {
    /// The mapped severity.
    pub level: LogLevel,
    /// The assembled text, with the null character the bridge appended
    /// at its end.
    pub text: String,
}

/// The bridge between structured log records and the host's logging sink.
pub struct CollectdLogger<F: Formatter> {
    /// Decides which records are enabled.
    pub filter: Filter,
    /// When present, every payload starts with `"<plugin>: "`.
    pub plugin: Option<String>,
    /// Renders one record to text.
    pub format: F,
}

impl<F: Formatter> CollectdLogger<F> {
    /// The prefix the bridge writes before the rendition.
    pub open spec fn spec_prefix(self) -> Seq<char> {
        match self.plugin {
            Some(p) => p@ + ": "@,
            None => Seq::<char>::empty(),
        }
    }

    /// True when the filter lets `rec` through.
    pub open spec fn spec_matches(self, rec: LogRecordV) -> bool {
        self.filter.spec_enabled(rec.target(), rec.level)
    }

    /// Checks whether this record passes the configured filter.
    pub fn matches(&self, record: &LogRecord) -> (r: bool)
        ensures
            r == self.spec_matches(record@),
    {
        match &record.module {
            Some(m) => self.filter.enabled(m.as_str(), record.level),
            None => {
                let e = self.filter.enabled("", record.level);
                proof {
                    reveal_strlit("");
                    assert(""@ =~= Seq::<char>::empty());
                }
                e
            },
        }
    }

    /// The most verbose ceiling this bridge is configured to output.
    pub fn filter(&self) -> (r: LevelFilter)
        ensures
            r == spec_max_level(self.filter.rules()),
    {
        self.filter.filter()
    }

    /// Processes one record. A record that the filter rejects, or on which
    /// the formatter fails, produces nothing; otherwise the returned payload
    /// is the prefix, the rendition and a single terminating null character,
    /// appended to what the scratch buffer held. In every case the scratch
    /// buffer comes back empty, so a thread's buffer never grows across
    /// calls.
    pub fn log(&self, buf: &mut String, record: &LogRecord) -> (r: Option<SinkMessage>)
        ensures
            final(buf)@.len() == 0,
            match r {
                Some(msg) => self.spec_matches(record@) && self.format.spec_format(record@)
                    is Some && msg.text@ == old(buf)@ + self.spec_prefix()
                    + self.format.spec_format(record@)->Some_0 + seq!['\0'] && msg.level
                    == crate::level::spec_level_to_log_level(record.level),
                None => !(self.spec_matches(record@) && self.format.spec_format(record@) is Some),
            },
    {
        if !self.matches(record) {
            clear_string(buf);
            return None;
        }
        let ghost start = buf@;
        match &self.plugin {
            Some(p) => {
                buf.append(p.as_str());
                buf.append(": ");
            },
            None => {},
        }
        let ghost with_prefix = buf@;
        proof {
            assert(with_prefix =~= start + self.spec_prefix());
        }
        match self.format.format(buf, record) {
            Ok(()) => {
                push_char(buf, '\0');
                proof {
                    assert(buf@ =~= start + self.spec_prefix() + self.format.spec_format(
                        record@,
                    )->Some_0 + seq!['\0']);
                }
                let mut text = String::new();
                core::mem::swap(buf, &mut text);
                let level = LogLevel::from(record.level);
                Some(SinkMessage { level, text })
            },
            Err(_) => {
                clear_string(buf);
                None
            },
        }
    }

    /// Flushing is a no-op: the host sink is unbuffered from the bridge's
    /// perspective.
    pub fn flush(&self) {
    }
}

/// Raised when a process-wide logger is already installed; the existing
/// logger is left untouched.
#[derive(Debug, Clone, Copy, PartialEq, Eq, Structural)]
pub struct SetLoggerError;

/// The single guarded process-wide slot that holds the installed bridge.
/// Installation succeeds at most once; later attempts fail without side
/// effects.
pub struct LoggerSlot<F: Formatter> {
    /// The installed bridge, if any.
    pub logger: Option<CollectdLogger<F>>,
}

impl<F: Formatter> LoggerSlot<F> {
    /// An empty slot: nothing installed yet.
    pub fn empty() -> (r: LoggerSlot<F>)
        ensures
            r.logger is None,
    {
        LoggerSlot { logger: None }
    }

    /// Installs `logger`, unless a logger is already installed, in which
    /// case the attempt fails and the slot keeps the first logger, its
    /// filter, prefix and format untouched.
    pub fn install(&mut self, logger: CollectdLogger<F>) -> (r: Result<(), SetLoggerError>)
        ensures
            old(self).logger is None ==> r is Ok && final(self).logger == Some(logger),
            old(self).logger is Some ==> r is Err && *final(self) == *old(self),
    {
        match &self.logger {
            Some(_) => Err(SetLoggerError),
            None => {
                self.logger = Some(logger);
                Ok(())
            },
        }
    }

    /// The installed bridge, if any.
    pub fn installed(&self) -> (r: &Option<CollectdLogger<F>>)
        ensures
            r == self.logger,
    {
        &self.logger
    }
}

/// Builds a log bridge: filter directives, an optional plugin-name prefix
/// and a formatter, then installs the result as the process-wide sink.
pub struct CollectdLoggerBuilder<F: Formatter> {
    /// The filter rules added so far.
    pub filter: FilterBuilder,
    /// The prefix to apply, when one was chosen.
    pub plugin: Option<String>,
    /// The rendering strategy.
    pub format: F,
}

impl CollectdLoggerBuilder<DefaultFormat> {
    /// Initializes the builder with defaults: no rules, no prefix, the
    /// default format.
    pub fn new() -> (r: CollectdLoggerBuilder<DefaultFormat>)
        ensures
            r.filter.rules() =~= Seq::<DirectiveV>::empty(),
            r.plugin is None,
            r.format == DefaultFormat,
    {
        CollectdLoggerBuilder { filter: FilterBuilder::new(), plugin: None, format: DefaultFormat }
    }
}

impl<F: Formatter> CollectdLoggerBuilder<F> {
    /// Prefixes all log messages with the given plugin name.
    pub fn prefix(self, name: &str) -> (r: CollectdLoggerBuilder<F>)
        ensures
            r.plugin matches Some(p) && p@ == name@,
            r.filter == self.filter,
            r.format == self.format,
    {
        CollectdLoggerBuilder {
            filter: self.filter,
            plugin: Some(String::from_str(name)),
            format: self.format,
        }
    }

    /// Prefixes all log messages with a plugin manager's name. What the
    /// manager's `name` returns is up to its implementation, so no more is
    /// promised here than that a prefix is now set.
    pub fn prefix_plugin<T: PluginManager>(self) -> (r: CollectdLoggerBuilder<F>)
        ensures
            r.plugin is Some,
            r.filter == self.filter,
            r.format == self.format,
    {
        let name = T::name();
        self.prefix(name)
    }

    /// Adds the nameless rule that matches everything not otherwise matched.
    pub fn filter_level(self, level: LevelFilter) -> (r: CollectdLoggerBuilder<F>)
        ensures
            r.filter.rules() == spec_insert(
                self.filter.rules(),
                DirectiveV { name: None, level },
            ),
            r.plugin == self.plugin,
            r.format == self.format,
    {
        CollectdLoggerBuilder {
            filter: self.filter.filter_level(level),
            plugin: self.plugin,
            format: self.format,
        }
    }

    /// Adds a rule for one module prefix.
    pub fn filter_module(self, module: &str, level: LevelFilter) -> (r: CollectdLoggerBuilder<F>)
        ensures
            r.filter.rules() == spec_insert(
                self.filter.rules(),
                DirectiveV { name: Some(module@), level },
            ),
            r.plugin == self.plugin,
            r.format == self.format,
    {
        CollectdLoggerBuilder {
            filter: self.filter.filter_module(module, level),
            plugin: self.plugin,
            format: self.format,
        }
    }

    /// Adds a rule for a module prefix, or for everything when `module` is
    /// `None`.
    pub fn filter(self, module: Option<&str>, level: LevelFilter) -> (r: CollectdLoggerBuilder<F>)
        ensures
            r.filter.rules() == spec_insert(
                self.filter.rules(),
                DirectiveV {
                    name: match module {
                        Some(m) => Some(m@),
                        None => None,
                    },
                    level,
                },
            ),
            r.plugin == self.plugin,
            r.format == self.format,
    {
        CollectdLoggerBuilder {
            filter: self.filter.filter(module, level),
            plugin: self.plugin,
            format: self.format,
        }
    }

    /// Adds the rules of a whole directive string, as
    /// [`FilterBuilder::parse`] reads it; invalid pieces are skipped.
    pub fn parse(self, filters: &str) -> (r: CollectdLoggerBuilder<F>)
        ensures
            r.filter.rules() == crate::parse::spec_parse(self.filter.rules(), filters@),
            r.plugin == self.plugin,
            r.format == self.format,
    {
        CollectdLoggerBuilder {
            filter: self.filter.parse(filters),
            plugin: self.plugin,
            format: self.format,
        }
    }

    /// Sets the strategy used to render each record.
    pub fn format<G: Formatter>(self, format: G) -> (r: CollectdLoggerBuilder<G>)
        ensures
            r.filter == self.filter,
            r.plugin == self.plugin,
            r.format == format,
    {
        CollectdLoggerBuilder { filter: self.filter, plugin: self.plugin, format }
    }

    /// Builds the bridge and installs it into the process-wide slot. Fails,
    /// leaving the slot untouched, when a logger is already installed;
    /// otherwise returns the most verbose ceiling of the built filter, which
    /// the caller feeds to the logging facade's global maximum.
    pub fn try_init(self, slot: &mut LoggerSlot<F>) -> (r: Result<LevelFilter, SetLoggerError>)
        ensures
            old(slot).logger is Some ==> r is Err && *final(slot) == *old(slot),
            old(slot).logger is None ==> (r matches Ok(lvl) && lvl == spec_max_level(
                crate::filter::spec_build(self.filter.rules()),
            )) && (final(slot).logger matches Some(lg) && lg.filter.rules()
                == crate::filter::spec_build(self.filter.rules()) && lg.plugin == self.plugin
                && lg.format == self.format),
    {
        let filter = self.filter.build();
        let logger = CollectdLogger { filter, plugin: self.plugin, format: self.format };
        let max = logger.filter();
        match slot.install(logger) {
            Ok(()) => Ok(max),
            Err(e) => Err(e),
        }
    }
}

/// True when the text holds no null character.
pub open spec fn spec_null_free(s: Seq<char>) -> bool {
    forall|i: int| 0 <= i < s.len() ==> s[i] != '\0'
}

/// Decides whether a message is free of null characters, as the host sink's
/// string representation requires.
pub fn is_null_free(s: &str) -> (r: bool)
    ensures
        r == spec_null_free(s@),
{
    let n = s.unicode_len();
    let mut i: usize = 0;
    while i < n
        invariant
            0 <= i <= n,
            n == s@.len(),
            forall|j: int| 0 <= j < i ==> s@[j] != '\0',
        decreases n - i,
    {
        if s.get_char(i) == '\0' {
            return false;
        }
        i += 1;
    }
    true
}

/// Builds the payload for the lower-level direct path to the host sink,
/// bypassing filter and format entirely: the message text followed by the
/// single terminating null character the sink's string representation
/// requires. The caller must pre-validate that the message holds no null
/// character; that is a contract violation, not a recoverable error.
pub fn collectd_log(lvl: LogLevel, message: &str) -> (r: SinkMessage)
    requires
        spec_null_free(message@),
    ensures
        r.level == lvl,
        r.text@ == message@ + seq!['\0'],
{
    let mut text = String::from_str(message);
    push_char(&mut text, '\0');
    proof {
        assert(text@ =~= message@ + seq!['\0']);
    }
    SinkMessage { level: lvl, text }
}

} // verus!
