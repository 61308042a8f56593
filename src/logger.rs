//! The builder, the frozen logger configuration, sink resolution and fan-out.
use vstd::prelude::*;
use crate::format::LogRecord;
use crate::level::{LogLevel, passes, rank, filter_rank};
use crate::rotation::RotationStrategy;

verus! {

/// The threshold in bytes above which an existing log file is rotated, by default.
pub const DEFAULT_MAX_FILE_SIZE: u128 = 40000;

/// The name of the UI event that carries a record: `log://log`.
pub open spec fn log_event_spec() -> Seq<char> {
    seq!['l', 'o', 'g', ':', '/', '/', 'l', 'o', 'g']
}

/// The name of the UI event that carries a record.
pub fn log_event() -> (r: &'static str)
    ensures
        r@ == log_event_spec(),
{
    proof {
        reveal_strlit("log://log");
    }
    "log://log"
}

/// A declarative description of one sink.
#[derive(Debug, Clone)]
pub enum LogTarget {
    /// Print logs to stdout.
    Stdout,
    /// Print logs to stderr.
    Stderr,
    /// Write logs to a file in the given directory, which is created if missing.
    Folder(String),
    /// Write logs to a file in the host's per-application log directory.
    LogDir,
    /// Forward logs to the UI as `log://log` events.
    Webview,
}

/// A target resolved against the host: where records actually go.
#[derive(Debug, Clone)]
pub enum Sink {
    Stdout,
    Stderr,
    /// A log file in this directory.
    File(String),
    Webview,
}

/// The structured form of a record forwarded to the UI.
#[derive(Debug, Clone)]
pub struct RecordPayload {
    pub message: String,
    pub level: LogLevel,
}

/// What one sink receives for one record.
#[derive(Debug, Clone)]
pub enum Content {
    /// A rendered line, for the console and file sinks.
    Line(String),
    /// A structured payload, for the UI sink.
    Event(RecordPayload),
}

/// One record's delivery to the sink at position `target` of the target list.
#[derive(Debug, Clone)]
pub struct Delivery {
    pub target: usize,
    pub content: Content,
}

/// How text sinks get their line.
#[derive(Debug, Clone, Copy, PartialEq, Eq, Structural)]
pub enum LineFormat {
    /// `[YYYY-MM-DD][HH:MM:SS][origin][LEVEL] message`, rendered by the library.
    Default,
    /// A replacement layout, rendered by the embedding host.
    Custom,
}

/// The sink that `t` resolves to, given the host's log directory.
pub open spec fn resolves_to(t: LogTarget, log_dir: Seq<char>, s: Sink) -> bool {
    match t {
        LogTarget::Stdout => s is Stdout,
        LogTarget::Stderr => s is Stderr,
        LogTarget::Folder(p) => s matches Sink::File(d) && d@ == p@,
        LogTarget::LogDir => s matches Sink::File(d) && d@ == log_dir,
        LogTarget::Webview => s is Webview,
    }
}

/// `d` is the delivery of `rec` to target `t` at position `i`: the UI sink gets the
/// message and level, every other sink gets the rendered `line`.
pub open spec fn delivers(d: Delivery, i: int, t: LogTarget, rec: LogRecord, line: Seq<char>) -> bool {
    &&& d.target == i
    &&& if t is Webview {
        d.content matches Content::Event(p) && p.message@ == rec.message@ && p.level == rec.level
    } else {
        d.content matches Content::Line(l) && l@ == line
    }
}

/// Module `m` covers the origin `o`: `o` is `m` itself, or starts with `m` followed
/// by `::`. This is the library's own rule; it reads `a:::b` as under `a`.
pub open spec fn covers(m: Seq<char>, o: Seq<char>) -> bool {
    ||| o == m
    ||| (o.len() >= m.len() + 2 && o.subrange(0, m.len() as int) == m && o[m.len() as int] == ':'
        && o[m.len() + 1int] == ':')
}

/// Among the first `n` per-module levels, the one whose module covers `o` and is
/// longest (the later one on a tie), with the length of that module.
pub open spec fn best_override(levels: Seq<(String, log::LevelFilter)>, o: Seq<char>, n: nat) -> Option<(nat, log::LevelFilter)>
    decreases n,
{
    if n == 0 || n > levels.len() {
        None
    } else {
        let prev = best_override(levels, o, (n - 1) as nat);
        let m = levels[n - 1].0@;
        if covers(m, o) && (prev is None || m.len() >= prev.unwrap().0) {
            Some((m.len(), levels[n - 1].1))
        } else {
            prev
        }
    }
}

/// The minimum filter for records from origin `o`: the level of the most specific
/// module that covers `o`, or `global` where none does.
pub open spec fn effective_filter(levels: Seq<(String, log::LevelFilter)>, global: log::LevelFilter, o: Seq<char>) -> log::LevelFilter {
    match best_override(levels, o, levels.len()) {
        Some(p) => p.1,
        None => global,
    }
}

/// With no per-module levels, a record passes exactly when its level reaches the
/// global minimum.
pub proof fn lemma_global_filter_decides(global: log::LevelFilter, o: Seq<char>, l: LogLevel)
    ensures
        passes(l, effective_filter(Seq::empty(), global, o)) <==> rank(l) >= filter_rank(global),
{
}

/// Whether module `m` covers the origin `o`.
fn covers_origin(m: &String, o: &str) -> (r: bool)
    ensures
        r == covers(m@, o@),
{
    let ml = m.as_str().unicode_len();
    let ol = o.unicode_len();
    if ol < ml || ol - ml == 1 {
        return false;
    }
    let mut j: usize = 0;
    while j < ml
        invariant
            ml == m@.len(),
            ol == o@.len(),
            ml <= ol,
            j <= ml,
            forall|k: int| 0 <= k < j ==> o@[k] == m@[k],
        decreases ml - j,
    {
        if o.get_char(j) != m.as_str().get_char(j) {
            proof {
                assert(o@.subrange(0, ml as int)[j as int] != m@[j as int]);
            }
            return false;
        }
        j += 1;
    }
    proof {
        assert(o@.subrange(0, ml as int) =~= m@);
    }
    if ol == ml {
        proof {
            assert(o@ =~= m@);
        }
        return true;
    }
    o.get_char(ml) == ':' && o.get_char(ml + 1) == ':'
}

/// Assembles the logger's configuration before it is frozen by `build`.
pub struct LoggerBuilder {
    pub level: log::LevelFilter,
    pub module_levels: Vec<(String, log::LevelFilter)>,
    pub rotation_strategy: RotationStrategy,
    pub max_file_size: u128,
    pub line_format: LineFormat,
    pub targets: Vec<LogTarget>,
}

/// The frozen configuration of an active logger.
pub struct Logger {
    pub level: log::LevelFilter,
    pub module_levels: Vec<(String, log::LevelFilter)>,
    pub rotation_strategy: RotationStrategy,
    pub max_file_size: u128,
    pub line_format: LineFormat,
    pub targets: Vec<LogTarget>,
}

impl Default for LoggerBuilder {
    /// Everything passes, lines use the default layout, one log file is kept up to
    /// 40000 bytes, and records go to stdout and the host's log directory.
    fn default() -> (r: Self)
        ensures
            r.level == log::LevelFilter::Trace,
            r.module_levels@.len() == 0,
            r.rotation_strategy == RotationStrategy::KeepOne,
            r.max_file_size == DEFAULT_MAX_FILE_SIZE,
            r.line_format == LineFormat::Default,
            r.targets@.len() == 2,
            r.targets@[0] is Stdout,
            r.targets@[1] is LogDir,
    {
        LoggerBuilder {
            level: log::LevelFilter::Trace,
            module_levels: Vec::new(),
            rotation_strategy: RotationStrategy::KeepOne,
            max_file_size: DEFAULT_MAX_FILE_SIZE,
            line_format: LineFormat::Default,
            targets: vec![LogTarget::Stdout, LogTarget::LogDir],
        }
    }
}

impl LoggerBuilder {
    /// A builder with the default configuration.
    pub fn new() -> (r: Self)
        ensures
            r.level == log::LevelFilter::Trace,
            r.module_levels@.len() == 0,
            r.rotation_strategy == RotationStrategy::KeepOne,
            r.max_file_size == DEFAULT_MAX_FILE_SIZE,
            r.line_format == LineFormat::Default,
            r.targets@.len() == 2,
            r.targets@[0] is Stdout,
            r.targets@[1] is LogDir,
    {
        Self::default()
    }

    /// Sets what becomes of an oversized log file.
    pub fn rotation_strategy(self, rotation_strategy: RotationStrategy) -> (r: Self)
        ensures
            r.rotation_strategy == rotation_strategy,
            r.level == self.level,
            r.module_levels@ == self.module_levels@,
            r.max_file_size == self.max_file_size,
            r.line_format == self.line_format,
            r.targets@ == self.targets@,
    {
        LoggerBuilder { rotation_strategy, ..self }
    }

    /// Sets the size in bytes above which an existing log file is rotated.
    pub fn max_file_size(self, max_file_size: u128) -> (r: Self)
        ensures
            r.max_file_size == max_file_size,
            r.line_format == self.line_format,
            r.level == self.level,
            r.module_levels@ == self.module_levels@,
            r.rotation_strategy == self.rotation_strategy,
            r.targets@ == self.targets@,
    {
        LoggerBuilder { max_file_size, ..self }
    }

    /// Sets how text sinks get their line.
    pub fn line_format(self, line_format: LineFormat) -> (r: Self)
        ensures
            r.line_format == line_format,
            r.level == self.level,
            r.module_levels@ == self.module_levels@,
            r.rotation_strategy == self.rotation_strategy,
            r.max_file_size == self.max_file_size,
            r.targets@ == self.targets@,
    {
        LoggerBuilder { line_format, ..self }
    }

    /// Sets the minimum level that a record needs to be delivered.
    pub fn level(self, level_filter: log::LevelFilter) -> (r: Self)
        ensures
            r.level == level_filter,
            r.module_levels@ == self.module_levels@,
            r.rotation_strategy == self.rotation_strategy,
            r.max_file_size == self.max_file_size,
            r.line_format == self.line_format,
            r.targets@ == self.targets@,
    {
        LoggerBuilder { level: level_filter, ..self }
    }

    /// Adds a per-module level: records whose origin is `module` or one of its
    /// submodules are filtered by it instead of the global level, the most specific
    /// module deciding.
    pub fn level_for(self, module: String, level: log::LevelFilter) -> (r: Self)
        ensures
            r.module_levels@.len() == self.module_levels@.len() + 1,
            r.module_levels@.drop_last() == self.module_levels@,
            r.module_levels@.last().0@ == module@,
            r.module_levels@.last().1 == level,
            r.level == self.level,
            r.rotation_strategy == self.rotation_strategy,
            r.max_file_size == self.max_file_size,
            r.line_format == self.line_format,
            r.targets@ == self.targets@,
    {
        let mut b = self;
        b.module_levels.push((module, level));
        proof {
            assert(b.module_levels@.drop_last() =~= self.module_levels@);
        }
        b
    }

    /// Appends one target after those already configured.
    pub fn target(self, target: LogTarget) -> (r: Self)
        ensures
            r.targets@ == self.targets@.push(target),
            r.level == self.level,
            r.module_levels@ == self.module_levels@,
            r.rotation_strategy == self.rotation_strategy,
            r.max_file_size == self.max_file_size,
            r.line_format == self.line_format,
    {
        let mut b = self;
        b.targets.push(target);
        b
    }

    /// Replaces the configured targets.
    pub fn targets(self, targets: Vec<LogTarget>) -> (r: Self)
        ensures
            r.targets@ == targets@,
            r.level == self.level,
            r.module_levels@ == self.module_levels@,
            r.rotation_strategy == self.rotation_strategy,
            r.max_file_size == self.max_file_size,
            r.line_format == self.line_format,
    {
        LoggerBuilder { targets, ..self }
    }

    /// Freezes the configuration.
    pub fn build(self) -> (r: Logger)
        ensures
            r.level == self.level,
            r.module_levels@ == self.module_levels@,
            r.rotation_strategy == self.rotation_strategy,
            r.max_file_size == self.max_file_size,
            r.line_format == self.line_format,
            r.targets@ == self.targets@,
    {
        Logger {
            level: self.level,
            module_levels: self.module_levels,
            rotation_strategy: self.rotation_strategy,
            max_file_size: self.max_file_size,
            line_format: self.line_format,
            targets: self.targets,
        }
    }
}

impl Logger {
    /// The plugin's name.
    pub fn name(&self) -> (r: &'static str)
        ensures
            r@ == seq!['l', 'o', 'g'],
    {
        proof {
            reveal_strlit("log");
        }
        "log"
    }

    /// The minimum filter for records from `origin`.
    pub fn filter_for(&self, origin: &str) -> (r: log::LevelFilter)
        ensures
            r == effective_filter(self.module_levels@, self.level, origin@),
    {
        let mut best: Option<(usize, log::LevelFilter)> = None;
        let mut i: usize = 0;
        while i < self.module_levels.len()
            invariant
                i <= self.module_levels@.len(),
                best is None ==> best_override(self.module_levels@, origin@, i as nat) is None,
                best matches Some(b) ==> best_override(self.module_levels@, origin@, i as nat)
                    == Some((b.0 as nat, b.1)),
            decreases self.module_levels@.len() - i,
        {
            let entry = &self.module_levels[i];
            if covers_origin(&entry.0, origin) {
                let ml = entry.0.as_str().unicode_len();
                match best {
                    Some(b) if ml < b.0 => {},
                    _ => {
                        best = Some((ml, entry.1));
                    },
                }
            }
            i += 1;
        }
        match best {
            Some(b) => b.1,
            None => self.level,
        }
    }

    /// Resolves each target into its sink, in declaration order; `LogDir` becomes a
    /// file sink in the host's log directory `log_dir`.
    pub fn resolve_sinks(&self, log_dir: &String) -> (r: Vec<Sink>)
        ensures
            r@.len() == self.targets@.len(),
            forall|i: int| 0 <= i < r@.len() ==> resolves_to(self.targets@[i], log_dir@, #[trigger] r@[i]),
    {
        let mut out: Vec<Sink> = Vec::new();
        let mut i: usize = 0;
        while i < self.targets.len()
            invariant
                i <= self.targets@.len(),
                out@.len() == i,
                forall|j: int| 0 <= j < i ==> resolves_to(self.targets@[j], log_dir@, #[trigger] out@[j]),
            decreases self.targets@.len() - i,
        {
            let sink = match &self.targets[i] {
                LogTarget::Stdout => Sink::Stdout,
                LogTarget::Stderr => Sink::Stderr,
                LogTarget::Folder(p) => Sink::File(p.clone()),
                LogTarget::LogDir => Sink::File(log_dir.clone()),
                LogTarget::Webview => Sink::Webview,
            };
            out.push(sink);
            i += 1;
        }
        out
    }

    /// The deliveries of `record` with the rendered text `line`: none if the record's
    /// level does not pass the minimum filter for its origin, else one per target, in
    /// declaration order.
    pub fn route(&self, record: &LogRecord, line: &String) -> (r: Vec<Delivery>)
        ensures
            !passes(record.level, effective_filter(self.module_levels@, self.level, record.origin@)) ==> r@.len() == 0,
            passes(record.level, effective_filter(self.module_levels@, self.level, record.origin@)) ==> r@.len() == self.targets@.len(),
            passes(record.level, effective_filter(self.module_levels@, self.level, record.origin@)) ==> forall|i: int| 0 <= i < r@.len()
                ==> delivers(#[trigger] r@[i], i, self.targets@[i], *record, line@),
    {
        let mut out: Vec<Delivery> = Vec::new();
        if !record.level.passes(self.filter_for(record.origin.as_str())) {
            return out;
        }
        let mut i: usize = 0;
        while i < self.targets.len()
            invariant
                i <= self.targets@.len(),
                out@.len() == i,
                forall|j: int| 0 <= j < i ==> delivers(#[trigger] out@[j], j, self.targets@[j], *record, line@),
            decreases self.targets@.len() - i,
        {
            let content = match &self.targets[i] {
                LogTarget::Webview => Content::Event(
                    RecordPayload { message: record.message.clone(), level: record.level },
                ),
                _ => Content::Line(line.clone()),
            };
            out.push(Delivery { target: i, content });
            i += 1;
        }
        out
    }

    /// The line that the library renders for `record`: the default layout, or `None`
    /// where the host renders a custom one.
    pub fn render(&self, record: &LogRecord) -> (r: Option<String>)
        requires
            record.wf(),
        ensures
            self.line_format == LineFormat::Default ==> (r matches Some(l) && l@
                == crate::format::default_line(*record)),
            self.line_format == LineFormat::Custom ==> r is None,
    {
        match self.line_format {
            LineFormat::Default => Some(record.format_default()),
            LineFormat::Custom => None,
        }
    }

    /// The deliveries of `record`, rendered with the default layout.
    pub fn route_default(&self, record: &LogRecord) -> (r: Vec<Delivery>)
        requires
            record.wf(),
        ensures
            !passes(record.level, effective_filter(self.module_levels@, self.level, record.origin@)) ==> r@.len() == 0,
            passes(record.level, effective_filter(self.module_levels@, self.level, record.origin@)) ==> r@.len() == self.targets@.len(),
            passes(record.level, effective_filter(self.module_levels@, self.level, record.origin@)) ==> forall|i: int| 0 <= i < r@.len()
                ==> delivers(#[trigger] r@[i], i, self.targets@[i], *record, crate::format::default_line(*record)),
    {
        let line = record.format_default();
        self.route(record, &line)
    }
}

} // verus!
