use vstd::prelude::*;
use crate::clock::{format_time_of_day, local_time_of_day, time_text, utc_time_of_day, TimeOfDay};
use crate::level::{passes, Level, LevelFilter};
use crate::record::{opt_view, record_line, record_text, select_target, target_text, thread_text};
use crate::writer::{BufferedWriter, WriteMode, WriteTarget, DEFAULT_BUFFER_CAPACITY};

verus! {

/// Which clock, if any, stamps each record.
#[derive(Clone, Copy, Debug, PartialEq, Eq, Structural)]
pub enum Timestamps {
    Off,
    Local,
    Utc,
}

/// Why a record could not be laid out.
#[derive(Clone, Copy, Debug, PartialEq, Eq, Structural)]
pub enum LogError {
    /// The local UTC offset could not be determined.
    IndeterminateOffset,
}

/// A record of severity `level` reaches a sink with threshold `sink` under a
/// logger with threshold `global` when it passes both.
pub open spec fn delivers(global: LevelFilter, sink: LevelFilter, level: Level) -> bool {
    passes(level, global) && passes(level, sink)
}

/// The timestamp texts that a policy can produce: none at all, or the text
/// of some valid time of day.
pub open spec fn timestamp_possible(policy: Timestamps, ts: Seq<char>) -> bool {
    match policy {
        Timestamps::Off => ts == Seq::<char>::empty(),
        _ => exists|t: TimeOfDay| t.wf() && ts == #[trigger] time_text(t),
    }
}

/// The dispatcher: global threshold, record layout options and the ordered
/// sinks.
pub struct Logger {
    log_level: LevelFilter,
    timestamps: Timestamps,
    thread: bool,
    target: bool,
    writers: Vec<BufferedWriter>,
}

impl Logger {
    pub closed spec fn spec_log_level(&self) -> LevelFilter {
        self.log_level
    }

    pub closed spec fn spec_timestamps(&self) -> Timestamps {
        self.timestamps
    }

    pub closed spec fn spec_thread(&self) -> bool {
        self.thread
    }

    pub closed spec fn spec_target(&self) -> bool {
        self.target
    }

    pub closed spec fn spec_writers(&self) -> Seq<BufferedWriter> {
        self.writers@
    }

    /// Every setting but the one a builder method changes is kept.
    pub open spec fn keeps(&self, prev: Logger, level: bool, ts: bool, thread: bool, target: bool) -> bool {
        &&& (level || self.spec_log_level() == prev.spec_log_level())
        &&& (ts || self.spec_timestamps() == prev.spec_timestamps())
        &&& (thread || self.spec_thread() == prev.spec_thread())
        &&& (target || self.spec_target() == prev.spec_target())
    }

    /// A logger that lets every record through, stamps them with local time,
    /// shows neither thread nor target, and has no sink yet.
    pub fn new() -> (r: Logger)
        ensures
            r.spec_log_level() == LevelFilter::Trace,
            r.spec_timestamps() == Timestamps::Local,
            !r.spec_thread(),
            !r.spec_target(),
            r.spec_writers().len() == 0,
    {
        Logger {
            log_level: LevelFilter::Trace,
            timestamps: Timestamps::Local,
            thread: false,
            target: false,
            writers: Vec::new(),
        }
    }

    pub fn with_level(self, level: LevelFilter) -> (r: Logger)
        ensures
            r.spec_log_level() == level,
            r.keeps(self, true, false, false, false),
            r.spec_writers() == self.spec_writers(),
    {
        Logger { log_level: level, ..self }
    }

    pub fn with_utc_timestamps(self) -> (r: Logger)
        ensures
            r.spec_timestamps() == Timestamps::Utc,
            r.keeps(self, false, true, false, false),
            r.spec_writers() == self.spec_writers(),
    {
        Logger { timestamps: Timestamps::Utc, ..self }
    }

    pub fn with_local_timestamps(self) -> (r: Logger)
        ensures
            r.spec_timestamps() == Timestamps::Local,
            r.keeps(self, false, true, false, false),
            r.spec_writers() == self.spec_writers(),
    {
        Logger { timestamps: Timestamps::Local, ..self }
    }

    pub fn without_timestamps(self) -> (r: Logger)
        ensures
            r.spec_timestamps() == Timestamps::Off,
            r.keeps(self, false, true, false, false),
            r.spec_writers() == self.spec_writers(),
    {
        Logger { timestamps: Timestamps::Off, ..self }
    }

    pub fn with_thread(self) -> (r: Logger)
        ensures
            r.spec_thread(),
            r.keeps(self, false, false, true, false),
            r.spec_writers() == self.spec_writers(),
    {
        Logger { thread: true, ..self }
    }

    pub fn with_target(self) -> (r: Logger)
        ensures
            r.spec_target(),
            r.keeps(self, false, false, false, true),
            r.spec_writers() == self.spec_writers(),
    {
        Logger { target: true, ..self }
    }

    pub fn without_target(self) -> (r: Logger)
        ensures
            !r.spec_target(),
            r.keeps(self, false, false, false, true),
            r.spec_writers() == self.spec_writers(),
    {
        Logger { target: false, ..self }
    }

    /// Appends a sink, after those already added.
    pub fn add_writer(self, writer: BufferedWriter) -> (r: Logger)
        ensures
            r.keeps(self, false, false, false, false),
            r.spec_writers() == self.spec_writers().push(writer),
    {
        let mut s = self;
        s.writers.push(writer);
        s
    }

    /// Appends a sink on standard output, on a worker of its own when
    /// `multi_thread` is set, with the given capacity or else the default.
    pub fn add_writer_stdout(self, multi_thread: bool, capacity: Option<usize>) -> (r: Logger)
        ensures
            r.keeps(self, false, false, false, false),
            r.spec_writers().len() == self.spec_writers().len() + 1,
            r.spec_writers().drop_last() == self.spec_writers(),
            ({
                let w = r.spec_writers().last();
                &&& w.spec_target() == WriteTarget::StdOut
                &&& w.spec_file_path().is_none()
                &&& w.spec_mode() == if multi_thread {
                    WriteMode::SeparateThread
                } else {
                    WriteMode::ThisThread
                }
                &&& w.spec_buffer_capacity() == match capacity {
                    Some(c) => c as nat,
                    None => DEFAULT_BUFFER_CAPACITY as nat,
                }
                &&& w.spec_min_level() == LevelFilter::Trace
                &&& w.spec_state() is Unopened
            }),
    {
        let w = configure(BufferedWriter::new().on_stdout(), multi_thread, capacity);
        self.add_writer(w)
    }

    /// Appends a sink on the file at `file_path`, on a worker of its own when
    /// `multi_thread` is set, with the given capacity or else the default.
    pub fn add_writer_file(self, file_path: std::path::PathBuf, multi_thread: bool, capacity: Option<
        usize,
    >) -> (r: Logger)
        ensures
            r.keeps(self, false, false, false, false),
            r.spec_writers().len() == self.spec_writers().len() + 1,
            r.spec_writers().drop_last() == self.spec_writers(),
            ({
                let w = r.spec_writers().last();
                &&& w.spec_target() == WriteTarget::File
                &&& w.spec_file_path() == Some(file_path)
                &&& w.spec_mode() == if multi_thread {
                    WriteMode::SeparateThread
                } else {
                    WriteMode::ThisThread
                }
                &&& w.spec_buffer_capacity() == match capacity {
                    Some(c) => c as nat,
                    None => DEFAULT_BUFFER_CAPACITY as nat,
                }
                &&& w.spec_min_level() == LevelFilter::Trace
                &&& w.spec_state() is Unopened
            }),
    {
        let w = configure(BufferedWriter::new().on_file(file_path), multi_thread, capacity);
        self.add_writer(w)
    }

    pub fn log_level(&self) -> (r: LevelFilter)
        ensures
            r == self.spec_log_level(),
    {
        self.log_level
    }

    pub fn timestamps(&self) -> (r: Timestamps)
        ensures
            r == self.spec_timestamps(),
    {
        self.timestamps
    }

    pub fn shows_thread(&self) -> (r: bool)
        ensures
            r == self.spec_thread(),
    {
        self.thread
    }

    pub fn shows_target(&self) -> (r: bool)
        ensures
            r == self.spec_target(),
    {
        self.target
    }

    pub fn writers(&self) -> (r: &Vec<BufferedWriter>)
        ensures
            r@ == self.spec_writers(),
    {
        &self.writers
    }

    /// Hands the sinks over to whoever opens their streams, leaving none.
    pub fn take_writers(&mut self) -> (r: Vec<BufferedWriter>)
        ensures
            r@ == old(self).spec_writers(),
            final(self).spec_writers().len() == 0,
            final(self).keeps(*old(self), false, false, false, false),
    {
        let mut out: Vec<BufferedWriter> = Vec::new();
        out.append(&mut self.writers);
        out
    }

    /// Whether a record of severity `level` passes the global threshold.
    pub fn enabled(&self, level: Level) -> (r: bool)
        ensures
            r == passes(level, self.spec_log_level()),
    {
        self.log_level.admits(level)
    }

    /// Whether a record of severity `level` is delivered to `writer`: it
    /// must pass the global threshold and the sink's own.
    pub fn admits(&self, writer: &BufferedWriter, level: Level) -> (r: bool)
        ensures
            r == delivers(self.spec_log_level(), writer.spec_min_level(), level),
    {
        self.enabled(level) && writer.admits(level)
    }

    /// The positions of the sinks that receive a record of severity `level`,
    /// in the order the sinks were added.
    pub fn route(&self, level: Level) -> (r: Vec<usize>)
        ensures
            forall|k: int| 0 <= k < r@.len() ==> #[trigger] r@[k] < self.spec_writers().len(),
            forall|j: int, k: int| 0 <= j < k < r@.len() ==> r@[j] < r@[k],
            forall|i: int|
                0 <= i < self.spec_writers().len() ==> (r@.contains(i as usize) <==> delivers(
                    self.spec_log_level(),
                    #[trigger] self.spec_writers()[i].spec_min_level(),
                    level,
                )),
            !passes(level, self.spec_log_level()) ==> r@.len() == 0,
    {
        let mut out: Vec<usize> = Vec::new();
        if !self.enabled(level) {
            return out;
        }
        let n = self.writers.len();
        let mut i: usize = 0;
        while i < n
            invariant
                n == self.spec_writers().len(),
                i <= n,
                passes(level, self.spec_log_level()),
                forall|k: int| 0 <= k < out@.len() ==> #[trigger] out@[k] < i,
                forall|j: int, k: int| 0 <= j < k < out@.len() ==> out@[j] < out@[k],
                forall|m: int|
                    0 <= m < i ==> (out@.contains(m as usize) <==> delivers(
                        self.spec_log_level(),
                        #[trigger] self.spec_writers()[m].spec_min_level(),
                        level,
                    )),
            decreases n - i,
        {
            let ghost prev = out@;
            let a = self.admits(&self.writers[i], level);
            if a {
                out.push(i);
            }
            proof {
                assert forall|m: int|
                    0 <= m < i + 1 implies (out@.contains(m as usize) <==> delivers(
                        self.spec_log_level(),
                        #[trigger] self.spec_writers()[m].spec_min_level(),
                        level,
                    )) by {
                    if out@.contains(m as usize) {
                        let k = choose|k: int| 0 <= k < out@.len() && out@[k] == m as usize;
                        if m < i {
                            assert(k < prev.len());
                            assert(prev[k] == m as usize);
                        } else if !a {
                            assert(prev[k] < i);
                        }
                    }
                    if m < i && prev.contains(m as usize) {
                        let k = choose|k: int| 0 <= k < prev.len() && prev[k] == m as usize;
                        assert(out@[k] == m as usize);
                    }
                    if m == i && a {
                        assert(out@[out@.len() - 1] == i);
                    }
                }
            }
            i = i + 1;
        }
        out
    }
}

impl Logger {
    /// The timestamp text of a record stamped now under this logger's
    /// policy; `None` where local time is asked for and the local offset
    /// cannot be determined.
    pub fn timestamp(&self) -> (r: Option<String>)
        ensures
            self.spec_timestamps() != Timestamps::Local ==> r.is_some(),
            r matches Some(s) ==> timestamp_possible(self.spec_timestamps(), s@),
    {
        match self.timestamps {
            Timestamps::Off => Some(String::new()),
            Timestamps::Utc => {
                let t = utc_time_of_day();
                let s = format_time_of_day(t);
                assert(t.wf() && s@ == time_text(t));
                Some(s)
            },
            Timestamps::Local => match local_time_of_day() {
                Some(t) => {
                    let s = format_time_of_day(t);
                    assert(t.wf() && s@ == time_text(t));
                    Some(s)
                },
                None => None,
            },
        }
    }

    /// Lays out a record for the sinks: `Ok(None)` where it fails the global
    /// threshold, the line otherwise, stamped under the timestamp policy and
    /// showing the target and the thread name where the logger shows them.
    pub fn log(&self, level: Level, target: &str, module: Option<&str>, thread_name: &str, message: &str) -> (r: Result<Option<String>, LogError>)
        ensures
            r matches Ok(None) <==> !passes(level, self.spec_log_level()),
            r is Err ==> passes(level, self.spec_log_level()) && self.spec_timestamps() == Timestamps::Local,
            passes(level, self.spec_log_level()) && self.spec_timestamps() != Timestamps::Local ==> r matches Ok(Some(_)),
            r matches Ok(Some(line)) ==> exists|ts: Seq<char>|
                timestamp_possible(self.spec_timestamps(), ts) && line@ == #[trigger] record_text(
                    ts,
                    target_text(self.spec_target(), target@, opt_view(module)),
                    thread_text(self.spec_thread(), thread_name@),
                    level,
                    message@,
                ),
    {
        if !self.enabled(level) {
            return Ok(None);
        }
        let shown_target = select_target(self.target, target, module);
        let shown_thread = if self.thread { thread_name } else { "" };
        proof {
            reveal_strlit("");
        }
        match self.timestamp() {
            Some(ts) => {
                let line = record_line(ts.as_str(), shown_target, shown_thread, level, message);
                assert(timestamp_possible(self.spec_timestamps(), ts@));
                assert(shown_thread@ == thread_text(self.spec_thread(), thread_name@));
                assert(line@ == record_text(
                    ts@,
                    target_text(self.spec_target(), target@, opt_view(module)),
                    thread_text(self.spec_thread(), thread_name@),
                    level,
                    message@,
                ));
                Ok(Some(line))
            },
            None => Err(LogError::IndeterminateOffset),
        }
    }
}

impl Default for Logger {
    fn default() -> (r: Logger)
        ensures
            r.spec_log_level() == LevelFilter::Trace,
            r.spec_timestamps() == Timestamps::Local,
            !r.spec_thread(),
            !r.spec_target(),
            r.spec_writers().len() == 0,
    {
        Logger::new()
    }
}

/// Sets a fresh sink's mode and capacity as the `add_writer_*` methods take them.
fn configure(w: BufferedWriter, multi_thread: bool, capacity: Option<usize>) -> (r: BufferedWriter)
    ensures
        r.spec_target() == w.spec_target(),
        r.spec_file_path() == w.spec_file_path(),
        r.spec_mode() == if multi_thread {
            WriteMode::SeparateThread
        } else {
            w.spec_mode()
        },
        r.spec_buffer_capacity() == match capacity {
            Some(c) => c as nat,
            None => w.spec_buffer_capacity(),
        },
        r.spec_min_level() == w.spec_min_level(),
        r.spec_state() == w.spec_state(),
{
    let mut w = w;
    if multi_thread {
        w = w.with_separate_thread();
    }
    if let Some(c) = capacity {
        w = w.with_buffer_capacity(c);
    }
    w
}

} // verus!
