//! Application data shared between commands: the bounded log sink, one
//! buffer per level, and two cached values.

use crate::text::{lines_of, text_of};
use vstd::prelude::*;
use vstd::string::StringExecFns;

verus! {

/// The most lines that one level of the log sink keeps.
pub const LOG_CAPACITY: usize = 10;

/// The level a log line is written under.
#[derive(Clone, Copy, Debug, PartialEq, Eq, Structural)]
pub enum LogType {
    Info,
    Error,
}

/// A buffer after `line` was written to it: the line stands last, and the
/// oldest line has left if the buffer was full.
pub open spec fn appended(lines: Seq<Seq<char>>, line: Seq<char>) -> Seq<Seq<char>> {
    let longer = lines.push(line);
    if longer.len() > LOG_CAPACITY {
        longer.subrange(1, longer.len() as int)
    } else {
        longer
    }
}

/// A buffer within its capacity stays within it when a line is written:
/// the line stands last, the lines before it keep their order, and only a
/// full buffer loses a line, its oldest.
pub proof fn lemma_appended(lines: Seq<Seq<char>>, line: Seq<char>)
    requires
        lines.len() <= LOG_CAPACITY,
    ensures
        appended(lines, line).len() <= LOG_CAPACITY,
        appended(lines, line).last() == line,
        lines.len() < LOG_CAPACITY ==> appended(lines, line) == lines.push(line),
        lines.len() == LOG_CAPACITY ==> appended(lines, line) == lines.drop_first().push(line),
{
    if lines.len() == LOG_CAPACITY {
        assert(appended(lines, line) =~= lines.drop_first().push(line));
    }
}

/// The lines joined by line feeds, with none after the last.
pub open spec fn joined(lines: Seq<Seq<char>>) -> Seq<char>
    decreases lines.len(),
{
    if lines.len() == 0 {
        Seq::empty()
    } else if lines.len() == 1 {
        lines[0]
    } else {
        joined(lines.drop_last()) + seq!['\n'] + lines.last()
    }
}

/// The mathematical content of the application data.
pub struct AppDataView {
    pub cached_dns: Option<Seq<char>>,
    pub info: Seq<Seq<char>>,
    pub error: Seq<Seq<char>>,
    pub clash_secret: Option<Seq<char>>,
}

impl AppDataView {
    pub open spec fn empty() -> AppDataView {
        AppDataView { cached_dns: None, info: Seq::empty(), error: Seq::empty(), clash_secret: None }
    }

    /// The lines kept under one level, oldest first.
    pub open spec fn lines(self, log_type: LogType) -> Seq<Seq<char>> {
        match log_type {
            LogType::Info => self.info,
            LogType::Error => self.error,
        }
    }

    /// Neither level holds more than the capacity.
    pub open spec fn bounded(self) -> bool {
        self.info.len() <= LOG_CAPACITY && self.error.len() <= LOG_CAPACITY
    }

    pub open spec fn with_lines(self, log_type: LogType, lines: Seq<Seq<char>>) -> AppDataView {
        match log_type {
            LogType::Info => AppDataView { info: lines, ..self },
            LogType::Error => AppDataView { error: lines, ..self },
        }
    }

    /// The data after `line` was written under `log_type`.
    pub open spec fn written(self, line: Seq<char>, log_type: LogType) -> AppDataView {
        self.with_lines(log_type, appended(self.lines(log_type), line))
    }

    /// The data after the lines under `log_type` were drained.
    pub open spec fn drained(self, log_type: LogType) -> AppDataView {
        self.with_lines(log_type, Seq::empty())
    }
}

/// Joins the lines of a buffer with line feeds.
fn join_lines(buffer: &Vec<String>) -> (text: String)
    ensures
        text@ == joined(lines_of(buffer@)),
{
    let mut text = String::new();
    let mut i: usize = 0;
    while i < buffer.len()
        invariant
            i <= buffer.len(),
            text@ == joined(lines_of(buffer@).take(i as int)),
        decreases buffer.len() - i,
    {
        proof {
            reveal_strlit("\n");
            let before = lines_of(buffer@).take(i as int);
            let after = lines_of(buffer@).take(i + 1);
            assert(after.drop_last() =~= before);
            assert(after.last() == buffer@[i as int]@);
            assert("\n"@ =~= seq!['\n']);
        }
        if i > 0 {
            text.append("\n");
        }
        text.append(buffer[i].as_str());
        proof {
            if i == 0 {
                assert(text@ =~= buffer@[0]@);
            }
        }
        i = i + 1;
    }
    proof {
        assert(lines_of(buffer@).take(buffer.len() as int) =~= lines_of(buffer@));
    }
    text
}

/// Writes `line` to a buffer, dropping the oldest line of a full one.
fn push_bounded(buffer: &mut Vec<String>, line: String)
    requires
        old(buffer).len() <= LOG_CAPACITY,
    ensures
        lines_of(final(buffer)@) == appended(lines_of(old(buffer)@), line@),
        final(buffer).len() <= LOG_CAPACITY,
{
    buffer.push(line);
    if buffer.len() > LOG_CAPACITY {
        buffer.remove(0);
    }
    proof {
        assert(lines_of(buffer@) =~= appended(lines_of(old(buffer)@), line@));
    }
}

/// Data that commands share for the lifetime of the application.
#[derive(Debug)]
pub struct AppData {
    cached_dns: Option<String>,
    log_buffer: Vec<String>,
    error_log_buffer: Vec<String>,
    clash_secret: Option<String>,
}

impl View for AppData {
    type V = AppDataView;

    closed spec fn view(&self) -> AppDataView {
        AppDataView {
            cached_dns: text_of(self.cached_dns),
            info: lines_of(self.log_buffer@),
            error: lines_of(self.error_log_buffer@),
            clash_secret: text_of(self.clash_secret),
        }
    }
}

impl AppData {
    #[verifier::type_invariant]
    spec fn inv(self) -> bool {
        self@.bounded()
    }

    /// Empty buffers and nothing cached.
    pub fn new() -> (data: AppData)
        ensures
            data@ == AppDataView::empty(),
    {
        let data = AppData {
            cached_dns: None,
            log_buffer: Vec::new(),
            error_log_buffer: Vec::new(),
            clash_secret: None,
        };
        proof {
            assert(data@.info =~= Seq::empty());
            assert(data@.error =~= Seq::empty());
        }
        data
    }

    /// Appends `log` to the buffer of its level; a full buffer loses its
    /// oldest line.
    pub fn write(&mut self, log: String, log_type: LogType)
        ensures
            final(self)@ == old(self)@.written(log@, log_type),
            final(self)@.bounded(),
    {
        proof {
            use_type_invariant(&*self);
        }
        let mut taken = AppData::new();
        core::mem::swap(self, &mut taken);
        let AppData { cached_dns, log_buffer, error_log_buffer, clash_secret } = taken;
        let mut log_buffer = log_buffer;
        let mut error_log_buffer = error_log_buffer;
        match log_type {
            LogType::Info => push_bounded(&mut log_buffer, log),
            LogType::Error => push_bounded(&mut error_log_buffer, log),
        }
        *self = AppData { cached_dns, log_buffer, error_log_buffer, clash_secret };
    }

    /// The lines of one level, oldest first, joined by line feeds.
    pub fn read(&self, log_type: LogType) -> (text: String)
        ensures
            text@ == joined(self@.lines(log_type)),
            self@.bounded(),
    {
        proof {
            use_type_invariant(self);
        }
        match log_type {
            LogType::Info => join_lines(&self.log_buffer),
            LogType::Error => join_lines(&self.error_log_buffer),
        }
    }

    /// Returns what `read` would, and empties the buffer of that level.
    pub fn read_cleared(&mut self, log_type: LogType) -> (text: String)
        ensures
            text@ == joined(old(self)@.lines(log_type)),
            final(self)@ == old(self)@.drained(log_type),
    {
        proof {
            use_type_invariant(&*self);
        }
        let text = self.read(log_type);
        let mut taken = AppData::new();
        core::mem::swap(self, &mut taken);
        let AppData { cached_dns, log_buffer, error_log_buffer, clash_secret } = taken;
        let data = match log_type {
            LogType::Info => AppData {
                cached_dns,
                log_buffer: Vec::new(),
                error_log_buffer,
                clash_secret,
            },
            LogType::Error => AppData {
                cached_dns,
                log_buffer,
                error_log_buffer: Vec::new(),
                clash_secret,
            },
        };
        proof {
            assert(data@.lines(log_type) =~= Seq::empty());
        }
        *self = data;
        text
    }

    /// The cached DNS server, if one was set.
    pub fn get_cached_dns(&self) -> (dns: Option<String>)
        ensures
            text_of(dns) == self@.cached_dns,
    {
        match &self.cached_dns {
            Some(s) => Some(s.clone()),
            None => None,
        }
    }

    /// Replaces the cached DNS server.
    pub fn set_cached_dns(&mut self, dns: Option<String>)
        ensures
            final(self)@ == (AppDataView { cached_dns: text_of(dns), ..old(self)@ }),
    {
        proof {
            use_type_invariant(&*self);
        }
        let mut taken = AppData::new();
        core::mem::swap(self, &mut taken);
        let AppData { cached_dns: _, log_buffer, error_log_buffer, clash_secret } = taken;
        *self = AppData { cached_dns: dns, log_buffer, error_log_buffer, clash_secret };
    }

    /// The secret of the engine's control API, if one was set.
    pub fn get_clash_secret(&self) -> (secret: Option<String>)
        ensures
            text_of(secret) == self@.clash_secret,
    {
        match &self.clash_secret {
            Some(s) => Some(s.clone()),
            None => None,
        }
    }

    /// Replaces the secret of the engine's control API.
    pub fn set_clash_secret(&mut self, secret: Option<String>)
        ensures
            final(self)@ == (AppDataView { clash_secret: text_of(secret), ..old(self)@ }),
    {
        proof {
            use_type_invariant(&*self);
        }
        let mut taken = AppData::new();
        core::mem::swap(self, &mut taken);
        let AppData { cached_dns, log_buffer, error_log_buffer, clash_secret: _ } = taken;
        *self = AppData { cached_dns, log_buffer, error_log_buffer, clash_secret: secret };
    }
}

} // verus!
