//! Processes as the rules see them.

pub mod discover;
pub mod metrics;

use crate::matcher::{ProcessMatcher, Selector};
use vstd::string::{StrSliceExecFns, StringExecFns};
use vstd::prelude::*;

verus! {

/// What a snapshot holds of a process's `stat` record: the command name and
/// the counters that are exported.
#[derive(Debug, PartialEq, Eq)]
pub struct ProcStat {
    /// The command name.
    pub comm: String,
    /// Time spent in user mode, in clock ticks.
    pub utime: u64,
    /// Time spent in kernel mode, in clock ticks.
    pub stime: u64,
    /// The number of threads.
    pub num_threads: i64,
    /// The size of the virtual memory, in bytes.
    pub vsize: u64,
    /// The resident set, in pages.
    pub rss: u64,
}

/// A `stat` record by its contents.
pub struct ProcStatView {
    pub comm: Seq<char>,
    pub utime: u64,
    pub stime: u64,
    pub num_threads: i64,
    pub vsize: u64,
    pub rss: u64,
}

impl View for ProcStat {
    type V = ProcStatView;

    open spec fn view(&self) -> ProcStatView {
        ProcStatView {
            comm: self.comm@,
            utime: self.utime,
            stime: self.stime,
            num_threads: self.num_threads,
            vsize: self.vsize,
            rss: self.rss,
        }
    }
}

impl Clone for ProcStat {
    fn clone(&self) -> (r: ProcStat)
        ensures
            r@ == self@,
    {
        ProcStat {
            comm: self.comm.clone(),
            utime: self.utime,
            stime: self.stime,
            num_threads: self.num_threads,
            vsize: self.vsize,
            rss: self.rss,
        }
    }
}

/// The I/O counters of a process.
#[derive(Debug, Clone, Copy, PartialEq, Eq, Structural)]
pub struct ProcIo {
    pub rchar: u64,
    pub wchar: u64,
    pub syscr: u64,
    pub syscw: u64,
    pub read_bytes: u64,
    pub write_bytes: u64,
    pub cancelled_write_bytes: u64,
}

/// A snapshot of one process.
///
/// The I/O counters and the number of open files are read only for a process
/// that some rule has accepted; until then they are absent.
#[derive(Debug, PartialEq, Eq)]
pub struct Proc {
    pid: i32,
    exe: String,
    exe_base: String,
    cmdline: String,
    stat: ProcStat,
    io: Option<ProcIo>,
    fd_count: Option<usize>,
}

/// A snapshot by its contents.
pub struct ProcView {
    pub pid: i32,
    pub exe: Seq<char>,
    pub exe_base: Seq<char>,
    pub cmdline: Seq<char>,
    pub stat: ProcStatView,
    pub io: Option<ProcIo>,
    pub fd_count: Option<usize>,
}

impl View for Proc {
    type V = ProcView;

    closed spec fn view(&self) -> ProcView {
        ProcView {
            pid: self.pid,
            exe: self.exe@,
            exe_base: self.exe_base@,
            cmdline: self.cmdline@,
            stat: self.stat@,
            io: self.io,
            fd_count: self.fd_count,
        }
    }
}

impl Clone for Proc {
    fn clone(&self) -> (r: Proc)
        ensures
            r@ == self@,
    {
        Proc {
            pid: self.pid,
            exe: self.exe.clone(),
            exe_base: self.exe_base.clone(),
            cmdline: self.cmdline.clone(),
            stat: self.stat.clone(),
            io: self.io,
            fd_count: self.fd_count,
        }
    }
}

/// The place behind the last `/` of a path: 0 where it has none.
pub open spec fn base_start(path: Seq<char>) -> int
    decreases path.len(),
{
    if path.len() == 0 {
        0
    } else if path.last() == '/' {
        path.len() as int
    } else {
        base_start(path.drop_last())
    }
}

/// What stands behind the last `/` of a path; the whole path where it has
/// none.
pub open spec fn base_name(path: Seq<char>) -> Seq<char> {
    path.subrange(base_start(path), path.len() as int)
}

/// The words of a command line with one space between each two.
pub open spec fn joined(words: Seq<Seq<char>>) -> Seq<char>
    decreases words.len(),
{
    if words.len() == 0 {
        Seq::empty()
    } else if words.len() == 1 {
        words[0]
    } else {
        joined(words.drop_last()) + seq![' '] + words.last()
    }
}

/// The characters of each word.
pub open spec fn word_views(words: Seq<String>) -> Seq<Seq<char>> {
    words.map_values(|word: String| word@)
}

/// What stands behind the last `/` of a path.
pub fn file_name(path: &str) -> (r: String)
    ensures
        r@ == base_name(path@),
{
    let total = path.unicode_len();
    let mut start: usize = 0;
    let mut count: usize = 0;
    let ghost mut seen: Seq<char> = Seq::empty();
    for c in it: path.chars()
        invariant
            it.seq() == path@,
            count == it.index(),
            seen == path@.subrange(0, it.index() as int),
            start == base_start(seen),
            start <= count,
            path@.len() == total,
    {
        proof {
            let longer = path@.subrange(0, it.index() + 1);
            assert(longer.drop_last() =~= seen);
            assert(longer.last() == c);
            seen = longer;
        }
        count = count + 1;
        if c == '/' {
            start = count;
        }
    }
    proof {
        assert(seen =~= path@);
    }
    path.substring_char(start, total).to_owned()
}

/// Joins the words of a command line with spaces.
pub fn join_words(words: &Vec<String>) -> (r: String)
    ensures
        r@ == joined(word_views(words@)),
{
    let mut line = String::new();
    let mut i: usize = 0;
    proof {
        reveal_strlit(" ");
    }
    while i < words.len()
        invariant
            i <= words.len(),
            " "@ == seq![' '],
            line@ == joined(word_views(words@).subrange(0, i as int)),
        decreases words.len() - i,
    {
        let ghost done = word_views(words@).subrange(0, i as int);
        let ghost next = word_views(words@).subrange(0, i + 1);
        proof {
            assert(next.drop_last() =~= done);
            assert(next.last() == words@[i as int]@);
        }
        if i > 0 {
            line.append(" ");
            line.append(words[i].as_str());
        } else {
            line.append(words[i].as_str());
            proof {
                assert(line@ =~= words@[i as int]@);
                assert(next[0] == words@[i as int]@);
            }
        }
        i = i + 1;
    }
    proof {
        assert(word_views(words@).subrange(0, i as int) =~= word_views(words@));
    }
    line
}

impl Proc {
    /// A snapshot with everything given; the file name of the executable is
    /// what stands behind the last `/` of its path.
    pub fn new(
        pid: i32,
        exe: String,
        cmdline: String,
        stat: ProcStat,
        io: Option<ProcIo>,
        fd_count: Option<usize>,
    ) -> (r: Proc)
        ensures
            r@ == (ProcView {
                pid,
                exe: exe@,
                exe_base: base_name(exe@),
                cmdline: cmdline@,
                stat: stat@,
                io,
                fd_count,
            }),
    {
        let exe_base = file_name(exe.as_str());
        Proc { pid, exe, exe_base, cmdline, stat, io, fd_count }
    }

    /// The snapshot that is taken of every process before any rule has seen
    /// it: the command line is the arguments joined by spaces, and the I/O
    /// counters and the number of open files are absent.
    pub fn from_parts(
        pid: i32,
        exe: String,
        exe_base: String,
        arguments: &Vec<String>,
        stat: ProcStat,
    ) -> (r: Proc)
        ensures
            r@ == (ProcView {
                pid,
                exe: exe@,
                exe_base: exe_base@,
                cmdline: joined(word_views(arguments@)),
                stat: stat@,
                io: None,
                fd_count: None,
            }),
    {
        let cmdline = join_words(arguments);
        Proc { pid, exe, exe_base, cmdline, stat, io: None, fd_count: None }
    }

    /// The process id.
    pub fn pid(&self) -> (r: i32)
        ensures
            r == self@.pid,
    {
        self.pid
    }

    /// The full path of the executable.
    pub fn exe(&self) -> (r: &str)
        ensures
            r@ == self@.exe,
    {
        self.exe.as_str()
    }

    /// The file name of the executable.
    pub fn exe_base(&self) -> (r: &str)
        ensures
            r@ == self@.exe_base,
    {
        self.exe_base.as_str()
    }

    /// The command line, its arguments joined by spaces.
    pub fn cmdline(&self) -> (r: &str)
        ensures
            r@ == self@.cmdline,
    {
        self.cmdline.as_str()
    }

    /// The `stat` record.
    pub fn stat(&self) -> (r: &ProcStat)
        ensures
            r@ == self@.stat,
    {
        &self.stat
    }

    /// The I/O counters, once they were read.
    pub fn io(&self) -> (r: Option<ProcIo>)
        ensures
            r == self@.io,
    {
        self.io
    }

    /// The number of open files, once it was read.
    pub fn fd_count(&self) -> (r: Option<usize>)
        ensures
            r == self@.fd_count,
    {
        self.fd_count
    }

    /// The command name.
    pub fn comm(&self) -> (r: &str)
        ensures
            r@ == self@.stat.comm,
    {
        self.stat.comm.as_str()
    }

    /// What a rule matches of the process: the executable's path, its file
    /// name, the command name or the command line.
    pub fn value_for_matcher(&self, proc_matcher: &ProcessMatcher) -> (r: &str)
        ensures
            r@ == selected_value(proc_matcher.selector(), self@),
    {
        match proc_matcher {
            ProcessMatcher::Exe { .. } => self.exe(),
            ProcessMatcher::ExeBase { .. } => self.exe_base(),
            ProcessMatcher::Comm { .. } => self.comm(),
            ProcessMatcher::Cmdline { .. } => self.cmdline(),
        }
    }

    /// Fills in what is read only for an accepted process.
    pub fn gather_remaining_info(&mut self, io: ProcIo, fd_count: usize)
        ensures
            final(self)@ == (ProcView { io: Some(io), fd_count: Some(fd_count), ..old(self)@ }),
    {
        self.io = Some(io);
        self.fd_count = Some(fd_count);
    }
}

/// What a selector picks of a process.
pub open spec fn selected_value(selector: Selector, process: ProcView) -> Seq<char> {
    match selector {
        Selector::Exe => process.exe,
        Selector::ExeBase => process.exe_base,
        Selector::Comm => process.stat.comm,
        Selector::Cmdline => process.cmdline,
    }
}

} // verus!
