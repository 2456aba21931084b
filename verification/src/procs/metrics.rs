//! The metrics of a group of processes.

use crate::procs::{Proc, ProcView};
use crate::render::Named;
use vstd::prelude::*;
use vstd::string::StringExecFns;

verus! {

/// What a group of processes adds up to. Every sum stops at the largest
/// `u64` instead of wrapping around.
#[derive(Debug, PartialEq, Eq)]
pub struct ProcessMetrics {
    /// The name of the group.
    pub name: String,
    /// The number of processes.
    pub num_procs: u64,
    /// The number of threads.
    pub num_threads: u64,
    /// Time spent in user mode, in clock ticks.
    pub cpu_user_ticks: u64,
    /// Time spent in kernel mode, in clock ticks.
    pub cpu_system_ticks: u64,
    /// Resident memory, in pages.
    pub memory_resident_pages: u64,
    /// Virtual memory, in bytes.
    pub memory_virtual_bytes: u64,
    /// Bytes fetched from storage.
    pub io_read_bytes: u64,
    /// Bytes sent to storage.
    pub io_write_bytes: u64,
    /// Open file descriptors.
    pub open_fds: u64,
}

/// The metrics of a group by their contents.
pub struct ProcessMetricsView {
    pub name: Seq<char>,
    pub num_procs: u64,
    pub num_threads: u64,
    pub cpu_user_ticks: u64,
    pub cpu_system_ticks: u64,
    pub memory_resident_pages: u64,
    pub memory_virtual_bytes: u64,
    pub io_read_bytes: u64,
    pub io_write_bytes: u64,
    pub open_fds: u64,
}

impl View for ProcessMetrics {
    type V = ProcessMetricsView;

    open spec fn view(&self) -> ProcessMetricsView {
        ProcessMetricsView {
            name: self.name@,
            num_procs: self.num_procs,
            num_threads: self.num_threads,
            cpu_user_ticks: self.cpu_user_ticks,
            cpu_system_ticks: self.cpu_system_ticks,
            memory_resident_pages: self.memory_resident_pages,
            memory_virtual_bytes: self.memory_virtual_bytes,
            io_read_bytes: self.io_read_bytes,
            io_write_bytes: self.io_write_bytes,
            open_fds: self.open_fds,
        }
    }
}

impl Named for ProcessMetrics {
    fn name(&self) -> (r: &str)
        ensures
            r@ == self.name@,
    {
        self.name.as_str()
    }
}

/// A total as it is exported: itself, or the largest `u64` where it is
/// larger.
pub open spec fn capped(total: nat) -> u64 {
    if total > u64::MAX {
        u64::MAX
    } else {
        total as u64
    }
}

/// The sum of a counter over processes.
pub open spec fn total(processes: Seq<ProcView>, counter: spec_fn(ProcView) -> nat) -> nat
    decreases processes.len(),
{
    if processes.len() == 0 {
        0
    } else {
        total(processes.drop_last(), counter) + counter(processes.last())
    }
}

/// The threads of a process; none where the kernel reports a negative
/// number.
pub open spec fn threads_of(process: ProcView) -> nat {
    if process.stat.num_threads < 0 {
        0
    } else {
        process.stat.num_threads as nat
    }
}

/// The bytes that a process fetched from storage; none while its I/O
/// counters were not read.
pub open spec fn read_bytes_of(process: ProcView) -> nat {
    match process.io {
        Some(io) => io.read_bytes as nat,
        None => 0,
    }
}

/// The bytes that a process sent to storage; none while its I/O counters
/// were not read.
pub open spec fn write_bytes_of(process: ProcView) -> nat {
    match process.io {
        Some(io) => io.write_bytes as nat,
        None => 0,
    }
}

/// The open files of a process; none while they were not counted.
pub open spec fn open_fds_of(process: ProcView) -> nat {
    match process.fd_count {
        Some(count) => count as nat,
        None => 0,
    }
}

/// The metrics of a group of processes under a name.
pub open spec fn aggregate(processes: Seq<ProcView>, name: Seq<char>) -> ProcessMetricsView {
    ProcessMetricsView {
        name,
        num_procs: capped(processes.len()),
        num_threads: capped(total(processes, |p: ProcView| threads_of(p))),
        cpu_user_ticks: capped(total(processes, |p: ProcView| p.stat.utime as nat)),
        cpu_system_ticks: capped(total(processes, |p: ProcView| p.stat.stime as nat)),
        memory_resident_pages: capped(total(processes, |p: ProcView| p.stat.rss as nat)),
        memory_virtual_bytes: capped(total(processes, |p: ProcView| p.stat.vsize as nat)),
        io_read_bytes: capped(total(processes, |p: ProcView| read_bytes_of(p))),
        io_write_bytes: capped(total(processes, |p: ProcView| write_bytes_of(p))),
        open_fds: capped(total(processes, |p: ProcView| open_fds_of(p))),
    }
}

/// The views of a list of snapshots.
pub open spec fn proc_views(processes: Seq<Proc>) -> Seq<ProcView> {
    processes.map_values(|process: Proc| process@)
}

/// Adding one more process to a capped sum.
proof fn lemma_total_step(
    processes: Seq<ProcView>,
    counter: spec_fn(ProcView) -> nat,
    so_far: u64,
    count: int,
)
    requires
        0 <= count < processes.len(),
        so_far == capped(total(processes.subrange(0, count), counter)),
        counter(processes[count]) <= u64::MAX,
    ensures
        so_far.saturating_add(counter(processes[count]) as u64) == capped(
            total(processes.subrange(0, count + 1), counter),
        ),
{
    let longer = processes.subrange(0, count + 1);
    assert(longer.drop_last() =~= processes.subrange(0, count));
    assert(longer.last() == processes[count]);
}

impl ProcessMetrics {
    /// Adds up the counters of a group of processes.
    pub fn from_processes(processes: &Vec<Proc>, name: &str) -> (r: ProcessMetrics)
        ensures
            r@ == aggregate(proc_views(processes@), name@),
    {
        let ghost views = proc_views(processes@);
        let mut num_threads: u64 = 0;
        let mut cpu_user_ticks: u64 = 0;
        let mut cpu_system_ticks: u64 = 0;
        let mut memory_resident_pages: u64 = 0;
        let mut memory_virtual_bytes: u64 = 0;
        let mut io_read_bytes: u64 = 0;
        let mut io_write_bytes: u64 = 0;
        let mut open_fds: u64 = 0;
        let mut i: usize = 0;
        while i < processes.len()
            invariant
                i <= processes.len(),
                views == proc_views(processes@),
                num_threads == capped(total(views.subrange(0, i as int), |p: ProcView| threads_of(p))),
                cpu_user_ticks == capped(
                    total(views.subrange(0, i as int), |p: ProcView| p.stat.utime as nat),
                ),
                cpu_system_ticks == capped(
                    total(views.subrange(0, i as int), |p: ProcView| p.stat.stime as nat),
                ),
                memory_resident_pages == capped(
                    total(views.subrange(0, i as int), |p: ProcView| p.stat.rss as nat),
                ),
                memory_virtual_bytes == capped(
                    total(views.subrange(0, i as int), |p: ProcView| p.stat.vsize as nat),
                ),
                io_read_bytes == capped(
                    total(views.subrange(0, i as int), |p: ProcView| read_bytes_of(p)),
                ),
                io_write_bytes == capped(
                    total(views.subrange(0, i as int), |p: ProcView| write_bytes_of(p)),
                ),
                open_fds == capped(total(views.subrange(0, i as int), |p: ProcView| open_fds_of(p))),
            decreases processes.len() - i,
        {
            let process = &processes[i];
            let stat = process.stat();
            let threads: u64 = if stat.num_threads < 0 {
                0
            } else {
                stat.num_threads as u64
            };
            let (read, written): (u64, u64) = match process.io() {
                Some(io) => (io.read_bytes, io.write_bytes),
                None => (0, 0),
            };
            let fds: u64 = match process.fd_count() {
                Some(count) => count as u64,
                None => 0,
            };
            proof {
                assert(views[i as int] == process@);
                lemma_total_step(views, |p: ProcView| threads_of(p), num_threads, i as int);
                lemma_total_step(views, |p: ProcView| p.stat.utime as nat, cpu_user_ticks, i as int);
                lemma_total_step(
                    views,
                    |p: ProcView| p.stat.stime as nat,
                    cpu_system_ticks,
                    i as int,
                );
                lemma_total_step(
                    views,
                    |p: ProcView| p.stat.rss as nat,
                    memory_resident_pages,
                    i as int,
                );
                lemma_total_step(
                    views,
                    |p: ProcView| p.stat.vsize as nat,
                    memory_virtual_bytes,
                    i as int,
                );
                lemma_total_step(views, |p: ProcView| read_bytes_of(p), io_read_bytes, i as int);
                lemma_total_step(views, |p: ProcView| write_bytes_of(p), io_write_bytes, i as int);
                lemma_total_step(views, |p: ProcView| open_fds_of(p), open_fds, i as int);
            }
            num_threads = num_threads.saturating_add(threads);
            cpu_user_ticks = cpu_user_ticks.saturating_add(stat.utime);
            cpu_system_ticks = cpu_system_ticks.saturating_add(stat.stime);
            memory_resident_pages = memory_resident_pages.saturating_add(stat.rss);
            memory_virtual_bytes = memory_virtual_bytes.saturating_add(stat.vsize);
            io_read_bytes = io_read_bytes.saturating_add(read);
            io_write_bytes = io_write_bytes.saturating_add(written);
            open_fds = open_fds.saturating_add(fds);
            i = i + 1;
        }
        proof {
            assert(views.subrange(0, i as int) =~= views);
        }
        ProcessMetrics {
            name: String::from_str(name),
            num_procs: processes.len() as u64,
            num_threads,
            cpu_user_ticks,
            cpu_system_ticks,
            memory_resident_pages,
            memory_virtual_bytes,
            io_read_bytes,
            io_write_bytes,
            open_fds,
        }
    }
}

} // verus!
