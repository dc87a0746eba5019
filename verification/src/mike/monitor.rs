//! Sampling this process's resident set size (RSS) and caching it where
//! background tasks can refresh it.

use std::sync::Arc;
use vstd::prelude::*;
use vstd::rwlock::{RwLock, RwLockPredicate};

verus! {

#[verifier::external_type_specification]
#[verifier::external_body]
pub struct ExSystem(sysinfo::System);

#[verifier::external_type_specification]
#[verifier::external_body]
pub struct ExPid(sysinfo::Pid);

#[verifier::external_type_specification]
#[verifier::external_body]
pub struct ExProcess(sysinfo::Process);

/// Calls `sysinfo::get_current_pid`; `None` where the platform cannot tell.
#[verifier::external_body]
fn current_pid() -> Option<sysinfo::Pid> {
    sysinfo::get_current_pid().ok()
}

/// Calls `sysinfo::System::new`: a system view with nothing loaded yet.
#[verifier::external_body]
fn new_system() -> sysinfo::System {
    sysinfo::System::new()
}

/// Calls `sysinfo::System::refresh_all`, which reloads every reading.
#[verifier::external_body]
fn refresh_all(sys: &mut sysinfo::System) {
    sys.refresh_all()
}

/// Calls `sysinfo::System::process`: the process with `pid`, if it is listed.
#[verifier::external_body]
fn find_process(sys: &sysinfo::System, pid: sysinfo::Pid) -> Option<&sysinfo::Process> {
    sys.process(pid)
}

/// Calls `sysinfo::Process::memory`: the process's resident set size in bytes.
#[verifier::external_body]
fn process_memory(p: &sysinfo::Process) -> u64 {
    p.memory()
}

/// The current RSS of this process in bytes; 0 when it cannot be read.
fn sample_rss() -> u64 {
    match current_pid() {
        None => 0,
        Some(pid) => {
            let mut sys = new_system();
            refresh_all(&mut sys);
            match find_process(&sys, pid) {
                Some(p) => process_memory(p),
                None => 0,
            }
        },
    }
}

/// Any `u64` may be cached.
pub struct AnyReading;

impl RwLockPredicate<u64> for AnyReading {
    open spec fn inv(self, v: u64) -> bool {
        true
    }
}

/// Polls the process RSS and caches the last reading; handles made with
/// `clone_inner` share the cache.
pub struct MemoryMonitor {
    poll_interval_ms: u64,
    inner: Arc<RwLock<u64, AnyReading>>,
}

/// A handle on a monitor's cache, for background refreshing.
pub struct MemoryMonitorHandle {
    inner: Arc<RwLock<u64, AnyReading>>,
}

fn read_cache(cell: &RwLock<u64, AnyReading>) -> u64 {
    let guard = cell.acquire_read();
    let v = *guard.borrow();
    guard.release_read();
    v
}

fn write_cache(cell: &RwLock<u64, AnyReading>, v: u64) {
    let (_old, guard) = cell.acquire_write();
    guard.release_write(v);
}

impl MemoryMonitor {
    /// A monitor polling every `poll_interval_ms`, with a first reading cached.
    pub fn new(poll_interval_ms: u64) -> (m: MemoryMonitor)
        ensures
            m.interval() == poll_interval_ms,
    {
        let first = sample_rss();
        MemoryMonitor {
            poll_interval_ms,
            inner: Arc::new(RwLock::new(first, Ghost(AnyReading))),
        }
    }

    /// The polling interval in milliseconds.
    pub closed spec fn interval(&self) -> u64 {
        self.poll_interval_ms
    }

    /// The cache a monitor shares with its handles.
    pub closed spec fn cache(&self) -> RwLock<u64, AnyReading> {
        *self.inner
    }

    /// The cached RSS in bytes (as last refreshed by this monitor or a handle).
    pub fn current_rss_bytes(&self) -> u64 {
        read_cache(&self.inner)
    }

    /// Samples the RSS now and caches it.
    pub fn refresh(&self) {
        let rss = sample_rss();
        write_cache(&self.inner, rss);
    }

    /// The polling interval in milliseconds.
    pub fn poll_interval_ms(&self) -> (ms: u64)
        ensures
            ms == self.interval(),
    {
        self.poll_interval_ms
    }

    /// A handle that shares this monitor's cache.
    pub fn clone_inner(&self) -> (h: MemoryMonitorHandle)
        ensures
            h.cache() == self.cache(),
    {
        MemoryMonitorHandle { inner: Arc::clone(&self.inner) }
    }
}

impl MemoryMonitorHandle {
    /// The cache this handle refreshes.
    pub closed spec fn cache(&self) -> RwLock<u64, AnyReading> {
        *self.inner
    }

    /// The cached RSS in bytes.
    pub fn current_rss_bytes(&self) -> u64 {
        read_cache(&self.inner)
    }

    /// Samples the RSS now and caches it.
    pub fn refresh(&self) {
        let rss = sample_rss();
        write_cache(&self.inner, rss);
    }
}

} // verus!
