//! Memory manager: RSS monitoring, zone tracking and pressure-aware limits.

pub mod db;
pub mod monitor;
pub mod zones;

use crate::mike::monitor::MemoryMonitor;
use crate::mike::zones::{MemoryZone, ZoneTracker};
use crate::saul::config::Config;
use crate::text::{decimal, owned, push_decimal, push_str};
use vstd::prelude::*;

verus! {

/// Memory pressure, by RSS as a share of the cap: under 60% Normal, under
/// 80% Elevated, under 95% High, else Critical.
#[derive(Debug, Clone, Copy, PartialEq, Eq, PartialOrd, Ord, Structural)]
pub enum MemoryPressure {
    Normal,
    Elevated,
    High,
    Critical,
}

/// The pressure at `rss` bytes under a cap of `max` bytes.
pub open spec fn pressure_of(rss: u64, max: u64) -> MemoryPressure {
    if 100 * rss < 60 * max {
        MemoryPressure::Normal
    } else if 100 * rss < 80 * max {
        MemoryPressure::Elevated
    } else if 100 * rss < 95 * max {
        MemoryPressure::High
    } else {
        MemoryPressure::Critical
    }
}

/// The severity of a pressure level, from 0 (Normal) to 3 (Critical).
pub open spec fn level(p: MemoryPressure) -> nat {
    match p {
        MemoryPressure::Normal => 0,
        MemoryPressure::Elevated => 1,
        MemoryPressure::High => 2,
        MemoryPressure::Critical => 3,
    }
}

/// The context to use under a pressure: all of it when Normal, three
/// quarters when Elevated, half when High, a quarter when Critical.
pub open spec fn context_for(p: MemoryPressure, default: u32) -> u32 {
    match p {
        MemoryPressure::Normal => default,
        MemoryPressure::Elevated => (default as nat * 3 / 4) as u32,
        MemoryPressure::High => default / 2,
        MemoryPressure::Critical => default / 4,
    }
}

/// The marker shown with a pressure level.
pub open spec fn pressure_emoji(p: MemoryPressure) -> Seq<char> {
    match p {
        MemoryPressure::Normal => "🟢"@,
        MemoryPressure::Elevated => "🟡"@,
        MemoryPressure::High => "🟠"@,
        MemoryPressure::Critical => "🔴"@,
    }
}

impl MemoryPressure {
    /// The pressure at `rss` bytes under a cap of `max` bytes.
    pub fn from_usage(rss: u64, max: u64) -> (p: MemoryPressure)
        ensures
            p == pressure_of(rss, max),
    {
        let r = (rss as u128) * 100;
        let m = max as u128;
        if r < 60 * m {
            MemoryPressure::Normal
        } else if r < 80 * m {
            MemoryPressure::Elevated
        } else if r < 95 * m {
            MemoryPressure::High
        } else {
            MemoryPressure::Critical
        }
    }

    /// A coloured marker for the level.
    pub fn emoji(&self) -> (s: &'static str)
        ensures
            s@ == pressure_emoji(*self),
    {
        match self {
            MemoryPressure::Normal => "🟢",
            MemoryPressure::Elevated => "🟡",
            MemoryPressure::High => "🟠",
            MemoryPressure::Critical => "🔴",
        }
    }
}

/// The context to use under a pressure, from the default.
pub fn scaled_context(p: MemoryPressure, default: u32) -> (c: u32)
    ensures
        c == context_for(p, default),
{
    match p {
        MemoryPressure::Normal => default,
        MemoryPressure::Elevated => ((default as u64) * 3 / 4) as u32,
        MemoryPressure::High => default / 2,
        MemoryPressure::Critical => default / 4,
    }
}

/// Memory left for inference: the cap minus the larger of the RSS and the
/// zones' total outside the inference zone, floored at zero.
pub open spec fn available(rss: u64, zones_total: u64, inference: u64, max: u64) -> u64 {
    let overhead = if zones_total >= inference {
        (zones_total - inference) as u64
    } else {
        0
    };
    let used = if overhead >= rss {
        overhead
    } else {
        rss
    };
    if max >= used {
        (max - used) as u64
    } else {
        0
    }
}

/// Memory left for inference at a given RSS and zone accounting.
pub fn available_memory(rss: u64, zones_total: u64, inference: u64, max: u64) -> (b: u64)
    ensures
        b == available(rss, zones_total, inference, max),
{
    let overhead = zones_total.saturating_sub(inference);
    let used = if overhead >= rss {
        overhead
    } else {
        rss
    };
    max.saturating_sub(used)
}

/// Why the memory cap check failed.
#[derive(Debug, Clone, Copy, PartialEq, Eq, Structural)]
pub enum MemoryError {
    /// The RSS (first) is over the cap (second).
    CapExceeded(u64, u64),
}

/// The text of a memory error.
pub open spec fn memory_error_text(e: MemoryError) -> Seq<char> {
    match e {
        MemoryError::CapExceeded(rss, max) => "Memory cap exceeded: "@ + decimal(rss as nat)
            + " bytes > "@ + decimal(max as nat) + " cap"@,
    }
}

impl MemoryError {
    /// The error's text, such as `Memory cap exceeded: 5 bytes > 4 cap`.
    pub fn message(&self) -> (s: String)
        ensures
            s@ == memory_error_text(*self),
    {
        match self {
            MemoryError::CapExceeded(rss, max) => {
                let mut s = owned("Memory cap exceeded: ");
                push_decimal(&mut s, *rss);
                push_str(&mut s, " bytes > ");
                push_decimal(&mut s, *max);
                push_str(&mut s, " cap");
                s
            },
        }
    }
}

/// The cap check at `rss` bytes under a cap of `max`: over the cap is an
/// error that names both.
pub open spec fn cap_check(rss: u64, max: u64) -> Result<(), MemoryError> {
    if rss > max {
        Err(MemoryError::CapExceeded(rss, max))
    } else {
        Ok(())
    }
}

/// The cap check at a given RSS: an error exactly when the RSS is over it.
pub fn check_cap(rss: u64, max: u64) -> (r: Result<(), MemoryError>)
    ensures
        r is Err <==> rss > max,
        r matches Err(e) ==> e == MemoryError::CapExceeded(rss, max),
        r == cap_check(rss, max),
{
    if rss > max {
        Err(MemoryError::CapExceeded(rss, max))
    } else {
        Ok(())
    }
}

/// The memory manager: the cap, the RSS monitor, zone accounting and an
/// eviction counter.
pub struct Mike {
    pub max_bytes: u64,
    pub monitor: MemoryMonitor,
    pub zones: ZoneTracker,
    eviction_count: u64,
}

impl Mike {
    /// The number of evictions recorded.
    pub closed spec fn evictions(&self) -> u64 {
        self.eviction_count
    }

    /// The cap in bytes.
    pub closed spec fn cap(&self) -> u64 {
        self.max_bytes
    }

    /// The zone accounting.
    pub closed spec fn zone_view(&self) -> ZoneTracker {
        self.zones
    }

    /// The RSS monitor.
    pub closed spec fn monitor_view(&self) -> MemoryMonitor {
        self.monitor
    }

    /// A manager with the configured cap and polling interval, empty zones
    /// and no evictions.
    pub fn new(cfg: &Config) -> (m: Mike)
        ensures
            m.cap() == cfg.agent.max_ram_bytes,
            m.monitor_view().interval() == cfg.agent.memory_poll_interval_ms,
            forall|z: MemoryZone| #[trigger] m.zone_view().value(z) == 0,
            m.evictions() == 0,
    {
        Mike {
            max_bytes: cfg.agent.max_ram_bytes,
            monitor: MemoryMonitor::new(cfg.agent.memory_poll_interval_ms),
            zones: ZoneTracker::new(),
            eviction_count: 0,
        }
    }

    /// The pressure at the cached RSS.
    pub fn pressure(&self) -> (p: MemoryPressure)
        ensures
            exists|rss: u64| p == pressure_of(rss, self.cap()),
    {
        let rss = self.monitor.current_rss_bytes();
        let p = MemoryPressure::from_usage(rss, self.max_bytes);
        assert(p == pressure_of(rss, self.cap()));
        p
    }

    /// The cached RSS in bytes.
    pub fn rss_bytes(&self) -> u64 {
        self.monitor.current_rss_bytes()
    }

    /// Refreshes the RSS and fails when it is over the cap: the result is
    /// the cap check at the reading taken.
    pub fn enforce_cap(&self) -> (r: Result<(), MemoryError>)
        ensures
            exists|rss: u64| #[trigger] cap_check(rss, self.cap()) == r,
    {
        self.monitor.refresh();
        let rss = self.rss_bytes();
        let r = check_cap(rss, self.max_bytes);
        assert(cap_check(rss, self.cap()) == r);
        r
    }

    /// Memory left for inference at the cached RSS.
    pub fn available_for_inference(&self) -> (b: u64)
        requires
            self.zone_view().sum() <= u64::MAX,
        ensures
            exists|rss: u64|
                b == #[trigger] available(
                    rss,
                    self.zone_view().sum() as u64,
                    self.zone_view().value(MemoryZone::Inference),
                    self.cap(),
                ),
    {
        let rss = self.rss_bytes();
        let b = available_memory(
            rss,
            self.zones.total(),
            self.zones.get(MemoryZone::Inference),
            self.max_bytes,
        );
        assert(b == available(
            rss,
            self.zone_view().sum() as u64,
            self.zone_view().value(MemoryZone::Inference),
            self.cap(),
        ));
        b
    }

    /// The number of evictions recorded.
    pub fn eviction_count(&self) -> (n: u64)
        ensures
            n == self.evictions(),
    {
        self.eviction_count
    }

    /// Records one eviction (the counter wraps at `u64::MAX`).
    pub fn record_eviction(&mut self)
        ensures
            final(self).evictions() == (if old(self).evictions() == u64::MAX {
                0
            } else {
                (old(self).evictions() + 1) as u64
            }),
            final(self).cap() == old(self).cap(),
            final(self).zone_view() == old(self).zone_view(),
            final(self).monitor_view() == old(self).monitor_view(),
    {
        self.eviction_count = self.eviction_count.wrapping_add(1);
    }

    /// The context to use at a reading of `rss` bytes: `default` scaled by
    /// the pressure that reading puts on the cap.
    pub fn context_for_reading(&self, rss: u64, default: u32) -> (c: u32)
        ensures
            c == context_for(pressure_of(rss, self.cap()), default),
    {
        scaled_context(MemoryPressure::from_usage(rss, self.max_bytes), default)
    }

    /// The context to use now: refreshes the RSS and scales `default` by
    /// the pressure at the reading taken.
    pub fn recommended_context_size(&self, default: u32) -> (c: u32)
        ensures
            exists|rss: u64| c == context_for(pressure_of(rss, self.cap()), default),
    {
        self.monitor.refresh();
        let rss = self.rss_bytes();
        self.context_for_reading(rss, default)
    }
}

/// Pressure never falls as the RSS grows under a fixed cap.
pub proof fn lemma_pressure_monotone(a: u64, b: u64, max: u64)
    requires
        a <= b,
    ensures
        level(pressure_of(a, max)) <= level(pressure_of(b, max)),
{
}

/// The recommended context never exceeds the default and shrinks as the
/// pressure rises.
pub proof fn lemma_context_shrinks(p: MemoryPressure, q: MemoryPressure, default: u32)
    requires
        level(p) <= level(q),
    ensures
        context_for(p, default) <= default,
        context_for(q, default) <= context_for(p, default),
{
}

/// Below 60% of the cap the full default context is kept, at or above 95%
/// only a quarter, and in between never more than the default.
pub proof fn lemma_context_at_reading(rss: u64, max: u64, default: u32)
    ensures
        100 * rss < 60 * max ==> context_for(pressure_of(rss, max), default) == default,
        100 * rss >= 95 * max ==> context_for(pressure_of(rss, max), default) == default / 4,
        context_for(pressure_of(rss, max), default) <= default,
{
}

/// Memory left for inference never exceeds the cap, and a larger RSS never
/// leaves more.
pub proof fn lemma_available_bounded(rss: u64, more: u64, total: u64, inference: u64, max: u64)
    requires
        rss <= more,
    ensures
        available(rss, total, inference, max) <= max,
        available(more, total, inference, max) <= available(rss, total, inference, max),
{
}

} // verus!
