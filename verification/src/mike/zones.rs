//! Per-zone memory budget tracking.

use vstd::prelude::*;

verus! {

/// Named memory zones for budget tracking.
#[derive(Debug, Clone, Copy, PartialEq, Eq, Structural)]
pub enum MemoryZone {
    Inference,
    Cache,
    State,
    ScreenBuffer,
    BrowserSession,
}

/// The name a zone is shown under.
pub open spec fn zone_name(z: MemoryZone) -> Seq<char> {
    match z {
        MemoryZone::Inference => "inference"@,
        MemoryZone::Cache => "cache"@,
        MemoryZone::State => "state"@,
        MemoryZone::ScreenBuffer => "screen_buffer"@,
        MemoryZone::BrowserSession => "browser_session"@,
    }
}

impl MemoryZone {
    /// The zone's name: `inference`, `cache`, `state`, `screen_buffer` or
    /// `browser_session`.
    pub fn as_str(&self) -> (s: &'static str)
        ensures
            s@ == zone_name(*self),
    {
        match self {
            MemoryZone::Inference => "inference",
            MemoryZone::Cache => "cache",
            MemoryZone::State => "state",
            MemoryZone::ScreenBuffer => "screen_buffer",
            MemoryZone::BrowserSession => "browser_session",
        }
    }
}

/// Estimated bytes in use per zone.
pub struct ZoneTracker {
    inference: u64,
    cache: u64,
    state: u64,
    screen: u64,
    browser: u64,
}

impl ZoneTracker {
    /// The bytes recorded for a zone.
    pub closed spec fn value(&self, z: MemoryZone) -> u64 {
        match z {
            MemoryZone::Inference => self.inference,
            MemoryZone::Cache => self.cache,
            MemoryZone::State => self.state,
            MemoryZone::ScreenBuffer => self.screen,
            MemoryZone::BrowserSession => self.browser,
        }
    }

    /// The sum over all zones.
    pub open spec fn sum(&self) -> int {
        self.value(MemoryZone::Inference) + self.value(MemoryZone::Cache) + self.value(
            MemoryZone::State,
        ) + self.value(MemoryZone::ScreenBuffer) + self.value(MemoryZone::BrowserSession)
    }

    /// A tracker with every zone at zero.
    pub fn new() -> (t: ZoneTracker)
        ensures
            forall|z: MemoryZone| #[trigger] t.value(z) == 0,
    {
        ZoneTracker { inference: 0, cache: 0, state: 0, screen: 0, browser: 0 }
    }

    /// Records `bytes` for `zone`; the other zones keep their values.
    pub fn set(&mut self, zone: MemoryZone, bytes: u64)
        ensures
            final(self).value(zone) == bytes,
            forall|z: MemoryZone| z != zone ==> #[trigger] final(self).value(z) == old(self).value(z),
    {
        match zone {
            MemoryZone::Inference => self.inference = bytes,
            MemoryZone::Cache => self.cache = bytes,
            MemoryZone::State => self.state = bytes,
            MemoryZone::ScreenBuffer => self.screen = bytes,
            MemoryZone::BrowserSession => self.browser = bytes,
        }
    }

    /// The bytes recorded for `zone`.
    pub fn get(&self, zone: MemoryZone) -> (b: u64)
        ensures
            b == self.value(zone),
    {
        match zone {
            MemoryZone::Inference => self.inference,
            MemoryZone::Cache => self.cache,
            MemoryZone::State => self.state,
            MemoryZone::ScreenBuffer => self.screen,
            MemoryZone::BrowserSession => self.browser,
        }
    }

    /// The bytes recorded over all zones.
    pub fn total(&self) -> (b: u64)
        requires
            self.sum() <= u64::MAX,
        ensures
            b == self.sum(),
    {
        self.get(MemoryZone::Inference) + self.get(MemoryZone::Cache) + self.get(MemoryZone::State)
            + self.get(MemoryZone::ScreenBuffer) + self.get(MemoryZone::BrowserSession)
    }

    /// Sets `zone` back to zero; the other zones keep their values.
    pub fn clear(&mut self, zone: MemoryZone)
        ensures
            final(self).value(zone) == 0,
            forall|z: MemoryZone| z != zone ==> #[trigger] final(self).value(z) == old(self).value(z),
    {
        self.set(zone, 0);
    }
}

impl Default for ZoneTracker {
    fn default() -> (t: ZoneTracker)
        ensures
            forall|z: MemoryZone| #[trigger] t.value(z) == 0,
    {
        ZoneTracker::new()
    }
}

/// What a zone reads after a write is what was written, whatever the other
/// zones hold, and writing one zone changes the total by the difference.
pub proof fn lemma_set_then_total(before: ZoneTracker, after: ZoneTracker, zone: MemoryZone, bytes: u64)
    requires
        after.value(zone) == bytes,
        forall|z: MemoryZone| z != zone ==> #[trigger] after.value(z) == before.value(z),
    ensures
        after.sum() == before.sum() - before.value(zone) + bytes,
{
    assert(MemoryZone::Inference != zone ==> after.value(MemoryZone::Inference) == before.value(
        MemoryZone::Inference,
    ));
    assert(MemoryZone::Cache != zone ==> after.value(MemoryZone::Cache) == before.value(
        MemoryZone::Cache,
    ));
    assert(MemoryZone::State != zone ==> after.value(MemoryZone::State) == before.value(
        MemoryZone::State,
    ));
    assert(MemoryZone::ScreenBuffer != zone ==> after.value(MemoryZone::ScreenBuffer)
        == before.value(MemoryZone::ScreenBuffer));
    assert(MemoryZone::BrowserSession != zone ==> after.value(MemoryZone::BrowserSession)
        == before.value(MemoryZone::BrowserSession));
}

} // verus!
