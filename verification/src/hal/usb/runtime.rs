//! What the interrupt handler of a USB controller reports to waiting tasks.
use vstd::prelude::*;

use super::{endpoint_mask, mask_of, mask_updates_one_bit, Direction, EndpointAddress};

verus! {

pub const EVENT_RESET: u32 = 1;

pub const EVENT_SUSPEND: u32 = 2;

pub const EVENT_RESUME: u32 = 4;

pub const EVENT_POWER_DETECTED: u32 = 8;

pub const EVENT_POWER_REMOVED: u32 = 16;

/// A bus event.
#[derive(Debug, Clone, Copy, PartialEq, Eq, Structural)]
pub enum Event {
    Reset,
    Suspend,
    Resume,
    PowerDetected,
    PowerRemoved,
}

impl Event {
    pub open spec fn flag(self) -> u32 {
        match self {
            Event::Reset => EVENT_RESET,
            Event::Suspend => EVENT_SUSPEND,
            Event::Resume => EVENT_RESUME,
            Event::PowerDetected => EVENT_POWER_DETECTED,
            Event::PowerRemoved => EVENT_POWER_REMOVED,
        }
    }
}

/// The event that is taken first out of `flags`.
pub open spec fn first_event(flags: u32) -> Option<Event> {
    if flags & EVENT_RESET != 0 {
        Some(Event::Reset)
    } else if flags & EVENT_SUSPEND != 0 {
        Some(Event::Suspend)
    } else if flags & EVENT_RESUME != 0 {
        Some(Event::Resume)
    } else if flags & EVENT_POWER_DETECTED != 0 {
        Some(Event::PowerDetected)
    } else if flags & EVENT_POWER_REMOVED != 0 {
        Some(Event::PowerRemoved)
    } else {
        None
    }
}

/// The event that a change of the power state gives.
pub open spec fn power_event(previous: bool, current: bool) -> Option<u32> {
    if !previous && current {
        Some(EVENT_POWER_DETECTED)
    } else if previous && !current {
        Some(EVENT_POWER_REMOVED)
    } else {
        None
    }
}

pub fn power_event_bits_for_transition(previous: bool, current: bool) -> (r: Option<u32>)
    ensures
        r == power_event(previous, current),
{
    match (previous, current) {
        (false, true) => Some(EVENT_POWER_DETECTED),
        (true, false) => Some(EVENT_POWER_REMOVED),
        _ => None,
    }
}

/// A port change reports a resume where a suspended port is connected.
pub fn port_change_event_bits(was_suspended: bool, connected: bool) -> (r: Option<u32>)
    ensures
        r == (if was_suspended && connected {
            Some(EVENT_RESUME)
        } else {
            None
        }),
{
    if was_suspended && connected {
        Some(EVENT_RESUME)
    } else {
        None
    }
}

/// State that the interrupt handler shares with waiting tasks.
#[derive(Debug, Clone, Copy, PartialEq, Eq, Structural)]
pub struct ControllerRuntime {
    pub event_flags: u32,
    pub enabled_out: u16,
    pub enabled_in: u16,
    pub stalled_out: u16,
    pub stalled_in: u16,
    pub completed_out: u16,
    pub completed_in: u16,
    pub reset_count: u32,
    pub suspended: bool,
    pub power_present: bool,
    pub failed: bool,
}

impl ControllerRuntime {
    pub open spec fn enabled(self, way: Direction) -> u16 {
        match way {
            Direction::Out => self.enabled_out,
            Direction::In => self.enabled_in,
        }
    }

    pub open spec fn stalled(self, way: Direction) -> u16 {
        match way {
            Direction::Out => self.stalled_out,
            Direction::In => self.stalled_in,
        }
    }

    pub open spec fn completed(self, way: Direction) -> u16 {
        match way {
            Direction::Out => self.completed_out,
            Direction::In => self.completed_in,
        }
    }

    pub open spec fn with_enabled(self, way: Direction, bits: u16) -> Self {
        match way {
            Direction::Out => ControllerRuntime { enabled_out: bits, ..self },
            Direction::In => ControllerRuntime { enabled_in: bits, ..self },
        }
    }

    pub open spec fn with_stalled(self, way: Direction, bits: u16) -> Self {
        match way {
            Direction::Out => ControllerRuntime { stalled_out: bits, ..self },
            Direction::In => ControllerRuntime { stalled_in: bits, ..self },
        }
    }

    pub open spec fn with_completed(self, way: Direction, bits: u16) -> Self {
        match way {
            Direction::Out => ControllerRuntime { completed_out: bits, ..self },
            Direction::In => ControllerRuntime { completed_in: bits, ..self },
        }
    }

    /// The endpoint is enabled.
    pub open spec fn enables(self, addr: EndpointAddress) -> bool {
        self.enabled(addr.way()) & mask_of(addr) != 0
    }

    /// The endpoint is stalled.
    pub open spec fn stalls(self, addr: EndpointAddress) -> bool {
        self.stalled(addr.way()) & mask_of(addr) != 0
    }

    /// A completion of the endpoint has not been taken.
    pub open spec fn has_completed(self, addr: EndpointAddress) -> bool {
        self.completed(addr.way()) & mask_of(addr) != 0
    }

    /// `addr` enabled or disabled.
    pub open spec fn enabling(self, addr: EndpointAddress, enabled: bool) -> Self {
        self.with_enabled(
            addr.way(),
            marked(self.enabled(addr.way()), mask_of(addr), enabled),
        )
    }

    /// `addr` stalled or not.
    pub open spec fn stalling(self, addr: EndpointAddress, stalled: bool) -> Self {
        self.with_stalled(
            addr.way(),
            marked(self.stalled(addr.way()), mask_of(addr), stalled),
        )
    }

    /// The completion of `addr` taken.
    pub open spec fn taking(self, addr: EndpointAddress) -> Self {
        self.with_completed(
            addr.way(),
            marked(self.completed(addr.way()), mask_of(addr), false),
        )
    }

    /// No endpoint enabled, stalled or completed.
    pub open spec fn without_endpoints(self) -> Self {
        ControllerRuntime {
            enabled_out: 0,
            enabled_in: 0,
            stalled_out: 0,
            stalled_in: 0,
            completed_out: 0,
            completed_in: 0,
            ..self
        }
    }

    pub open spec fn initial() -> Self {
        ControllerRuntime {
            event_flags: 0,
            enabled_out: 0,
            enabled_in: 0,
            stalled_out: 0,
            stalled_in: 0,
            completed_out: 0,
            completed_in: 0,
            reset_count: 0,
            suspended: false,
            power_present: false,
            failed: false,
        }
    }

    pub fn new() -> (r: Self)
        ensures
            r == Self::initial(),
    {
        ControllerRuntime {
            event_flags: 0,
            enabled_out: 0,
            enabled_in: 0,
            stalled_out: 0,
            stalled_in: 0,
            completed_out: 0,
            completed_in: 0,
            reset_count: 0,
            suspended: false,
            power_present: false,
            failed: false,
        }
    }

    pub fn push_event(&mut self, bits: u32)
        ensures
            *final(self) == (ControllerRuntime {
                event_flags: old(self).event_flags | bits,
                ..*old(self)
            }),
    {
        self.event_flags = self.event_flags | bits;
    }

    /// Forgets the events that were not taken.
    pub fn clear_events(&mut self)
        ensures
            *final(self) == (ControllerRuntime { event_flags: 0, ..*old(self) }),
    {
        self.event_flags = 0;
    }

    pub fn set_enabled(&mut self, addr: EndpointAddress, enabled: bool)
        requires
            addr.number() < 16,
        ensures
            *final(self) == old(self).enabling(addr, enabled),
    {
        let mask: u16 = endpoint_mask(addr);
        match addr.direction() {
            Direction::Out => self.enabled_out = mark(self.enabled_out, mask, enabled),
            Direction::In => self.enabled_in = mark(self.enabled_in, mask, enabled),
        }
    }

    pub fn is_enabled(&self, addr: EndpointAddress) -> (r: bool)
        requires
            addr.number() < 16,
        ensures
            r == self.enables(addr),
    {
        let mask: u16 = endpoint_mask(addr);
        match addr.direction() {
            Direction::Out => self.enabled_out & mask != 0,
            Direction::In => self.enabled_in & mask != 0,
        }
    }

    pub fn set_stalled(&mut self, addr: EndpointAddress, stalled: bool)
        requires
            addr.number() < 16,
        ensures
            *final(self) == old(self).stalling(addr, stalled),
    {
        let mask: u16 = endpoint_mask(addr);
        match addr.direction() {
            Direction::Out => self.stalled_out = mark(self.stalled_out, mask, stalled),
            Direction::In => self.stalled_in = mark(self.stalled_in, mask, stalled),
        }
    }

    pub fn is_stalled(&self, addr: EndpointAddress) -> (r: bool)
        requires
            addr.number() < 16,
        ensures
            r == self.stalls(addr),
    {
        let mask: u16 = endpoint_mask(addr);
        match addr.direction() {
            Direction::Out => self.stalled_out & mask != 0,
            Direction::In => self.stalled_in & mask != 0,
        }
    }

    pub fn clear_endpoint_state(&mut self)
        ensures
            *final(self) == old(self).without_endpoints(),
    {
        self.enabled_out = 0;
        self.enabled_in = 0;
        self.stalled_out = 0;
        self.stalled_in = 0;
        self.completed_out = 0;
        self.completed_in = 0;
    }

    /// Counts a bus reset. The count wraps around.
    pub fn note_reset(&mut self)
        ensures
            *final(self) == (ControllerRuntime {
                reset_count: if old(self).reset_count == u32::MAX {
                    0
                } else {
                    (old(self).reset_count + 1) as u32
                },
                ..*old(self)
            }),
    {
        self.reset_count = self.reset_count.wrapping_add(1);
    }

    /// Records the power state. Returns the event that the change gives.
    pub fn update_power_present(&mut self, current: bool) -> (r: Option<u32>)
        ensures
            r == power_event(old(self).power_present, current),
            *final(self) == (ControllerRuntime { power_present: current, ..*old(self) }),
    {
        let previous = self.power_present;
        self.power_present = current;
        power_event_bits_for_transition(previous, current)
    }

    pub fn set_power_present(&mut self, current: bool)
        ensures
            *final(self) == (ControllerRuntime { power_present: current, ..*old(self) }),
    {
        self.power_present = current;
    }

    pub fn set_failed(&mut self, failed: bool)
        ensures
            *final(self) == (ControllerRuntime { failed, ..*old(self) }),
    {
        self.failed = failed;
    }

    pub fn has_failed(&self) -> (r: bool)
        ensures
            r == self.failed,
    {
        self.failed
    }

    pub fn reset_count(&self) -> (r: u32)
        ensures
            r == self.reset_count,
    {
        self.reset_count
    }

    pub fn push_completed(&mut self, dir: Direction, mask: u16)
        ensures
            *final(self) == old(self).with_completed(dir, old(self).completed(dir) | mask),
    {
        match dir {
            Direction::Out => self.completed_out = self.completed_out | mask,
            Direction::In => self.completed_in = self.completed_in | mask,
        }
    }

    /// Takes a completion of the endpoint, if there is one.
    pub fn take_completed(&mut self, addr: EndpointAddress) -> (r: bool)
        requires
            addr.number() < 16,
        ensures
            r == old(self).has_completed(addr),
            *final(self) == (if r {
                old(self).taking(addr)
            } else {
                *old(self)
            }),
    {
        let mask: u16 = endpoint_mask(addr);
        let current: u16 = match addr.direction() {
            Direction::Out => self.completed_out,
            Direction::In => self.completed_in,
        };
        if current & mask == 0 {
            return false;
        }
        self.clear_completed(addr);
        true
    }

    pub fn clear_completed(&mut self, addr: EndpointAddress)
        requires
            addr.number() < 16,
        ensures
            *final(self) == old(self).taking(addr),
    {
        let mask: u16 = endpoint_mask(addr);
        match addr.direction() {
            Direction::Out => self.completed_out = mark(self.completed_out, mask, false),
            Direction::In => self.completed_in = mark(self.completed_in, mask, false),
        }
    }

    /// Takes the most urgent event.
    pub fn take_event(&mut self) -> (r: Option<Event>)
        ensures
            r == first_event(old(self).event_flags),
            *final(self) == match r {
                Some(event) => ControllerRuntime {
                    event_flags: old(self).event_flags & !event.flag(),
                    ..*old(self)
                },
                None => *old(self),
            },
    {
        let current: u32 = self.event_flags;
        let (bit, event): (u32, Event) = if current & EVENT_RESET != 0 {
            (EVENT_RESET, Event::Reset)
        } else if current & EVENT_SUSPEND != 0 {
            (EVENT_SUSPEND, Event::Suspend)
        } else if current & EVENT_RESUME != 0 {
            (EVENT_RESUME, Event::Resume)
        } else if current & EVENT_POWER_DETECTED != 0 {
            (EVENT_POWER_DETECTED, Event::PowerDetected)
        } else if current & EVENT_POWER_REMOVED != 0 {
            (EVENT_POWER_REMOVED, Event::PowerRemoved)
        } else {
            return None;
        };
        self.event_flags = current & !bit;
        Some(event)
    }
}

/// `bits` with those of `mask` set or cleared.
pub open spec fn marked(bits: u16, mask: u16, set: bool) -> u16 {
    if set {
        bits | mask
    } else {
        bits & !mask
    }
}

fn mark(bits: u16, mask: u16, set: bool) -> (r: u16)
    ensures
        r == marked(bits, mask, set),
{
    if set {
        bits | mask
    } else {
        bits & !mask
    }
}

/// Enabling, stalling and taking work on one endpoint and leave every other one alone.
pub proof fn endpoint_flags_are_independent(
    rt: ControllerRuntime,
    addr: EndpointAddress,
    other: EndpointAddress,
    v: bool,
)
    requires
        addr.number() < 16,
        other.number() < 16,
    ensures
        rt.enabling(addr, v).enables(addr) == v,
        rt.stalling(addr, v).stalls(addr) == v,
        !rt.taking(addr).has_completed(addr),
        addr != other ==> {
            &&& rt.enabling(addr, v).enables(other) == rt.enables(other)
            &&& rt.stalling(addr, v).stalls(other) == rt.stalls(other)
            &&& rt.taking(addr).has_completed(other) == rt.has_completed(other)
        },
{
    let i = addr.number() as u16;
    let j = other.number() as u16;
    mask_updates_one_bit(rt.enabled(addr.way()), i, i);
    mask_updates_one_bit(rt.enabled(addr.way()), i, j);
    mask_updates_one_bit(rt.stalled(addr.way()), i, i);
    mask_updates_one_bit(rt.stalled(addr.way()), i, j);
    mask_updates_one_bit(rt.completed(addr.way()), i, i);
    mask_updates_one_bit(rt.completed(addr.way()), i, j);
}

/// Clearing the endpoint state leaves no endpoint enabled, stalled or completed.
pub proof fn cleared_endpoints_are_idle(rt: ControllerRuntime, addr: EndpointAddress)
    requires
        addr.number() < 16,
    ensures
        !rt.without_endpoints().enables(addr),
        !rt.without_endpoints().stalls(addr),
        !rt.without_endpoints().has_completed(addr),
{
    mask_updates_one_bit(0, addr.number() as u16, addr.number() as u16);
}

/// Taking an event clears that event alone.
pub proof fn taking_an_event_leaves_the_others(flags: u32, taken: Event, other: Event)
    ensures
        (flags & !taken.flag()) & taken.flag() == 0,
        taken != other ==> (flags & !taken.flag()) & other.flag() == flags & other.flag(),
{
    assert(forall|a: u32, b: u32|
        (#[trigger] (flags & !a)) & a == 0 && (a & b == 0 ==> #[trigger] ((flags & !a) & b) == flags
            & b)) by (bit_vector);
    assert(1u32 & 2 == 0 && 1u32 & 4 == 0 && 1u32 & 8 == 0 && 1u32 & 16 == 0 && 2u32 & 1 == 0
        && 2u32 & 4 == 0 && 2u32 & 8 == 0 && 2u32 & 16 == 0 && 4u32 & 1 == 0 && 4u32 & 2 == 0
        && 4u32 & 8 == 0 && 4u32 & 16 == 0 && 8u32 & 1 == 0 && 8u32 & 2 == 0 && 8u32 & 4 == 0
        && 8u32 & 16 == 0 && 16u32 & 1 == 0 && 16u32 & 2 == 0 && 16u32 & 4 == 0 && 16u32 & 8 == 0)
        by (bit_vector);
    let a = taken.flag();
    let b = other.flag();
    assert((flags & !a) & a == 0);
    assert((flags & !a) & b == (flags & !a) & b);
}

/// A reset, a suspend and a resume that are pending together are taken in this order.
pub proof fn reset_goes_before_suspend_before_resume(flags: u32)
    requires
        flags & EVENT_RESET != 0,
        flags & EVENT_SUSPEND != 0,
        flags & EVENT_RESUME != 0,
    ensures
        first_event(flags) == Some(Event::Reset),
        first_event(flags & !EVENT_RESET) == Some(Event::Suspend),
        first_event(flags & !EVENT_RESET & !EVENT_SUSPEND) == Some(Event::Resume),
{
    assert((flags & !1u32) & 1u32 == 0 && (flags & !1u32) & 2u32 == flags & 2u32 && (flags & !1u32
        & !2u32) & 1u32 == 0 && (flags & !1u32 & !2u32) & 2u32 == 0 && (flags & !1u32 & !2u32)
        & 4u32 == flags & 4u32) by (bit_vector);
}

} // verus!
