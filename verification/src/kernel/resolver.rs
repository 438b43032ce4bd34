//! The interrupt resolver: timer ticks, GPIO edges, transport readiness and budget expiry
//! become resolved facts only when a registered wait or a due sleep asks for them.
use vstd::prelude::*;
use crate::seqs::{first_index, count, count_upto, lemma_first_index, lemma_first_index_at, lemma_count_upto_bound};
use crate::choreography::protocol::{BudgetExpired, GpioEdge, GpioWait, TimerSleepDone, TimerSleepUntil};
use crate::kernel::device::timer::{
    TimerError, TimerSleepEntry, TimerSleepId, TimerSleepTable, earliest_due, spec_cancel, spec_request_sleep,
};

verus! {

/// Why the resolver refuses a request or an event.
#[derive(Clone, Copy, Debug, PartialEq, Eq, Structural)]
pub enum ResolverError {
    EventQueueFull,
    GpioWaitTableFull,
    GpioWaitConflict,
    GpioWaitNotFound,
    StaleGpioWaitGeneration,
    UnsolicitedGpioEdge,
    Timer(TimerError),
}

impl From<TimerError> for ResolverError {
    fn from(value: TimerError) -> (out: Self) {
        ResolverError::Timer(value)
    }
}

impl vstd::std_specs::convert::FromSpecImpl<TimerError> for ResolverError {
    open spec fn obeys_from_spec() -> bool {
        true
    }

    open spec fn from_spec(v: TimerError) -> Self {
        ResolverError::Timer(v)
    }
}

/// Counts of refused requests by reason, each saturating.
#[derive(Clone, Copy, Debug, PartialEq, Eq, Structural)]
pub struct ResolverRejectionTelemetry {
    pub event_queue_full: u16,
    pub gpio_wait_table_full: u16,
    pub gpio_wait_conflict: u16,
    pub gpio_wait_not_found: u16,
    pub stale_generation: u16,
    pub unsolicited_event: u16,
    pub timer: u16,
    pub other: u16,
}

impl ResolverRejectionTelemetry {
    pub open spec fn zero() -> Self {
        ResolverRejectionTelemetry {
            event_queue_full: 0,
            gpio_wait_table_full: 0,
            gpio_wait_conflict: 0,
            gpio_wait_not_found: 0,
            stale_generation: 0,
            unsolicited_event: 0,
            timer: 0,
            other: 0,
        }
    }

    /// The counts after one more rejection for `error`.
    pub open spec fn recorded(self, error: ResolverError) -> Self {
        match error {
            ResolverError::EventQueueFull => ResolverRejectionTelemetry { event_queue_full: self.event_queue_full.saturating_add(1), ..self },
            ResolverError::GpioWaitTableFull => ResolverRejectionTelemetry { gpio_wait_table_full: self.gpio_wait_table_full.saturating_add(1), ..self },
            ResolverError::GpioWaitConflict => ResolverRejectionTelemetry { gpio_wait_conflict: self.gpio_wait_conflict.saturating_add(1), ..self },
            ResolverError::GpioWaitNotFound => ResolverRejectionTelemetry { gpio_wait_not_found: self.gpio_wait_not_found.saturating_add(1), ..self },
            ResolverError::StaleGpioWaitGeneration => ResolverRejectionTelemetry { stale_generation: self.stale_generation.saturating_add(1), ..self },
            ResolverError::UnsolicitedGpioEdge => ResolverRejectionTelemetry { unsolicited_event: self.unsolicited_event.saturating_add(1), ..self },
            ResolverError::Timer(_) => ResolverRejectionTelemetry { timer: self.timer.saturating_add(1), ..self },
        }
    }

    pub open spec fn spec_total(self) -> u16 {
        self.event_queue_full.saturating_add(self.gpio_wait_table_full).saturating_add(self.gpio_wait_conflict)
            .saturating_add(self.gpio_wait_not_found).saturating_add(self.stale_generation)
            .saturating_add(self.unsolicited_event).saturating_add(self.timer).saturating_add(self.other)
    }

    pub fn new() -> (out: Self)
        ensures
            out == Self::zero(),
    {
        ResolverRejectionTelemetry {
            event_queue_full: 0,
            gpio_wait_table_full: 0,
            gpio_wait_conflict: 0,
            gpio_wait_not_found: 0,
            stale_generation: 0,
            unsolicited_event: 0,
            timer: 0,
            other: 0,
        }
    }

    pub fn event_queue_full(self) -> (out: u16)
        ensures
            out == self.event_queue_full,
    {
        self.event_queue_full
    }

    pub fn gpio_wait_table_full(self) -> (out: u16)
        ensures
            out == self.gpio_wait_table_full,
    {
        self.gpio_wait_table_full
    }

    pub fn gpio_wait_conflict(self) -> (out: u16)
        ensures
            out == self.gpio_wait_conflict,
    {
        self.gpio_wait_conflict
    }

    pub fn gpio_wait_not_found(self) -> (out: u16)
        ensures
            out == self.gpio_wait_not_found,
    {
        self.gpio_wait_not_found
    }

    pub fn stale_generation(self) -> (out: u16)
        ensures
            out == self.stale_generation,
    {
        self.stale_generation
    }

    pub fn unsolicited_event(self) -> (out: u16)
        ensures
            out == self.unsolicited_event,
    {
        self.unsolicited_event
    }

    pub fn timer(self) -> (out: u16)
        ensures
            out == self.timer,
    {
        self.timer
    }

    pub fn other(self) -> (out: u16)
        ensures
            out == self.other,
    {
        self.other
    }

    pub fn total(self) -> (out: u16)
        ensures
            out == self.spec_total(),
    {
        self.event_queue_full.saturating_add(self.gpio_wait_table_full).saturating_add(self.gpio_wait_conflict)
            .saturating_add(self.gpio_wait_not_found).saturating_add(self.stale_generation)
            .saturating_add(self.unsolicited_event).saturating_add(self.timer).saturating_add(self.other)
    }

    fn record(&mut self, error: ResolverError)
        ensures
            *final(self) == old(self).recorded(error),
    {
        match error {
            ResolverError::EventQueueFull => self.event_queue_full = self.event_queue_full.saturating_add(1),
            ResolverError::GpioWaitTableFull => self.gpio_wait_table_full = self.gpio_wait_table_full.saturating_add(1),
            ResolverError::GpioWaitConflict => self.gpio_wait_conflict = self.gpio_wait_conflict.saturating_add(1),
            ResolverError::GpioWaitNotFound => self.gpio_wait_not_found = self.gpio_wait_not_found.saturating_add(1),
            ResolverError::StaleGpioWaitGeneration => self.stale_generation = self.stale_generation.saturating_add(1),
            ResolverError::UnsolicitedGpioEdge => self.unsolicited_event = self.unsolicited_event.saturating_add(1),
            ResolverError::Timer(_) => self.timer = self.timer.saturating_add(1),
        }
    }
}

impl Default for ResolverRejectionTelemetry {
    fn default() -> (out: Self)
        ensures
            out == Self::zero(),
    {
        Self::new()
    }
}

/// The telemetry after a request answered with `r`: one more rejection if it failed.
pub open spec fn resolver_telemetry_after<T>(t: ResolverRejectionTelemetry, r: Result<T, ResolverError>) -> ResolverRejectionTelemetry {
    match r {
        Ok(_) => t,
        Err(e) => t.recorded(e),
    }
}

/// A raw interrupt as the port reports it.
#[derive(Clone, Copy, Debug, PartialEq, Eq, Structural)]
pub enum InterruptEvent {
    TimerTick { tick: u64 },
    GpioEdge { pin: u8, high: bool },
    TransportRxReady { role: u8, lane: u8, label_hint: u8 },
    BudgetTimerExpired { run_id: u16, generation: u16 },
}

/// A fact the resolver hands on once something asked for it.
#[derive(Clone, Copy, Debug, PartialEq, Eq, Structural)]
pub enum ResolvedInterrupt {
    TimerSleepDone(TimerSleepDone),
    GpioWaitSatisfied(GpioEdge),
    TransportRxReady { role: u8, lane: u8, label_hint: u8 },
    BudgetExpired(BudgetExpired),
}

/// A registered wait for an edge on a pin.
#[derive(Clone, Copy, Debug, PartialEq, Eq, Structural)]
pub struct GpioWaitRegistration {
    pub wait_id: u16,
    pub pin: u8,
    pub generation: u16,
}

impl GpioWaitRegistration {
    pub open spec fn spec_from_wait(wait: GpioWait) -> Self {
        GpioWaitRegistration { wait_id: wait.wait_id, pin: wait.pin, generation: wait.generation }
    }

    fn from_wait(wait: GpioWait) -> (out: Self)
        ensures
            out == Self::spec_from_wait(wait),
    {
        GpioWaitRegistration { wait_id: wait.wait_id(), pin: wait.pin(), generation: wait.generation() }
    }
}

pub open spec fn wait_with_id(wait_id: u16) -> spec_fn(Option<GpioWaitRegistration>) -> bool {
    |o: Option<GpioWaitRegistration>| o is Some && o->Some_0.wait_id == wait_id
}

pub open spec fn wait_on_pin(pin: u8) -> spec_fn(Option<GpioWaitRegistration>) -> bool {
    |o: Option<GpioWaitRegistration>| o is Some && o->Some_0.pin == pin
}

pub open spec fn free_wait_slot() -> spec_fn(Option<GpioWaitRegistration>) -> bool {
    |o: Option<GpioWaitRegistration>| o is None
}

pub open spec fn held_wait_slot() -> spec_fn(Option<GpioWaitRegistration>) -> bool {
    |o: Option<GpioWaitRegistration>| o is Some
}

/// Registering a wait: the waits afterwards. A wait already held under the same id and
/// generation on the same pin is accepted again and changes nothing.
pub open spec fn spec_request_gpio_wait(waits: Seq<Option<GpioWaitRegistration>>, reg: GpioWaitRegistration) -> Result<Seq<Option<GpioWaitRegistration>>, ResolverError> {
    let i = first_index(waits, wait_with_id(reg.wait_id));
    if i < waits.len() {
        if waits[i]->Some_0.generation != reg.generation {
            Err(ResolverError::StaleGpioWaitGeneration)
        } else if waits[i]->Some_0.pin != reg.pin {
            Err(ResolverError::GpioWaitConflict)
        } else {
            Ok(waits)
        }
    } else if first_index(waits, wait_on_pin(reg.pin)) < waits.len() {
        Err(ResolverError::GpioWaitConflict)
    } else if first_index(waits, free_wait_slot()) >= waits.len() {
        Err(ResolverError::GpioWaitTableFull)
    } else {
        Ok(waits.update(first_index(waits, free_wait_slot()), Some(reg)))
    }
}

/// Cancelling a wait by id at a generation: the waits afterwards.
pub open spec fn spec_cancel_gpio_wait(waits: Seq<Option<GpioWaitRegistration>>, wait_id: u16, generation: u16) -> Result<Seq<Option<GpioWaitRegistration>>, ResolverError> {
    let i = first_index(waits, wait_with_id(wait_id));
    if i >= waits.len() {
        Err(ResolverError::GpioWaitNotFound)
    } else if waits[i]->Some_0.generation != generation {
        Err(ResolverError::StaleGpioWaitGeneration)
    } else {
        Ok(waits.update(i, None))
    }
}

/// What the resolver holds: pending sleeps, the latest tick, queued events and registered waits.
pub struct ResolverModel {
    pub timers: Seq<Option<TimerSleepEntry>>,
    pub now: u64,
    pub queue: Seq<InterruptEvent>,
    pub waits: Seq<Option<GpioWaitRegistration>>,
}

/// The slot of the `i`-th queued event in a ring of `cap` slots starting at `head`.
pub open spec fn ring_index(head: int, i: int, cap: int) -> int {
    if head + i < cap {
        head + i
    } else {
        head + i - cap
    }
}

/// Answering the queued events in order until one resolves or refuses.
pub open spec fn spec_drain_events(m: ResolverModel) -> (Result<Option<ResolvedInterrupt>, ResolverError>, ResolverModel)
    decreases m.queue.len(),
{
    if m.queue.len() == 0 {
        (Ok(None), m)
    } else {
        let rest = m.queue.drop_first();
        match m.queue[0] {
            InterruptEvent::TimerTick { tick } => {
                let now = if tick > m.now { tick } else { m.now };
                match earliest_due(m.timers, now, m.timers.len() as int) {
                    Some(i) => (
                        Ok(Some(ResolvedInterrupt::TimerSleepDone(TimerSleepDone { tick: m.timers[i]->Some_0.tick }))),
                        ResolverModel { timers: m.timers.update(i, None), now, queue: rest, waits: m.waits },
                    ),
                    None => spec_drain_events(ResolverModel { now, queue: rest, ..m }),
                }
            },
            InterruptEvent::GpioEdge { pin, high } => {
                let i = first_index(m.waits, wait_on_pin(pin));
                if i >= m.waits.len() {
                    (Err(ResolverError::UnsolicitedGpioEdge), ResolverModel { queue: rest, ..m })
                } else {
                    let active = m.waits[i]->Some_0;
                    (
                        Ok(Some(ResolvedInterrupt::GpioWaitSatisfied(GpioEdge {
                            wait_id: active.wait_id,
                            pin,
                            high,
                            generation: active.generation,
                        }))),
                        ResolverModel { waits: m.waits.update(i, None), queue: rest, ..m },
                    )
                }
            },
            InterruptEvent::TransportRxReady { role, lane, label_hint } => (
                Ok(Some(ResolvedInterrupt::TransportRxReady { role, lane, label_hint })),
                ResolverModel { queue: rest, ..m },
            ),
            InterruptEvent::BudgetTimerExpired { run_id, generation } => (
                Ok(Some(ResolvedInterrupt::BudgetExpired(BudgetExpired { run_id, generation }))),
                ResolverModel { queue: rest, ..m },
            ),
        }
    }
}

/// The next resolved fact: a sleep already due, else the first queued event that resolves or refuses.
pub open spec fn spec_resolve_next(m: ResolverModel) -> (Result<Option<ResolvedInterrupt>, ResolverError>, ResolverModel) {
    match earliest_due(m.timers, m.now, m.timers.len() as int) {
        Some(i) => (
            Ok(Some(ResolvedInterrupt::TimerSleepDone(TimerSleepDone { tick: m.timers[i]->Some_0.tick }))),
            ResolverModel { timers: m.timers.update(i, None), ..m },
        ),
        None => spec_drain_events(m),
    }
}

/// A resolver with `TIMERS` sleeps, a ring of `EVENTS` queued interrupts and `GPIO_WAITS` registered waits.
pub struct PicoInterruptResolver<const TIMERS: usize, const EVENTS: usize, const GPIO_WAITS: usize> {
    timers: TimerSleepTable<TIMERS>,
    now_tick: u64,
    events: Vec<Option<InterruptEvent>>,
    event_head: usize,
    event_len: usize,
    gpio_waits: Vec<Option<GpioWaitRegistration>>,
    rejection_telemetry: ResolverRejectionTelemetry,
}

impl<const TIMERS: usize, const EVENTS: usize, const GPIO_WAITS: usize> PicoInterruptResolver<TIMERS, EVENTS, GPIO_WAITS> {
    pub closed spec fn model(&self) -> ResolverModel {
        ResolverModel {
            timers: self.timers.view(),
            now: self.now_tick,
            queue: Seq::new(self.event_len as nat, |i: int| self.events@[ring_index(self.event_head as int, i, EVENTS as int)]->Some_0),
            waits: self.gpio_waits@,
        }
    }

    pub closed spec fn telemetry(&self) -> ResolverRejectionTelemetry {
        self.rejection_telemetry
    }

    pub closed spec fn wf(&self) -> bool {
        &&& self.timers.wf()
        &&& self.events@.len() == EVENTS
        &&& self.gpio_waits@.len() == GPIO_WAITS
        &&& self.event_len <= EVENTS
        &&& (EVENTS > 0 ==> self.event_head < EVENTS)
        &&& (EVENTS == 0 ==> self.event_head == 0)
        &&& forall|i: int| 0 <= i < self.event_len ==>
                #[trigger] self.events@[ring_index(self.event_head as int, i, EVENTS as int)] is Some
    }

    /// A well-formed resolver has one slot per timer and per GPIO wait, and no more
    /// queued events than its ring holds.
    pub proof fn lemma_wf_lengths(&self)
        requires
            self.wf(),
        ensures
            self.model().timers.len() == TIMERS,
            self.model().waits.len() == GPIO_WAITS,
            self.model().queue.len() <= EVENTS,
    {
    }

    pub fn new() -> (out: Self)
        ensures
            out.wf(),
            out.model() == (ResolverModel {
                timers: Seq::new(TIMERS as nat, |i: int| None::<TimerSleepEntry>),
                now: 0,
                queue: Seq::empty(),
                waits: Seq::new(GPIO_WAITS as nat, |i: int| None::<GpioWaitRegistration>),
            }),
            out.telemetry() == ResolverRejectionTelemetry::zero(),
    {
        let mut events: Vec<Option<InterruptEvent>> = Vec::new();
        let mut i: usize = 0;
        while i < EVENTS
            invariant
                i <= EVENTS,
                events@.len() == i,
            decreases EVENTS - i,
        {
            events.push(None);
            i = i + 1;
        }
        let mut gpio_waits: Vec<Option<GpioWaitRegistration>> = Vec::new();
        let mut j: usize = 0;
        while j < GPIO_WAITS
            invariant
                j <= GPIO_WAITS,
                gpio_waits@ == Seq::new(j as nat, |k: int| None::<GpioWaitRegistration>),
            decreases GPIO_WAITS - j,
        {
            gpio_waits.push(None);
            j = j + 1;
            assert(gpio_waits@ =~= Seq::new(j as nat, |k: int| None::<GpioWaitRegistration>));
        }
        let out = PicoInterruptResolver {
            timers: TimerSleepTable::new(),
            now_tick: 0,
            events,
            event_head: 0,
            event_len: 0,
            gpio_waits,
            rejection_telemetry: ResolverRejectionTelemetry::new(),
        };
        assert(out.model().queue =~= Seq::<InterruptEvent>::empty());
        out
    }

    pub fn now_tick(&self) -> (out: u64)
        ensures
            out == self.model().now,
    {
        self.now_tick
    }

    pub fn rejection_telemetry(&self) -> (out: ResolverRejectionTelemetry)
        ensures
            out == self.telemetry(),
    {
        self.rejection_telemetry
    }

    fn record_rejection(&mut self, error: ResolverError) -> (out: ResolverError)
        requires
            old(self).wf(),
        ensures
            final(self).wf(),
            out == error,
            final(self).model() == old(self).model(),
            final(self).telemetry() == old(self).telemetry().recorded(error),
    {
        self.rejection_telemetry.record(error);
        error
    }

    pub fn request_timer_sleep(&mut self, sleep: TimerSleepUntil) -> (out: Result<TimerSleepId, ResolverError>)
        requires
            old(self).wf(),
        ensures
            final(self).wf(),
            final(self).telemetry() == resolver_telemetry_after(old(self).telemetry(), out),
            match spec_request_sleep(old(self).model().timers) {
                Ok(p) => out == Ok::<TimerSleepId, ResolverError>(p.1) && final(self).model() == (ResolverModel {
                    timers: old(self).model().timers.update(p.0, Some(TimerSleepEntry { id: p.1, tick: sleep.tick })),
                    ..old(self).model()
                }),
                Err(e) => out == Err::<TimerSleepId, ResolverError>(ResolverError::Timer(e))
                    && final(self).model() == old(self).model(),
            },
    {
        let ghost before = self.model();
        match self.timers.request_sleep(sleep) {
            Ok(id) => {
                assert(self.model().queue =~= before.queue);
                Ok(id)
            },
            Err(e) => {
                assert(self.model().queue =~= before.queue);
                Err(self.record_rejection(ResolverError::Timer(e)))
            },
        }
    }

    pub fn cancel_timer_sleep(&mut self, id: TimerSleepId) -> (out: Result<(), ResolverError>)
        requires
            old(self).wf(),
        ensures
            final(self).wf(),
            final(self).telemetry() == resolver_telemetry_after(old(self).telemetry(), out),
            match spec_cancel(old(self).model().timers, id) {
                Ok(i) => out == Ok::<(), ResolverError>(()) && final(self).model() == (ResolverModel {
                    timers: old(self).model().timers.update(i, None),
                    ..old(self).model()
                }),
                Err(e) => out == Err::<(), ResolverError>(ResolverError::Timer(e))
                    && final(self).model() == old(self).model(),
            },
    {
        let ghost before = self.model();
        match self.timers.cancel(id) {
            Ok(()) => {
                assert(self.model().queue =~= before.queue);
                Ok(())
            },
            Err(e) => {
                assert(self.model().queue =~= before.queue);
                Err(self.record_rejection(ResolverError::Timer(e)))
            },
        }
    }

    pub fn request_gpio_edge(&mut self, pin: u8) -> (out: Result<(), ResolverError>)
        requires
            old(self).wf(),
        ensures
            final(self).wf(),
            final(self).telemetry() == resolver_telemetry_after(old(self).telemetry(), out),
            match spec_request_gpio_wait(old(self).model().waits, GpioWaitRegistration { wait_id: 1, pin, generation: 1 }) {
                Ok(w) => out is Ok && final(self).model() == (ResolverModel { waits: w, ..old(self).model() }),
                Err(e) => out == Err::<(), ResolverError>(e) && final(self).model() == old(self).model(),
            },
    {
        self.request_gpio_wait(GpioWait::new(0, 1, pin, 1))
    }

    fn find_wait(&self, pred_id: bool, key: u16) -> (out: usize)
        requires
            self.wf(),
        ensures
            pred_id ==> out == first_index(self.model().waits, wait_with_id(key)),
            !pred_id ==> out == first_index(self.model().waits, wait_on_pin(key as u8)),
            out <= self.model().waits.len(),
            out < self.model().waits.len() ==> self.model().waits[out as int] is Some
                && (pred_id ==> self.model().waits[out as int]->Some_0.wait_id == key)
                && (!pred_id ==> self.model().waits[out as int]->Some_0.pin == key as u8),
    {
        let ghost waits = self.model().waits;
        let ghost p = if pred_id { wait_with_id(key) } else { wait_on_pin(key as u8) };
        let n = self.gpio_waits.len();
        let mut i: usize = 0;
        while i < n
            invariant
                waits == self.model().waits,
                waits == self.gpio_waits@,
                n == waits.len(),
                p == (if pred_id { wait_with_id(key) } else { wait_on_pin(key as u8) }),
                i <= n,
                forall|j: int| 0 <= j < i ==> !(#[trigger] p(waits[j])),
            decreases n - i,
        {
            match self.gpio_waits[i] {
                Some(active) => {
                    let hit = if pred_id { active.wait_id == key } else { active.pin == key as u8 };
                    if hit {
                        proof {
                            lemma_first_index_at(waits, p, i as int);
                        }
                        return i;
                    }
                },
                None => {},
            }
            i = i + 1;
        }
        proof {
            lemma_first_index(waits, p);
        }
        n
    }

    fn find_free_wait(&self) -> (out: usize)
        requires
            self.wf(),
        ensures
            out == first_index(self.model().waits, free_wait_slot()),
            out <= self.model().waits.len(),
    {
        let ghost waits = self.model().waits;
        let n = self.gpio_waits.len();
        let mut i: usize = 0;
        while i < n && self.gpio_waits[i].is_some()
            invariant
                waits == self.gpio_waits@,
                n == waits.len(),
                i <= n,
                forall|j: int| 0 <= j < i ==> !(#[trigger] free_wait_slot()(waits[j])),
            decreases n - i,
        {
            i = i + 1;
        }
        proof {
            lemma_first_index(waits, free_wait_slot());
            if i < n {
                lemma_first_index_at(waits, free_wait_slot(), i as int);
            }
        }
        i
    }

    pub fn request_gpio_wait(&mut self, wait: GpioWait) -> (out: Result<(), ResolverError>)
        requires
            old(self).wf(),
        ensures
            final(self).wf(),
            final(self).telemetry() == resolver_telemetry_after(old(self).telemetry(), out),
            match spec_request_gpio_wait(old(self).model().waits, GpioWaitRegistration::spec_from_wait(wait)) {
                Ok(w) => out is Ok && final(self).model() == (ResolverModel { waits: w, ..old(self).model() }),
                Err(e) => out == Err::<(), ResolverError>(e) && final(self).model() == old(self).model(),
            },
    {
        let registration = GpioWaitRegistration::from_wait(wait);
        let n = self.gpio_waits.len();
        let i = self.find_wait(true, registration.wait_id);
        if i < n {
            let active = match self.gpio_waits[i] {
                Some(a) => a,
                None => registration,
            };
            if active.generation != registration.generation {
                return Err(self.record_rejection(ResolverError::StaleGpioWaitGeneration));
            }
            if active.pin != registration.pin {
                return Err(self.record_rejection(ResolverError::GpioWaitConflict));
            }
            return Ok(());
        }
        let p = self.find_wait(false, registration.pin as u16);
        assert(registration.pin as u16 as u8 == registration.pin);
        if p < n {
            return Err(self.record_rejection(ResolverError::GpioWaitConflict));
        }
        let f = self.find_free_wait();
        if f == n {
            return Err(self.record_rejection(ResolverError::GpioWaitTableFull));
        }
        let ghost before = self.model();
        self.gpio_waits.set(f, Some(registration));
        assert(self.model().queue =~= before.queue);
        Ok(())
    }

    pub fn cancel_gpio_wait(&mut self, wait_id: u16, generation: u16) -> (out: Result<(), ResolverError>)
        requires
            old(self).wf(),
        ensures
            final(self).wf(),
            final(self).telemetry() == resolver_telemetry_after(old(self).telemetry(), out),
            match spec_cancel_gpio_wait(old(self).model().waits, wait_id, generation) {
                Ok(w) => out is Ok && final(self).model() == (ResolverModel { waits: w, ..old(self).model() }),
                Err(e) => out == Err::<(), ResolverError>(e) && final(self).model() == old(self).model(),
            },
    {
        let n = self.gpio_waits.len();
        let i = self.find_wait(true, wait_id);
        if i == n {
            return Err(self.record_rejection(ResolverError::GpioWaitNotFound));
        }
        let active_generation = match self.gpio_waits[i] {
            Some(a) => a.generation,
            None => generation,
        };
        if active_generation != generation {
            return Err(self.record_rejection(ResolverError::StaleGpioWaitGeneration));
        }
        let ghost before = self.model();
        self.gpio_waits.set(i, None);
        assert(self.model().queue =~= before.queue);
        Ok(())
    }

    pub fn fence_gpio_waits(&mut self) -> (out: usize)
        requires
            old(self).wf(),
        ensures
            final(self).wf(),
            final(self).telemetry() == old(self).telemetry(),
            out == count(old(self).model().waits, held_wait_slot()),
            final(self).model() == (ResolverModel {
                waits: Seq::new(GPIO_WAITS as nat, |i: int| None::<GpioWaitRegistration>),
                ..old(self).model()
            }),
    {
        let ghost before = self.model();
        let ghost waits = self.model().waits;
        let n = self.gpio_waits.len();
        let mut revoked: usize = 0;
        let mut i: usize = 0;
        assert(Seq::new(0nat, |k: int| None::<GpioWaitRegistration>) + waits.subrange(0, n as int) =~= waits);
        while i < n
            invariant
                self.wf(),
                n == GPIO_WAITS,
                waits == before.waits,
                waits.len() == n,
                i <= n,
                revoked == count_upto(waits, held_wait_slot(), i as int),
                self.model() == (ResolverModel {
                    waits: Seq::new(i as nat, |k: int| None::<GpioWaitRegistration>) + waits.subrange(i as int, n as int),
                    ..before
                }),
                self.telemetry() == old(self).telemetry(),
            decreases n - i,
        {
            proof {
                lemma_count_upto_bound(waits, held_wait_slot(), i as int);
            }
            if self.gpio_waits[i].is_some() {
                revoked = revoked + 1;
            }
            let ghost mid = self.model();
            self.gpio_waits.set(i, None);
            assert(self.model().queue =~= mid.queue);
            assert(self.model().waits =~= Seq::new((i + 1) as nat, |k: int| None::<GpioWaitRegistration>)
                + waits.subrange(i + 1, n as int));
            i = i + 1;
        }
        assert(self.model().waits =~= Seq::new(GPIO_WAITS as nat, |i: int| None::<GpioWaitRegistration>));
        revoked
    }

    pub fn active_gpio_wait_count(&self) -> (out: usize)
        requires
            self.wf(),
        ensures
            out == count(self.model().waits, held_wait_slot()),
    {
        let ghost waits = self.model().waits;
        let n = self.gpio_waits.len();
        let mut held: usize = 0;
        let mut i: usize = 0;
        while i < n
            invariant
                waits == self.gpio_waits@,
                n == waits.len(),
                i <= n,
                held == count_upto(waits, held_wait_slot(), i as int),
            decreases n - i,
        {
            proof {
                lemma_count_upto_bound(waits, held_wait_slot(), i as int);
            }
            if self.gpio_waits[i].is_some() {
                held = held + 1;
            }
            i = i + 1;
        }
        held
    }

    pub fn has_active_gpio_waits(&self) -> (out: bool)
        requires
            self.wf(),
        ensures
            out == (count(self.model().waits, held_wait_slot()) != 0),
    {
        self.active_gpio_wait_count() != 0
    }

    fn push_event(&mut self, event: InterruptEvent) -> (out: Result<(), ResolverError>)
        requires
            old(self).wf(),
        ensures
            final(self).wf(),
            final(self).telemetry() == resolver_telemetry_after(old(self).telemetry(), out),
            old(self).model().queue.len() == EVENTS ==> out == Err::<(), ResolverError>(ResolverError::EventQueueFull)
                && final(self).model() == old(self).model(),
            old(self).model().queue.len() < EVENTS ==> out is Ok
                && final(self).model() == (ResolverModel { queue: old(self).model().queue.push(event), ..old(self).model() }),
    {
        if self.event_len == EVENTS {
            return Err(self.record_rejection(ResolverError::EventQueueFull));
        }
        let ghost before = self.model();
        let head = self.event_head;
        let len = self.event_len;
        let index = if len < EVENTS - head { head + len } else { len - (EVENTS - head) };
        self.events.set(index, Some(event));
        self.event_len = len + 1;
        assert forall|i: int| 0 <= i < len implies #[trigger] ring_index(head as int, i, EVENTS as int) != index by {}
        assert(self.model().queue =~= before.queue.push(event));
        Ok(())
    }

    fn pop_event(&mut self) -> (out: Option<InterruptEvent>)
        requires
            old(self).wf(),
        ensures
            final(self).wf(),
            final(self).telemetry() == old(self).telemetry(),
            old(self).model().queue.len() == 0 ==> out is None && final(self).model() == old(self).model(),
            old(self).model().queue.len() > 0 ==> out == Some(old(self).model().queue[0])
                && final(self).model() == (ResolverModel { queue: old(self).model().queue.drop_first(), ..old(self).model() }),
    {
        if self.event_len == 0 {
            return None;
        }
        let ghost before = self.model();
        let head = self.event_head;
        let len = self.event_len;
        assert(ring_index(head as int, 0, EVENTS as int) == head);
        let event = self.events[head];
        self.events.set(head, None);
        let new_head = if head + 1 < EVENTS { head + 1 } else { 0 };
        self.event_head = new_head;
        self.event_len = len - 1;
        if self.event_len == 0 {
            self.event_head = 0;
        }
        assert forall|i: int| 0 <= i < len - 1 implies
            #[trigger] ring_index(self.event_head as int, i, EVENTS as int) == ring_index(head as int, i + 1, EVENTS as int)
            && ring_index(head as int, i + 1, EVENTS as int) != head by {}
        assert(self.model().queue =~= before.queue.drop_first());
        event
    }

    pub fn push_irq(&mut self, event: InterruptEvent) -> (out: Result<(), ResolverError>)
        requires
            old(self).wf(),
        ensures
            final(self).wf(),
            final(self).telemetry() == resolver_telemetry_after(old(self).telemetry(), out),
            match event {
                InterruptEvent::TimerTick { tick } => out is Ok && final(self).model() == (ResolverModel {
                    now: if tick > old(self).model().now { tick } else { old(self).model().now },
                    ..old(self).model()
                }),
                _ => if old(self).model().queue.len() < EVENTS {
                    out is Ok && final(self).model() == (ResolverModel { queue: old(self).model().queue.push(event), ..old(self).model() })
                } else {
                    out == Err::<(), ResolverError>(ResolverError::EventQueueFull) && final(self).model() == old(self).model()
                },
            },
    {
        match event {
            InterruptEvent::TimerTick { tick } => {
                let ghost before = self.model();
                if tick > self.now_tick {
                    self.now_tick = tick;
                }
                assert(self.model().queue =~= before.queue);
                Ok(())
            },
            _ => self.push_event(event),
        }
    }

    fn take_wait_on_pin(&mut self, pin: u8) -> (out: Option<GpioWaitRegistration>)
        requires
            old(self).wf(),
        ensures
            final(self).wf(),
            final(self).telemetry() == old(self).telemetry(),
            ({
                let i = first_index(old(self).model().waits, wait_on_pin(pin));
                if i >= old(self).model().waits.len() {
                    out is None && final(self).model() == old(self).model()
                } else {
                    out == Some(old(self).model().waits[i]->Some_0) && final(self).model() == (ResolverModel {
                        waits: old(self).model().waits.update(i, None),
                        ..old(self).model()
                    })
                }
            }),
    {
        let n = self.gpio_waits.len();
        let i = self.find_wait(false, pin as u16);
        assert(pin as u16 as u8 == pin);
        if i == n {
            return None;
        }
        let active = self.gpio_waits[i];
        let ghost before = self.model();
        self.gpio_waits.set(i, None);
        assert(self.model().queue =~= before.queue);
        active
    }

    pub fn resolve_next(&mut self) -> (out: Result<Option<ResolvedInterrupt>, ResolverError>)
        requires
            old(self).wf(),
        ensures
            final(self).wf(),
            (out, final(self).model()) == spec_resolve_next(old(self).model()),
            final(self).telemetry() == resolver_telemetry_after(old(self).telemetry(), out),
    {
        let ghost before = self.model();
        match self.timers.poll(self.now_tick) {
            Some(done) => {
                assert(self.model().queue =~= before.queue);
                return Ok(Some(ResolvedInterrupt::TimerSleepDone(done)));
            },
            None => {
                assert(self.model().queue =~= before.queue);
            },
        }
        loop
            invariant
                self.wf(),
                spec_drain_events(self.model()) == spec_resolve_next(old(self).model()),
                self.telemetry() == old(self).telemetry(),
            decreases self.model().queue.len(),
        {
            let ghost m = self.model();
            match self.pop_event() {
                None => {
                    return Ok(None);
                },
                Some(event) => {
                    match event {
                        InterruptEvent::TimerTick { tick } => {
                            let ghost popped = self.model();
                            if tick > self.now_tick {
                                self.now_tick = tick;
                            }
                            assert(self.model().queue =~= popped.queue);
                            let ghost ticked = self.model();
                            match self.timers.poll(self.now_tick) {
                                Some(done) => {
                                    assert(self.model().queue =~= ticked.queue);
                                    return Ok(Some(ResolvedInterrupt::TimerSleepDone(done)));
                                },
                                None => {
                                    assert(self.model().queue =~= ticked.queue);
                                },
                            }
                        },
                        InterruptEvent::GpioEdge { pin, high } => {
                            match self.take_wait_on_pin(pin) {
                                None => {
                                    return Err(self.record_rejection(ResolverError::UnsolicitedGpioEdge));
                                },
                                Some(active) => {
                                    return Ok(Some(ResolvedInterrupt::GpioWaitSatisfied(
                                        GpioEdge::new(active.wait_id, pin, high, active.generation),
                                    )));
                                },
                            }
                        },
                        InterruptEvent::TransportRxReady { role, lane, label_hint } => {
                            return Ok(Some(ResolvedInterrupt::TransportRxReady { role, lane, label_hint }));
                        },
                        InterruptEvent::BudgetTimerExpired { run_id, generation } => {
                            return Ok(Some(ResolvedInterrupt::BudgetExpired(BudgetExpired::new(run_id, generation))));
                        },
                    }
                },
            }
        }
    }
}

impl<const TIMERS: usize, const EVENTS: usize, const GPIO_WAITS: usize> Default for PicoInterruptResolver<TIMERS, EVENTS, GPIO_WAITS> {
    fn default() -> (out: Self)
        ensures
            out.wf(),
            out.model() == (ResolverModel {
                timers: Seq::new(TIMERS as nat, |i: int| None::<TimerSleepEntry>),
                now: 0,
                queue: Seq::empty(),
                waits: Seq::new(GPIO_WAITS as nat, |i: int| None::<GpioWaitRegistration>),
            }),
            out.telemetry() == ResolverRejectionTelemetry::zero(),
    {
        Self::new()
    }
}

} // verus!
verus! {

/// What a resolved fact rests on: a satisfied GPIO wait was registered for that pin, id and
/// generation and is consumed; a finished sleep was pending, is due at the resolver's tick,
/// and is consumed.
pub proof fn lemma_drain_events_consumes_what_it_resolves(m: ResolverModel)
    ensures
        ({
            let (r, after) = spec_drain_events(m);
            &&& after.now >= m.now
            &&& (r matches Ok(Some(ResolvedInterrupt::GpioWaitSatisfied(edge))) ==> exists|i: int|
                0 <= i < m.waits.len() && m.waits[i] == Some(GpioWaitRegistration {
                    wait_id: edge.wait_id,
                    pin: edge.pin,
                    generation: edge.generation,
                }) && #[trigger] after.waits[i] is None)
            &&& (r matches Ok(Some(ResolvedInterrupt::TimerSleepDone(done))) ==> done.tick <= after.now
                && exists|i: int| 0 <= i < m.timers.len() && m.timers[i] is Some
                    && m.timers[i]->Some_0.tick == done.tick && #[trigger] after.timers[i] is None)
        }),
    decreases m.queue.len(),
{
    if m.queue.len() > 0 {
        let rest = m.queue.drop_first();
        match m.queue[0] {
            InterruptEvent::TimerTick { tick } => {
                let now = if tick > m.now { tick } else { m.now };
                crate::kernel::device::timer::lemma_earliest_due_is_minimal(m.timers, now, m.timers.len() as int);
                match earliest_due(m.timers, now, m.timers.len() as int) {
                    Some(i) => {
                        let after = spec_drain_events(m).1;
                        assert(after.timers[i] is None);
                    },
                    None => {
                        lemma_drain_events_consumes_what_it_resolves(ResolverModel { now, queue: rest, ..m });
                    },
                }
            },
            InterruptEvent::GpioEdge { pin, high } => {
                lemma_first_index(m.waits, wait_on_pin(pin));
                let i = first_index(m.waits, wait_on_pin(pin));
                if i < m.waits.len() {
                    let after = spec_drain_events(m).1;
                    assert(after.waits[i] is None);
                }
            },
            _ => {},
        }
    }
}

/// The same holds of `resolve_next`, which first answers a sleep already due.
pub proof fn lemma_resolve_next_consumes_what_it_resolves(m: ResolverModel)
    ensures
        ({
            let (r, after) = spec_resolve_next(m);
            &&& after.now >= m.now
            &&& (r matches Ok(Some(ResolvedInterrupt::GpioWaitSatisfied(edge))) ==> exists|i: int|
                0 <= i < m.waits.len() && m.waits[i] == Some(GpioWaitRegistration {
                    wait_id: edge.wait_id,
                    pin: edge.pin,
                    generation: edge.generation,
                }) && #[trigger] after.waits[i] is None)
            &&& (r matches Ok(Some(ResolvedInterrupt::TimerSleepDone(done))) ==> done.tick <= after.now
                && exists|i: int| 0 <= i < m.timers.len() && m.timers[i] is Some
                    && m.timers[i]->Some_0.tick == done.tick && #[trigger] after.timers[i] is None)
        }),
{
    crate::kernel::device::timer::lemma_earliest_due_is_minimal(m.timers, m.now, m.timers.len() as int);
    match earliest_due(m.timers, m.now, m.timers.len() as int) {
        Some(i) => {
            let after = spec_resolve_next(m).1;
            assert(after.timers[i] is None);
        },
        None => {
            lemma_drain_events_consumes_what_it_resolves(m);
        },
    }
}

/// An edge on a pin with no registered wait is refused and consumed.
pub proof fn lemma_unsolicited_edge_is_refused(m: ResolverModel, pin: u8, high: bool)
    requires
        m.queue.len() > 0,
        m.queue[0] == (InterruptEvent::GpioEdge { pin, high }),
        earliest_due(m.timers, m.now, m.timers.len() as int) is None,
        forall|i: int| 0 <= i < m.waits.len() ==> !(#[trigger] wait_on_pin(pin)(m.waits[i])),
    ensures
        spec_resolve_next(m).0 == Err::<Option<ResolvedInterrupt>, ResolverError>(ResolverError::UnsolicitedGpioEdge),
        spec_resolve_next(m).1.queue == m.queue.drop_first(),
        spec_resolve_next(m).1.waits == m.waits,
{
    lemma_first_index(m.waits, wait_on_pin(pin));
}

} // verus!
