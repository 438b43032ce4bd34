//! Sleep requests waiting for a tick, answered earliest first.
use vstd::prelude::*;
use crate::seqs::{first_index, lemma_first_index, lemma_first_index_at};
use crate::choreography::protocol::{TimerSleepDone, TimerSleepUntil};

verus! {

/// Why the sleep table refuses a request.
#[derive(Clone, Copy, Debug, PartialEq, Eq, Structural)]
pub enum TimerError {
    TableFull,
    InvalidSleepId,
    UnknownSleepId,
}

/// The id a sleep request is answered with; never 0.
#[derive(Clone, Copy, Debug, PartialEq, Eq, Structural)]
pub struct TimerSleepId(pub u8);

impl TimerSleepId {
    pub fn raw(self) -> (out: u8)
        ensures
            out == self.0,
    {
        self.0
    }
}

/// A pending sleep: its id and the tick it waits for.
#[derive(Clone, Copy, Debug, PartialEq, Eq, Structural)]
pub struct TimerSleepEntry {
    pub id: TimerSleepId,
    pub tick: u64,
}

pub open spec fn free_sleep_slot() -> spec_fn(Option<TimerSleepEntry>) -> bool {
    |e: Option<TimerSleepEntry>| e is None
}

pub open spec fn sleep_slot(id: TimerSleepId) -> spec_fn(Option<TimerSleepEntry>) -> bool {
    |e: Option<TimerSleepEntry>| e is Some && e->Some_0.id == id
}

pub open spec fn sleep_id_in_use(s: Seq<Option<TimerSleepEntry>>, id: int) -> bool {
    exists|i: int| 0 <= i < s.len() && s[i] is Some && s[i]->Some_0.id.0 == id
}

/// The smallest id at or after `candidate` (up to 255) that no pending sleep uses.
pub open spec fn free_sleep_id_from(s: Seq<Option<TimerSleepEntry>>, candidate: int) -> Option<u8>
    decreases 256 - candidate,
{
    if candidate > 255 || candidate < 1 {
        None
    } else if !sleep_id_in_use(s, candidate) {
        Some(candidate as u8)
    } else {
        free_sleep_id_from(s, candidate + 1)
    }
}

/// Requesting a sleep: the slot it takes and the id it gets.
pub open spec fn spec_request_sleep(s: Seq<Option<TimerSleepEntry>>) -> Result<(int, TimerSleepId), TimerError> {
    if first_index(s, free_sleep_slot()) >= s.len() {
        Err(TimerError::TableFull)
    } else {
        match free_sleep_id_from(s, 1) {
            None => Err(TimerError::TableFull),
            Some(id) => Ok((first_index(s, free_sleep_slot()), TimerSleepId(id))),
        }
    }
}

/// Cancelling a sleep: the slot it frees.
pub open spec fn spec_cancel(s: Seq<Option<TimerSleepEntry>>, id: TimerSleepId) -> Result<int, TimerError> {
    if id.0 == 0 {
        Err(TimerError::InvalidSleepId)
    } else if first_index(s, sleep_slot(id)) >= s.len() {
        Err(TimerError::UnknownSleepId)
    } else {
        Ok(first_index(s, sleep_slot(id)))
    }
}

/// Whether slot `i` holds a sleep that is due at `now`.
pub open spec fn is_due(s: Seq<Option<TimerSleepEntry>>, now: u64, i: int) -> bool {
    0 <= i < s.len() && s[i] is Some && s[i]->Some_0.tick <= now
}

/// Among slots `0..k`, the due sleep with the smallest tick, the first of equals.
pub open spec fn earliest_due(s: Seq<Option<TimerSleepEntry>>, now: u64, k: int) -> Option<int>
    decreases k,
{
    if k <= 0 {
        None
    } else {
        let prev = earliest_due(s, now, k - 1);
        if is_due(s, now, k - 1) && (prev is None || s[k - 1]->Some_0.tick < s[prev->Some_0]->Some_0.tick) {
            Some(k - 1)
        } else {
            prev
        }
    }
}

/// A fixed table of `N` pending sleeps.
pub struct TimerSleepTable<const N: usize> {
    slots: Vec<Option<TimerSleepEntry>>,
}

impl<const N: usize> TimerSleepTable<N> {
    pub closed spec fn view(&self) -> Seq<Option<TimerSleepEntry>> {
        self.slots@
    }

    pub open spec fn wf(&self) -> bool {
        self.view().len() == N
    }

    pub fn new() -> (out: Self)
        ensures
            out.wf(),
            out.view() == Seq::new(N as nat, |i: int| None::<TimerSleepEntry>),
    {
        let mut slots: Vec<Option<TimerSleepEntry>> = Vec::new();
        let mut i: usize = 0;
        while i < N
            invariant
                i <= N,
                slots@ == Seq::new(i as nat, |j: int| None::<TimerSleepEntry>),
            decreases N - i,
        {
            slots.push(None);
            i = i + 1;
            assert(slots@ =~= Seq::new(i as nat, |j: int| None::<TimerSleepEntry>));
        }
        TimerSleepTable { slots }
    }

    fn sleep_id_used(&self, candidate: u8) -> (out: bool)
        ensures
            out == sleep_id_in_use(self.view(), candidate as int),
    {
        let n = self.slots.len();
        let mut i: usize = 0;
        while i < n
            invariant
                n == self.view().len(),
                i <= n,
                forall|j: int| 0 <= j < i ==> !(self.view()[j] is Some && #[trigger] self.view()[j]->Some_0.id.0 == candidate),
            decreases n - i,
        {
            match self.slots[i] {
                Some(entry) => {
                    if entry.id.0 == candidate {
                        return true;
                    }
                },
                None => {},
            }
            i = i + 1;
        }
        false
    }

    fn allocate_id(&self) -> (out: Result<TimerSleepId, TimerError>)
        ensures
            match free_sleep_id_from(self.view(), 1) {
                Some(id) => out == Ok::<TimerSleepId, TimerError>(TimerSleepId(id)),
                None => out == Err::<TimerSleepId, TimerError>(TimerError::TableFull),
            },
    {
        let mut candidate: u16 = 1;
        while candidate <= 255
            invariant
                1 <= candidate <= 256,
                free_sleep_id_from(self.view(), 1) == free_sleep_id_from(self.view(), candidate as int),
            decreases 256 - candidate,
        {
            let c = candidate as u8;
            if !self.sleep_id_used(c) {
                return Ok(TimerSleepId(c));
            }
            candidate = candidate + 1;
        }
        Err(TimerError::TableFull)
    }

    pub fn request_sleep(&mut self, sleep: TimerSleepUntil) -> (out: Result<TimerSleepId, TimerError>)
        requires
            old(self).wf(),
        ensures
            final(self).wf(),
            match spec_request_sleep(old(self).view()) {
                Ok(p) => out == Ok::<TimerSleepId, TimerError>(p.1)
                    && final(self).view() == old(self).view().update(p.0, Some(TimerSleepEntry { id: p.1, tick: sleep.tick })),
                Err(e) => out == Err::<TimerSleepId, TimerError>(e) && final(self).view() == old(self).view(),
            },
    {
        let n = self.slots.len();
        let mut index: usize = 0;
        while index < n && self.slots[index].is_some()
            invariant
                n == self.view().len(),
                index <= n,
                forall|j: int| 0 <= j < index ==> !(#[trigger] free_sleep_slot()(self.view()[j])),
            decreases n - index,
        {
            index = index + 1;
        }
        proof {
            lemma_first_index(self.view(), free_sleep_slot());
        }
        if index == n {
            return Err(TimerError::TableFull);
        }
        proof {
            lemma_first_index_at(self.view(), free_sleep_slot(), index as int);
        }
        let id = self.allocate_id()?;
        self.slots.set(index, Some(TimerSleepEntry { id, tick: sleep.tick() }));
        Ok(id)
    }

    pub fn cancel(&mut self, id: TimerSleepId) -> (out: Result<(), TimerError>)
        requires
            old(self).wf(),
        ensures
            final(self).wf(),
            match spec_cancel(old(self).view(), id) {
                Ok(i) => out == Ok::<(), TimerError>(()) && final(self).view() == old(self).view().update(i, None),
                Err(e) => out == Err::<(), TimerError>(e) && final(self).view() == old(self).view(),
            },
    {
        if id.raw() == 0 {
            return Err(TimerError::InvalidSleepId);
        }
        let n = self.slots.len();
        let mut i: usize = 0;
        while i < n
            invariant
                n == self.view().len(),
                n == N,
                id.0 != 0,
                self.view() == old(self).view(),
                i <= n,
                forall|j: int| 0 <= j < i ==> !(#[trigger] sleep_slot(id)(self.view()[j])),
            decreases n - i,
        {
            match self.slots[i] {
                Some(entry) => {
                    if entry.id == id {
                        proof {
                            lemma_first_index_at(self.view(), sleep_slot(id), i as int);
                        }
                        self.slots.set(i, None);
                        return Ok(());
                    }
                },
                None => {},
            }
            i = i + 1;
        }
        proof {
            lemma_first_index(self.view(), sleep_slot(id));
        }
        Err(TimerError::UnknownSleepId)
    }

    pub fn poll(&mut self, now_tick: u64) -> (out: Option<TimerSleepDone>)
        requires
            old(self).wf(),
        ensures
            final(self).wf(),
            match earliest_due(old(self).view(), now_tick, N as int) {
                Some(i) => out == Some(TimerSleepDone { tick: old(self).view()[i]->Some_0.tick })
                    && final(self).view() == old(self).view().update(i, None),
                None => out is None && final(self).view() == old(self).view(),
            },
    {
        let n = self.slots.len();
        let mut best: Option<usize> = None;
        let mut i: usize = 0;
        while i < n
            invariant
                n == self.view().len(),
                n == N,
                i <= n,
                self.view() == old(self).view(),
                match best {
                    Some(b) => earliest_due(self.view(), now_tick, i as int) == Some(b as int) && b < i
                        && is_due(self.view(), now_tick, b as int),
                    None => earliest_due(self.view(), now_tick, i as int) is None,
                },
            decreases n - i,
        {
            match self.slots[i] {
                Some(entry) => {
                    if entry.tick <= now_tick {
                        match best {
                            None => {
                                best = Some(i);
                            },
                            Some(b) => {
                                let current = self.slots[b];
                                match current {
                                    Some(c) => {
                                        if entry.tick < c.tick {
                                            best = Some(i);
                                        }
                                    },
                                    None => {},
                                }
                            },
                        }
                    }
                },
                None => {},
            }
            i = i + 1;
        }
        match best {
            None => None,
            Some(b) => {
                let tick = match self.slots[b] {
                    Some(entry) => entry.tick,
                    None => 0,
                };
                self.slots.set(b, None);
                Some(TimerSleepDone::new(tick))
            },
        }
    }
}

impl<const N: usize> Default for TimerSleepTable<N> {
    fn default() -> (out: Self)
        ensures
            out.wf(),
            out.view() == Seq::new(N as nat, |i: int| None::<TimerSleepEntry>),
    {
        Self::new()
    }
}

/// The sleep that a poll answers was due, and no due sleep waits for an earlier tick.
pub proof fn lemma_earliest_due_is_minimal(s: Seq<Option<TimerSleepEntry>>, now: u64, k: int)
    requires
        0 <= k <= s.len(),
    ensures
        match earliest_due(s, now, k) {
            Some(i) => 0 <= i < k && is_due(s, now, i)
                && forall|j: int| 0 <= j < k && is_due(s, now, j) ==> s[i]->Some_0.tick <= #[trigger] s[j]->Some_0.tick,
            None => forall|j: int| 0 <= j < k ==> !#[trigger] is_due(s, now, j),
        },
    decreases k,
{
    if k > 0 {
        lemma_earliest_due_is_minimal(s, now, k - 1);
    }
}

} // verus!
