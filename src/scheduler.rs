use vstd::prelude::*;

verus! {

/// The outcome of one update cycle: wake again after a number of seconds, or
/// sleep until a wake is requested.
#[derive(PartialEq, Eq, Structural, Debug, Clone, Copy)]
pub enum UpdatePolicy {
    After(u64),
    Dormant,
}

/// The scheduling state of one block.
#[derive(PartialEq, Eq, Structural, Debug, Clone, Copy)]
pub struct Slot {
    /// The time of the armed timer, if any.
    pub due: Option<u64>,
    /// An update cycle of the block is running.
    pub in_flight: bool,
    /// A wake was requested and not yet honoured.
    pub pending: bool,
    /// The retry interval after a failed cycle, in seconds.
    pub interval: u64,
}

/// Whether a block may start an update cycle at time `now`: none of its cycles
/// is running, and a wake was requested or its timer has elapsed.
pub open spec fn is_due(s: Slot, now: u64) -> bool {
    !s.in_flight && (s.pending || (s.due matches Some(t) && t <= now))
}

/// Whether a block waits for nothing: no cycle running, no timer, no request.
pub open spec fn is_dormant(s: Slot) -> bool {
    !s.in_flight && !s.pending && s.due is None
}

/// `now + d`, held at the largest time.
pub open spec fn wake_time(now: u64, d: u64) -> u64 {
    if now + d > u64::MAX {
        u64::MAX
    } else {
        (now + d) as u64
    }
}

/// The timer that the outcome of a cycle arms: after the given delay, none
/// when dormant, and after the block's interval when the cycle failed.
pub open spec fn next_due(s: Slot, outcome: Option<UpdatePolicy>, now: u64) -> Option<u64> {
    match outcome {
        Some(UpdatePolicy::After(d)) => Some(wake_time(now, d)),
        Some(UpdatePolicy::Dormant) => None,
        None => Some(wake_time(now, s.interval)),
    }
}

/// Decides when each block runs; the caller performs the cycles and reports
/// their outcomes.
pub struct Scheduler {
    slots: Vec<Slot>,
}

impl View for Scheduler {
    type V = Seq<Slot>;

    closed spec fn view(&self) -> Seq<Slot> {
        self.slots@
    }
}

fn add_saturating(now: u64, d: u64) -> (r: u64)
    ensures
        r == wake_time(now, d),
{
    if d > u64::MAX - now {
        u64::MAX
    } else {
        now + d
    }
}

impl Scheduler {
    /// A scheduler with no blocks.
    pub fn new() -> (r: Scheduler)
        ensures
            r@ == Seq::<Slot>::empty(),
    {
        Scheduler { slots: Vec::new() }
    }

    /// The number of registered blocks.
    pub fn len(&self) -> (r: usize)
        ensures
            r == self@.len(),
    {
        self.slots.len()
    }

    /// Registers a block with the retry interval `interval` and returns its id,
    /// the next in sequence. The block is due at once.
    pub fn register(&mut self, interval: u64) -> (r: usize)
        requires
            old(self)@.len() < usize::MAX,
        ensures
            r == old(self)@.len(),
            final(self)@ == old(self)@.push(Slot { due: None, in_flight: false, pending: true, interval }),
    {
        let id = self.slots.len();
        self.slots.push(Slot { due: None, in_flight: false, pending: true, interval });
        id
    }

    /// Records a wake request for block `id`; it is honoured once no cycle of the
    /// block runs. An unknown id changes nothing.
    pub fn request_wake(&mut self, id: usize)
        ensures
            id < old(self)@.len() ==> final(self)@ == old(self)@.update(
                id as int,
                Slot { pending: true, ..old(self)@[id as int] },
            ),
            id >= old(self)@.len() ==> final(self)@ == old(self)@,
    {
        if id < self.slots.len() {
            let mut s = self.slots[id];
            s.pending = true;
            self.slots.set(id, s);
        }
    }

    /// Starts the cycle of the first block that is due at `now`: it is marked as
    /// running, its request and timer are consumed. `None` when no block is due.
    pub fn next_dispatch(&mut self, now: u64) -> (r: Option<usize>)
        ensures
            match r {
                Some(id) => {
                    &&& id < old(self)@.len()
                    &&& is_due(old(self)@[id as int], now)
                    &&& !old(self)@[id as int].in_flight
                    &&& forall|k: int| 0 <= k < id ==> !is_due(#[trigger] old(self)@[k], now)
                    &&& final(self)@ == old(self)@.update(
                        id as int,
                        Slot { due: None, in_flight: true, pending: false, ..old(self)@[id as int] },
                    )
                },
                None => {
                    &&& final(self)@ == old(self)@
                    &&& forall|k: int| 0 <= k < old(self)@.len() ==> !is_due(#[trigger] old(self)@[k], now)
                },
            },
    {
        let mut i: usize = 0;
        while i < self.slots.len()
            invariant
                self@ == old(self)@,
                0 <= i <= self@.len(),
                forall|k: int| 0 <= k < i ==> !is_due(#[trigger] self@[k], now),
            decreases self@.len() - i,
        {
            let s = self.slots[i];
            let timer_elapsed = match s.due {
                Some(t) => t <= now,
                None => false,
            };
            if !s.in_flight && (s.pending || timer_elapsed) {
                self.slots.set(i, Slot { due: None, in_flight: true, pending: false, ..s });
                return Some(i);
            }
            i = i + 1;
        }
        None
    }

    /// Records the outcome of the running cycle of block `id` at time `now`
    /// (`None` for a failed cycle) and arms its next timer. A block with no
    /// running cycle, or an unknown id, changes nothing.
    pub fn complete(&mut self, id: usize, outcome: Option<UpdatePolicy>, now: u64)
        ensures
            (id < old(self)@.len() && old(self)@[id as int].in_flight) ==> final(self)@ == old(self)@.update(
                id as int,
                Slot {
                    due: next_due(old(self)@[id as int], outcome, now),
                    in_flight: false,
                    ..old(self)@[id as int]
                },
            ),
            !(id < old(self)@.len() && old(self)@[id as int].in_flight) ==> final(self)@ == old(self)@,
    {
        if id < self.slots.len() && self.slots[id].in_flight {
            let s = self.slots[id];
            let due = match outcome {
                Some(UpdatePolicy::After(d)) => Some(add_saturating(now, d)),
                Some(UpdatePolicy::Dormant) => None,
                None => Some(add_saturating(now, s.interval)),
            };
            self.slots.set(id, Slot { due, in_flight: false, ..s });
        }
    }

    /// The earliest armed timer of a block with no running cycle, for the wait
    /// of the control loop.
    pub fn next_deadline(&self) -> (r: Option<u64>)
        ensures
            match r {
                Some(t) => {
                    &&& exists|k: int| 0 <= k < self@.len() && !(#[trigger] self@[k]).in_flight && self@[k].due == Some(t)
                    &&& forall|k: int| 0 <= k < self@.len() && !(#[trigger] self@[k]).in_flight && self@[k].due is Some
                        ==> t <= self@[k].due->0
                },
                None => forall|k: int| 0 <= k < self@.len() ==> (#[trigger] self@[k]).in_flight || self@[k].due is None,
            },
    {
        let mut best: Option<u64> = None;
        let mut i: usize = 0;
        while i < self.slots.len()
            invariant
                0 <= i <= self@.len(),
                match best {
                    Some(t) => {
                        &&& exists|k: int| 0 <= k < i && !(#[trigger] self@[k]).in_flight && self@[k].due == Some(t)
                        &&& forall|k: int| 0 <= k < i && !(#[trigger] self@[k]).in_flight && self@[k].due is Some
                            ==> t <= self@[k].due->0
                    },
                    None => forall|k: int| 0 <= k < i ==> (#[trigger] self@[k]).in_flight || self@[k].due is None,
                },
            decreases self@.len() - i,
        {
            let s = self.slots[i];
            if !s.in_flight {
                match s.due {
                    Some(t) => {
                        match best {
                            Some(b) => {
                                if t < b {
                                    best = Some(t);
                                }
                            },
                            None => {
                                best = Some(t);
                            },
                        }
                    },
                    None => {},
                }
            }
            i = i + 1;
        }
        best
    }
}

/// A block whose cycle ended dormant, with no wake requested meanwhile, waits
/// for nothing.
pub proof fn dormant_outcome_arms_nothing(s: Slot, now: u64)
    requires
        s.in_flight,
        !s.pending,
    ensures
        is_dormant(Slot { due: next_due(s, Some(UpdatePolicy::Dormant), now), in_flight: false, ..s }),
{
}

/// A dormant block is never due, whatever the time: only `request_wake` makes
/// it due again.
pub proof fn dormant_is_never_due(s: Slot, now: u64)
    requires
        is_dormant(s),
    ensures
        !is_due(s, now),
        is_due(Slot { pending: true, ..s }, now),
{
}

/// A block with a running cycle is never due, so no second cycle of it starts.
pub proof fn running_is_never_due(s: Slot, now: u64)
    requires
        s.in_flight,
    ensures
        !is_due(s, now),
{
}

} // verus!
