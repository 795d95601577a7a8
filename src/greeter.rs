use vstd::prelude::*;
use crate::message::greeting_bytes;

verus! {

/// Where the single greeting task stands.
#[derive(Clone, Copy, Debug, PartialEq, Eq, Structural)]
pub enum Phase {
    /// No instance is active: a spawn request starts one.
    Idle,
    /// The greeting is being written to the serial port.
    Writing,
    /// The greeting was written; the task sleeps until `wake_at`.
    Waiting { wake_at: u64 },
}

/// What happens to the task, as the runtime reports it.
#[derive(Clone, Copy, Debug, PartialEq, Eq, Structural)]
pub enum Event {
    /// The idle loop asks for the task to run.
    Spawn,
    /// The blocking write returned after `elapsed` ticks.
    WriteDone { elapsed: u64 },
    /// The monotonic timer advanced by `elapsed` ticks.
    Tick { elapsed: u64 },
}

/// What the runtime has to do next.
#[derive(Clone, Copy, Debug, PartialEq, Eq, Structural)]
pub enum Action {
    /// Nothing: a dropped spawn request, or time passing with nothing due.
    Nothing,
    /// Write the greeting line to the serial port, blocking until it is taken.
    WriteGreeting,
    /// Suspend the task until the timer reaches `wake_at`.
    Sleep { wake_at: u64 },
    /// The task instance has finished; the next spawn starts a new one.
    Finished,
}

/// The scheduling state of the greeting task, in ticks of a 1 MHz timer.
#[derive(Clone, Copy, Debug, PartialEq, Eq, Structural)]
pub struct Greeter {
    /// The time now.
    pub now: u64,
    pub phase: Phase,
    /// How long the task sleeps after each greeting.
    pub delay: u64,
    /// How many greetings have been started.
    pub sent: u64,
    /// When the last greeting started to be written.
    pub last_start: u64,
    /// When the last greeting's write returned.
    pub last_done: u64,
}

/// The output that an action puts on the serial line.
pub open spec fn written(a: Action) -> Seq<u8> {
    if a is WriteGreeting {
        greeting_bytes()
    } else {
        Seq::empty()
    }
}

/// Relies on fugit's `Duration::<u64, 1, 1_000_000>::millis`: a number of
/// milliseconds becomes that many thousand ticks of a 1 MHz timer.
#[verifier::external_body]
fn millis_to_ticks(ms: u64) -> (r: u64)
    requires
        ms <= u64::MAX / 1000,
    ensures
        r == ms * 1000,
{
    fugit::Duration::<u64, 1, 1_000_000>::millis(ms).ticks()
}

/// The pause between greetings, in milliseconds.
pub const GREETING_DELAY_MS: u64 = 1000;

impl Greeter {
    /// The state's invariant: the times recorded are consistent with the phase.
    pub open spec fn wf(self) -> bool {
        &&& self.last_start <= self.last_done || self.phase is Writing
        &&& self.last_start <= self.now
        &&& match self.phase {
            Phase::Idle => self.sent > 0 ==> self.last_done + self.delay <= self.now,
            Phase::Writing => self.sent > 0,
            Phase::Waiting { wake_at } => self.sent > 0 && wake_at == self.last_done
                + self.delay,
        }
    }

    /// Whether the event can be taken without a counter or clock overflowing.
    pub open spec fn has_room_spec(self, ev: Event) -> bool {
        match ev {
            Event::Spawn => self.sent < u64::MAX,
            Event::WriteDone { elapsed } => self.now + elapsed + self.delay <= u64::MAX,
            Event::Tick { elapsed } => self.now + elapsed <= u64::MAX,
        }
    }

    /// The state and action after an event.
    pub open spec fn next(self, ev: Event) -> (Greeter, Action) {
        match ev {
            Event::Spawn => if self.phase is Idle {
                (
                    Greeter {
                        phase: Phase::Writing,
                        sent: (self.sent + 1) as u64,
                        last_start: self.now,
                        ..self
                    },
                    Action::WriteGreeting,
                )
            } else {
                (self, Action::Nothing)
            },
            Event::WriteDone { elapsed } => if self.phase is Writing {
                let t = (self.now + elapsed) as u64;
                let w = (t + self.delay) as u64;
                (
                    Greeter { now: t, phase: Phase::Waiting { wake_at: w }, last_done: t, ..self },
                    Action::Sleep { wake_at: w },
                )
            } else {
                (self, Action::Nothing)
            },
            Event::Tick { elapsed } => {
                let t = (self.now + elapsed) as u64;
                match self.phase {
                    Phase::Waiting { wake_at } => if wake_at <= t {
                        (Greeter { now: t, phase: Phase::Idle, ..self }, Action::Finished)
                    } else {
                        (Greeter { now: t, ..self }, Action::Nothing)
                    },
                    _ => (Greeter { now: t, ..self }, Action::Nothing),
                }
            },
        }
    }

    /// A task that has never run, at time zero, sleeping `delay_ms`
    /// milliseconds after each greeting.
    pub fn new(delay_ms: u64) -> (r: Greeter)
        requires
            delay_ms <= u64::MAX / 1000,
        ensures
            r.wf(),
            r.now == 0,
            r.phase is Idle,
            r.delay == delay_ms * 1000,
            r.sent == 0,
            r.last_start == 0,
            r.last_done == 0,
    {
        Greeter {
            now: 0,
            phase: Phase::Idle,
            delay: millis_to_ticks(delay_ms),
            sent: 0,
            last_start: 0,
            last_done: 0,
        }
    }

    /// Whether `step` can take the event without overflow.
    pub fn has_room(&self, ev: Event) -> (r: bool)
        ensures
            r == self.has_room_spec(ev),
    {
        match ev {
            Event::Spawn => self.sent < u64::MAX,
            Event::WriteDone { elapsed } => elapsed <= u64::MAX - self.now && self.delay
                <= u64::MAX - self.now - elapsed,
            Event::Tick { elapsed } => elapsed <= u64::MAX - self.now,
        }
    }

    /// Takes one event and returns what the runtime has to do.
    /// A spawn request while an instance is active is dropped.
    pub fn step(&mut self, ev: Event) -> (a: Action)
        requires
            old(self).has_room_spec(ev),
        ensures
            (*final(self), a) == old(self).next(ev),
            old(self).wf() ==> final(self).wf(),
            ev is Spawn && !(old(self).phase is Idle) ==> *final(self) == *old(self) && a
                is Nothing,
            ev is Spawn && old(self).phase is Idle ==> a is WriteGreeting && final(self).sent
                == old(self).sent + 1,
    {
        match ev {
            Event::Spawn => {
                if self.phase == Phase::Idle {
                    self.phase = Phase::Writing;
                    self.sent = self.sent + 1;
                    self.last_start = self.now;
                    Action::WriteGreeting
                } else {
                    Action::Nothing
                }
            },
            Event::WriteDone { elapsed } => {
                if self.phase == Phase::Writing {
                    let t = self.now + elapsed;
                    let w = t + self.delay;
                    self.now = t;
                    self.phase = Phase::Waiting { wake_at: w };
                    self.last_done = t;
                    Action::Sleep { wake_at: w }
                } else {
                    Action::Nothing
                }
            },
            Event::Tick { elapsed } => {
                let t = self.now + elapsed;
                self.now = t;
                match self.phase {
                    Phase::Waiting { wake_at } => {
                        if wake_at <= t {
                            self.phase = Phase::Idle;
                            Action::Finished
                        } else {
                            Action::Nothing
                        }
                    },
                    _ => Action::Nothing,
                }
            },
        }
    }
}

/// Every event that fits keeps the state's invariant.
pub proof fn next_keeps_wf(g: Greeter, ev: Event)
    requires
        g.wf(),
        g.has_room_spec(ev),
    ensures
        g.next(ev).0.wf(),
{
}

/// A spawn request while an instance is writing or sleeping is dropped: the
/// state stays as it was and nothing is written or queued.
pub proof fn spawn_while_active_is_dropped(g: Greeter)
    requires
        !(g.phase is Idle),
    ensures
        g.next(Event::Spawn) == (g, Action::Nothing),
{
}

/// A greeting starts no earlier than the previous one's start, plus the time
/// its write took, plus the full delay.
pub proof fn greetings_are_spaced(g: Greeter, ev: Event)
    requires
        g.wf(),
        g.sent > 0,
        g.next(ev).1 is WriteGreeting,
    ensures
        g.next(ev).0.last_start >= g.last_start + (g.last_done - g.last_start) + g.delay,
        g.last_done >= g.last_start,
{
}

/// From any idle state, however many greetings came before, a spawn, a write
/// that takes `write_time` ticks and a sleep of the delay bring the task back
/// to idle with one more greeting, after exactly `write_time` plus the delay.
pub proof fn greeting_cycle_repeats(g: Greeter, write_time: u64)
    requires
        g.wf(),
        g.phase is Idle,
        g.sent < u64::MAX,
        g.now + write_time + g.delay <= u64::MAX,
    ensures
        ({
            let (g1, a1) = g.next(Event::Spawn);
            let (g2, a2) = g1.next(Event::WriteDone { elapsed: write_time });
            let (g3, a3) = g2.next(Event::Tick { elapsed: g.delay });
            &&& a1 is WriteGreeting
            &&& a2 == Action::Sleep { wake_at: (g.now + write_time + g.delay) as u64 }
            &&& a3 is Finished
            &&& g3.wf()
            &&& g3.phase is Idle
            &&& g3.sent == g.sent + 1
            &&& g3.delay == g.delay
            &&& g3.now == g.now + write_time + g.delay
            &&& g3.last_start == g.now
            &&& g3.last_done == g.now + write_time
        }),
{
}

} // verus!
