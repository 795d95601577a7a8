use vstd::prelude::*;
use crate::greeter::{greetings_are_spaced, next_keeps_wf, written, Action, Event, Greeter, Phase, GREETING_DELAY_MS};
use crate::message::{stream, stream_grows_by_one_greeting};

verus! {

/// Why start-up stopped the firmware.
#[derive(Clone, Copy, Debug, PartialEq, Eq, Structural)]
pub enum StartupError {
    /// The clock tree could not be brought up.
    Clocks,
    /// The serial port refused its settings.
    Uart,
}

/// The firmware after start-up: halted for good, or running the greeting task.
#[derive(Clone, Copy, Debug, PartialEq, Eq, Structural)]
pub enum Firmware {
    Halted { error: StartupError },
    Running { greeter: Greeter },
}

/// The greeting task as start-up leaves it: never run, at time zero.
pub open spec fn fresh_greeter() -> Greeter {
    Greeter {
        now: 0,
        phase: Phase::Idle,
        delay: (GREETING_DELAY_MS * 1000) as u64,
        sent: 0,
        last_start: 0,
        last_done: 0,
    }
}

/// The firmware after start-up, given whether the clocks and then the
/// serial port came up.
pub open spec fn booted(clocks_ok: bool, uart_ok: bool) -> Firmware {
    if !clocks_ok {
        Firmware::Halted { error: StartupError::Clocks }
    } else if !uart_ok {
        Firmware::Halted { error: StartupError::Uart }
    } else {
        Firmware::Running { greeter: fresh_greeter() }
    }
}

impl Firmware {
    /// Decides the outcome of start-up. A failure of either step halts the
    /// firmware; the serial port is only tried once the clocks are up.
    pub fn boot(clocks_ok: bool, uart_ok: bool) -> (r: Firmware)
        ensures
            r == booted(clocks_ok, uart_ok),
            r matches Firmware::Running { greeter } ==> greeter.wf(),
    {
        if !clocks_ok {
            Firmware::Halted { error: StartupError::Clocks }
        } else if !uart_ok {
            Firmware::Halted { error: StartupError::Uart }
        } else {
            Firmware::Running { greeter: Greeter::new(GREETING_DELAY_MS) }
        }
    }

    /// A running firmware's task state keeps its invariant.
    pub open spec fn wf(self) -> bool {
        match self {
            Firmware::Halted { .. } => true,
            Firmware::Running { greeter } => greeter.wf(),
        }
    }

    /// The state and action after an event: a halted firmware does nothing.
    pub open spec fn next(self, ev: Event) -> (Firmware, Action) {
        match self {
            Firmware::Halted { .. } => (self, Action::Nothing),
            Firmware::Running { greeter } => {
                let (g, a) = greeter.next(ev);
                (Firmware::Running { greeter: g }, a)
            },
        }
    }

    pub open spec fn has_room_spec(self, ev: Event) -> bool {
        match self {
            Firmware::Halted { .. } => true,
            Firmware::Running { greeter } => greeter.has_room_spec(ev),
        }
    }

    /// Whether `step` can take the event without overflow.
    pub fn has_room(&self, ev: Event) -> (r: bool)
        ensures
            r == self.has_room_spec(ev),
    {
        match self {
            Firmware::Halted { .. } => true,
            Firmware::Running { greeter } => greeter.has_room(ev),
        }
    }

    /// Takes one event and returns what the runtime has to do.
    pub fn step(&mut self, ev: Event) -> (a: Action)
        requires
            old(self).has_room_spec(ev),
        ensures
            (*final(self), a) == old(self).next(ev),
            old(self).wf() ==> final(self).wf(),
    {
        match self {
            Firmware::Halted { .. } => Action::Nothing,
            Firmware::Running { greeter } => greeter.step(ev),
        }
    }

    /// The state after a sequence of events, and the bytes written on the way.
    pub open spec fn run(self, events: Seq<Event>) -> (Firmware, Seq<u8>)
        decreases events.len(),
    {
        if events.len() == 0 {
            (self, Seq::empty())
        } else {
            let (f, out) = self.run(events.drop_last());
            let (f2, a) = f.next(events.last());
            (f2, out + written(a))
        }
    }

    /// Whether each event of the sequence, taken in order, finds room.
    pub open spec fn fits(self, events: Seq<Event>) -> bool
        decreases events.len(),
    {
        events.len() == 0 || (self.fits(events.drop_last()) && self.run(
            events.drop_last(),
        ).0.has_room_spec(events.last()))
    }
}

/// The invariant holds in every state that a run reaches.
pub proof fn run_keeps_wf(fw: Firmware, events: Seq<Event>)
    requires
        fw.wf(),
        fw.fits(events),
    ensures
        fw.run(events).0.wf(),
    decreases events.len(),
{
    if events.len() > 0 {
        run_keeps_wf(fw, events.drop_last());
        let f = fw.run(events.drop_last()).0;
        if let Firmware::Running { greeter } = f {
            next_keeps_wf(greeter, events.last());
        }
    }
}

/// Whatever happens, the serial line carries whole greetings only, one after
/// another: never a partial line, never other bytes.
pub proof fn output_is_whole_greetings(fw: Firmware, events: Seq<Event>)
    ensures
        exists|k: nat| fw.run(events).1 == stream(k),
    decreases events.len(),
{
    if events.len() == 0 {
        assert(fw.run(events).1 == stream(0));
    } else {
        output_is_whole_greetings(fw, events.drop_last());
        let k = choose|k: nat| fw.run(events.drop_last()).1 == stream(k);
        let (f, out) = fw.run(events.drop_last());
        let (f2, a) = f.next(events.last());
        if a is WriteGreeting {
            stream_grows_by_one_greeting(k);
            assert(fw.run(events).1 == stream(k + 1));
        } else {
            assert(fw.run(events).1 =~= stream(k));
        }
    }
}

/// A firmware halted at start-up stays halted and never writes a byte.
pub proof fn halted_firmware_sends_nothing(error: StartupError, events: Seq<Event>)
    ensures
        (Firmware::Halted { error }).run(events) == (Firmware::Halted { error }, Seq::<u8>::empty()),
    decreases events.len(),
{
    if events.len() > 0 {
        halted_firmware_sends_nothing(error, events.drop_last());
        let fw = Firmware::Halted { error };
        assert(fw.run(events).1 =~= Seq::<u8>::empty());
    }
}

/// When the clocks cannot be set up, nothing ever reaches the serial line.
pub proof fn clock_failure_sends_nothing(uart_ok: bool, events: Seq<Event>)
    ensures
        booted(false, uart_ok).run(events).1 == Seq::<u8>::empty(),
{
    halted_firmware_sends_nothing(StartupError::Clocks, events);
}

/// A running firmware keeps running: no event stops it.
pub proof fn running_firmware_never_stops(greeter: Greeter, events: Seq<Event>)
    ensures
        (Firmware::Running { greeter }).run(events).0 is Running,
    decreases events.len(),
{
    if events.len() > 0 {
        running_firmware_never_stops(greeter, events.drop_last());
    }
}

/// However a run went, the greeting that a later spawn starts begins no
/// earlier than the previous greeting's start, plus that write's duration,
/// plus the full delay.
pub proof fn greetings_in_a_run_are_spaced(greeter: Greeter, events: Seq<Event>, ev: Event)
    requires
        greeter.wf(),
        (Firmware::Running { greeter }).fits(events),
        (Firmware::Running { greeter }).run(events).0 matches Firmware::Running { greeter: g }
            && g.sent > 0 && g.next(ev).1 is WriteGreeting,
    ensures
        (Firmware::Running { greeter }).run(events).0 matches Firmware::Running { greeter: g }
            && g.last_done >= g.last_start && g.next(ev).0.last_start >= g.last_start + (
        g.last_done - g.last_start) + g.delay,
{
    let fw = Firmware::Running { greeter };
    run_keeps_wf(fw, events);
    if let Firmware::Running { greeter: g } = fw.run(events).0 {
        greetings_are_spaced(g, ev);
    }
}

} // verus!
