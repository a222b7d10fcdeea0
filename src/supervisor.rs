use vstd::prelude::*;
use crate::launch::{
    not_started_message, not_started_message_spec, started_message, started_message_spec,
    stopped_message, stopped_message_spec, STARTUP_DELAY_MS,
};

verus! {

/// Where the supervised server stands in one run of the application.
#[derive(Clone, Copy, Debug, PartialEq, Eq, Structural)]
pub enum Phase {
    /// No launch outcome has been seen yet.
    Starting,
    /// The server was launched and its handle is held.
    Running,
    /// The launch failed; the application goes on without a server.
    Unavailable,
    /// The server was launched and has since been told to stop.
    Stopped,
}

/// What the application reports to the supervisor.
pub enum Event<H> {
    /// The server process was started; `H` is the handle to it.
    Launched(H),
    /// The server process could not be started, for the reason given.
    LaunchFailed(String),
    /// The primary window was destroyed.
    WindowDestroyed,
}

/// What the application must do after reporting an event.
pub enum Action<H> {
    /// Pause for `delay_ms` milliseconds, then print `message`.
    Settle { delay_ms: u64, message: String },
    /// Print `message`.
    Report { message: String },
    /// Kill `process` without waiting for it to exit, then print `message`.
    Stop { process: H, message: String },
    /// Kill `process`, which the supervisor does not take: a server is launched once per run.
    Release { process: H },
    /// Nothing to do.
    Ignore,
}

/// Supervises the single server process of one application run.
///
/// The handle slot is filled exactly while the phase is `Running`.
pub struct Supervisor<H> {
    pub phase: Phase,
    pub process: Option<H>,
}

impl<H> Supervisor<H> {
    /// The handle slot is filled exactly while the server runs.
    pub open spec fn wf(&self) -> bool {
        self.process is Some <==> self.phase == Phase::Running
    }

    /// A supervisor before any launch: nothing recorded.
    pub open spec fn initial() -> Self {
        Supervisor { phase: Phase::Starting, process: None }
    }

    /// The state after `event`.
    pub open spec fn next(self, event: Event<H>) -> Self {
        match event {
            Event::Launched(h) => if self.phase == Phase::Starting {
                Supervisor { phase: Phase::Running, process: Some(h) }
            } else {
                self
            },
            Event::LaunchFailed(_) => if self.phase == Phase::Starting {
                Supervisor { phase: Phase::Unavailable, process: None }
            } else {
                self
            },
            Event::WindowDestroyed => if self.process is Some {
                Supervisor { phase: Phase::Stopped, process: None }
            } else {
                self
            },
        }
    }

    /// Whether `event` puts a process into the handle slot.
    pub open spec fn records(self, event: Event<H>) -> bool {
        event is Launched && self.phase == Phase::Starting
    }

    /// Whether `event` makes the supervisor kill the process it holds.
    pub open spec fn stops(self, event: Event<H>) -> bool {
        event is WindowDestroyed && self.process is Some
    }

    /// Whether `action` is what the supervisor asks for on `event`.
    pub open spec fn answers(self, event: Event<H>, action: Action<H>) -> bool {
        match event {
            Event::Launched(h) => if self.phase == Phase::Starting {
                &&& action is Settle
                &&& action->Settle_delay_ms == STARTUP_DELAY_MS
                &&& action->Settle_message@ == started_message_spec()
            } else {
                action is Release && action->Release_process == h
            },
            Event::LaunchFailed(reason) => if self.phase == Phase::Starting {
                action is Report && action->Report_message@ == not_started_message_spec(reason@)
            } else {
                action is Ignore
            },
            Event::WindowDestroyed => if self.process is Some {
                &&& action is Stop
                &&& action->Stop_process == self.process->0
                &&& action->Stop_message@ == stopped_message_spec()
            } else {
                action is Ignore
            },
        }
    }

    /// A supervisor that has seen no launch yet.
    pub fn new() -> (r: Self)
        ensures
            r == Self::initial(),
            r.wf(),
    {
        Supervisor { phase: Phase::Starting, process: None }
    }

    /// Whether the handle slot holds a process.
    pub fn is_running(&self) -> (r: bool)
        requires
            self.wf(),
        ensures
            r == (self.process is Some),
    {
        self.phase == Phase::Running
    }

    /// Takes in one event and says what the application must do about it.
    ///
    /// The first launch outcome is recorded; any later one is handed back. A destroyed
    /// window takes the handle out of the slot, once, and asks for the process to be killed.
    pub fn handle_event(&mut self, event: Event<H>) -> (action: Action<H>)
        requires
            old(self).wf(),
        ensures
            final(self).wf(),
            *final(self) == old(self).next(event),
            old(self).answers(event, action),
    {
        match event {
            Event::Launched(h) => {
                if self.phase == Phase::Starting {
                    self.phase = Phase::Running;
                    self.process = Some(h);
                    Action::Settle { delay_ms: STARTUP_DELAY_MS, message: started_message() }
                } else {
                    Action::Release { process: h }
                }
            },
            Event::LaunchFailed(reason) => {
                if self.phase == Phase::Starting {
                    self.phase = Phase::Unavailable;
                    Action::Report { message: not_started_message(reason.as_str()) }
                } else {
                    Action::Ignore
                }
            },
            Event::WindowDestroyed => {
                match self.process.take() {
                    Some(p) => {
                        self.phase = Phase::Stopped;
                        Action::Stop { process: p, message: stopped_message() }
                    },
                    None => Action::Ignore,
                }
            },
        }
    }
}

/// The supervisor after taking in `events` in order, starting from `s`.
pub open spec fn run<H>(s: Supervisor<H>, events: Seq<Event<H>>) -> Supervisor<H>
    decreases events.len(),
{
    if events.len() == 0 {
        s
    } else {
        run(s.next(events[0]), events.drop_first())
    }
}

/// How many of `events`, taken in from `s`, put a process into the handle slot.
pub open spec fn recorded_count<H>(s: Supervisor<H>, events: Seq<Event<H>>) -> nat
    decreases events.len(),
{
    if events.len() == 0 {
        0
    } else {
        (if s.records(events[0]) { 1nat } else { 0nat }) + recorded_count(
            s.next(events[0]),
            events.drop_first(),
        )
    }
}

/// How many of `events`, taken in from `s`, make the supervisor kill its process.
pub open spec fn stop_count<H>(s: Supervisor<H>, events: Seq<Event<H>>) -> nat
    decreases events.len(),
{
    if events.len() == 0 {
        0
    } else {
        (if s.stops(events[0]) { 1nat } else { 0nat }) + stop_count(
            s.next(events[0]),
            events.drop_first(),
        )
    }
}

/// Once past `Starting`, a supervisor never records a process again.
proof fn lemma_recorded_bound<H>(s: Supervisor<H>, events: Seq<Event<H>>)
    ensures
        recorded_count(s, events) <= (if s.phase == Phase::Starting { 1nat } else { 0nat }),
    decreases events.len(),
{
    if events.len() > 0 {
        lemma_recorded_bound(s.next(events[0]), events.drop_first());
    }
}

/// A supervisor that holds no process, or only the one it holds, kills at most once.
proof fn lemma_stop_bound<H>(s: Supervisor<H>, events: Seq<Event<H>>)
    requires
        s.wf(),
    ensures
        stop_count(s, events) <= (if s.phase == Phase::Starting || s.phase == Phase::Running {
            1nat
        } else {
            0nat
        }),
    decreases events.len(),
{
    if events.len() > 0 {
        lemma_stop_bound(s.next(events[0]), events.drop_first());
    }
}

/// A supervisor whose launch failed keeps its handle slot empty for ever.
proof fn lemma_unavailable_stays<H>(s: Supervisor<H>, events: Seq<Event<H>>)
    requires
        s.wf(),
        s.phase == Phase::Unavailable,
    ensures
        run(s, events).phase == Phase::Unavailable,
        run(s, events).process is None,
    decreases events.len(),
{
    if events.len() > 0 {
        lemma_unavailable_stays(s.next(events[0]), events.drop_first());
    }
}

/// Stopping is idempotent: a second destroyed window after the first changes nothing
/// and kills nothing, so taking in two has the effect of taking in one.
pub proof fn lemma_stop_idempotent<H>(s: Supervisor<H>)
    requires
        s.wf(),
    ensures
        s.next(Event::WindowDestroyed).next(Event::WindowDestroyed) == s.next(
            Event::WindowDestroyed,
        ),
        !s.next(Event::WindowDestroyed).stops(Event::WindowDestroyed),
        s.next(Event::WindowDestroyed).process is None,
        run(s, seq![Event::WindowDestroyed, Event::WindowDestroyed]) == run(
            s,
            seq![Event::WindowDestroyed],
        ),
        stop_count(s, seq![Event::WindowDestroyed, Event::WindowDestroyed]) == stop_count(
            s,
            seq![Event::WindowDestroyed],
        ),
{
    let two = seq![Event::<H>::WindowDestroyed, Event::WindowDestroyed];
    let one = seq![Event::<H>::WindowDestroyed];
    let w = s.next(Event::WindowDestroyed);
    assert(two.drop_first() =~= one);
    assert(one.drop_first() =~= Seq::<Event<H>>::empty());
    assert(run(w, one) == run(w.next(Event::WindowDestroyed), Seq::<Event<H>>::empty()));
    assert(run(s, two) == run(w, one));
    assert(run(s, one) == run(w, Seq::<Event<H>>::empty()));
    assert(one[0] == Event::<H>::WindowDestroyed);
    assert(two[0] == Event::<H>::WindowDestroyed);
    assert(stop_count(w.next(Event::WindowDestroyed), Seq::<Event<H>>::empty()) == 0);
    assert(stop_count(w, one) == 0);
    assert(stop_count(s, two) == stop_count(s, one));
}

/// In one run of the application, whatever the events, at most one process is ever put
/// into the handle slot, and at most one is killed.
pub proof fn lemma_single_launch<H>(events: Seq<Event<H>>)
    ensures
        recorded_count(Supervisor::<H>::initial(), events) <= 1,
        stop_count(Supervisor::<H>::initial(), events) <= 1,
{
    lemma_recorded_bound(Supervisor::<H>::initial(), events);
    lemma_stop_bound(Supervisor::<H>::initial(), events);
}

/// A failed launch leaves the handle slot empty, and no later event fills it or kills.
pub proof fn lemma_failed_launch_degrades<H>(reason: String, events: Seq<Event<H>>)
    ensures
        ({
            let s = Supervisor::<H>::initial().next(Event::LaunchFailed(reason));
            &&& s.phase == Phase::Unavailable
            &&& run(s, events).process is None
            &&& recorded_count(s, events) == 0
            &&& stop_count(s, events) == 0
        }),
{
    let s = Supervisor::<H>::initial().next(Event::LaunchFailed(reason));
    lemma_unavailable_stays(s, events);
    lemma_recorded_bound(s, events);
    lemma_stop_bound(s, events);
}

} // verus!
