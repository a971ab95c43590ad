//! The event-driven capture state machine.
//!
//! A probe session connects to the display server, maps a full-screen
//! overlay surface, and waits for two pieces of environment state: the
//! negotiated monitor size (reported by layout-confirmation events) and the
//! current pointer position (reported by the first batch of pointer events).
//! The caller owns the connection and the event loop; it translates each
//! inbound protocol event into an [`Event`] value, feeds it to [`dispatch`],
//! and performs the [`Action`] that comes back. The session is over when
//! the `terminal` flag is set, after which the captured state is read out
//! once as an [`EnvironmentInfo`].

use vstd::prelude::*;

verus! {

/// The four integers the probe session exists to capture.
#[derive(Debug, Clone, Copy, PartialEq, Eq, Structural)]
pub struct EnvironmentInfo {
    pub monitor_width: i32,
    pub monitor_height: i32,
    pub pointer_x: i32,
    pub pointer_y: i32,
}

/// An input capability reported by the seat.
#[derive(Debug, Clone, Copy, PartialEq, Eq, Structural)]
pub enum SeatCapability {
    Pointer,
    Keyboard,
    Touch,
}

/// One pointer position, in display coordinates.
#[derive(Debug, Clone, Copy, PartialEq, Eq, Structural)]
pub struct PointerSample {
    pub x: i32,
    pub y: i32,
}

/// An inbound protocol event, as the session's state machine sees it.
#[derive(Debug)]
pub enum Event {
    /// A layout confirmation carrying the negotiated surface size.
    Configure { width: i32, height: i32 },
    /// The seat gained an input capability.
    CapabilityAdded { capability: SeatCapability },
    /// The seat lost an input capability.
    CapabilityRemoved { capability: SeatCapability },
    /// A batch of coalesced pointer events delivered before a frame boundary.
    PointerFrame { samples: Vec<PointerSample> },
    /// The compositor closed the overlay surface.
    SurfaceClosed,
}

/// What the caller must do next on the live connection.
#[derive(Debug, Clone, Copy, PartialEq, Eq, Structural)]
pub enum Action {
    /// Perform the one-time minimal paint at the given size.
    Paint { width: i32, height: i32 },
    /// Bind a pointer-input object on the seat.
    BindPointer,
    /// Release the bound pointer-input object.
    ReleasePointer,
    /// Nothing to do.
    Nothing,
}

/// A protocol-contract violation that aborts the session.
#[derive(Debug, Clone, Copy, PartialEq, Eq, Structural)]
pub enum SessionError {
    /// The compositor closed the overlay surface before capture completed.
    UnexpectedSurfaceClose,
}

/// Where the session stands, as a function of its flags. Connection
/// bootstrap precedes the machine: a session state exists only once the
/// overlay surface is committed, so the machine starts out awaiting the
/// first layout confirmation.
#[derive(Debug, Clone, Copy, PartialEq, Eq, Structural)]
pub enum Phase {
    /// No layout confirmation yet, or no pointer capability bound.
    AwaitingConfigure,
    /// Surface painted and pointer bound: the next pointer batch ends the session.
    AwaitingPointerEvent,
    /// The terminal flag is set; the captured state may be read out.
    Done,
}

/// The session state, created all-zero at bootstrap and populated by events.
#[derive(Debug, Clone, Copy, PartialEq, Eq, Structural)]
pub struct SessionState {
    pub monitor_width: i32,
    pub monitor_height: i32,
    pub pointer_x: i32,
    pub pointer_y: i32,
    /// True until the first layout confirmation; gates the one-time paint.
    pub first_configure: bool,
    /// Whether a pointer-input object is currently bound on the seat.
    pub pointer_bound: bool,
    /// Set exactly once, by the first nonempty pointer batch; ends the session.
    pub terminal: bool,
}

impl SessionState {
    /// The state a session starts in: all-zero fields, paint still owed.
    pub open spec fn initial() -> SessionState {
        SessionState {
            monitor_width: 0,
            monitor_height: 0,
            pointer_x: 0,
            pointer_y: 0,
            first_configure: true,
            pointer_bound: false,
            terminal: false,
        }
    }

    pub open spec fn phase(self) -> Phase {
        if self.terminal {
            Phase::Done
        } else if !self.first_configure && self.pointer_bound {
            Phase::AwaitingPointerEvent
        } else {
            Phase::AwaitingConfigure
        }
    }

    pub fn new() -> (r: SessionState)
        ensures
            r == SessionState::initial(),
    {
        SessionState {
            monitor_width: 0,
            monitor_height: 0,
            pointer_x: 0,
            pointer_y: 0,
            first_configure: true,
            pointer_bound: false,
            terminal: false,
        }
    }

    pub fn current_phase(&self) -> (r: Phase)
        ensures
            r == self.phase(),
    {
        if self.terminal {
            Phase::Done
        } else if !self.first_configure && self.pointer_bound {
            Phase::AwaitingPointerEvent
        } else {
            Phase::AwaitingConfigure
        }
    }

    /// Read the captured state out, once the session has terminated.
    pub fn env_info(&self) -> (r: EnvironmentInfo)
        requires
            self.terminal,
        ensures
            r.monitor_width == self.monitor_width,
            r.monitor_height == self.monitor_height,
            r.pointer_x == self.pointer_x,
            r.pointer_y == self.pointer_y,
    {
        EnvironmentInfo {
            monitor_width: self.monitor_width,
            monitor_height: self.monitor_height,
            pointer_x: self.pointer_x,
            pointer_y: self.pointer_y,
        }
    }
}

/// The state after one event. Events delivered after the terminal flag is
/// set leave the state unchanged, so nothing that leaks through past the
/// capture can be observed by the caller.
pub open spec fn step_state(s: SessionState, e: Event) -> SessionState {
    if s.terminal {
        s
    } else {
        match e {
            Event::Configure { width, height } => SessionState {
                monitor_width: width,
                monitor_height: height,
                first_configure: false,
                ..s
            },
            Event::CapabilityAdded { capability } => {
                if capability == SeatCapability::Pointer && !s.pointer_bound {
                    SessionState { pointer_bound: true, ..s }
                } else {
                    s
                }
            },
            Event::CapabilityRemoved { capability } => {
                if capability == SeatCapability::Pointer && s.pointer_bound {
                    SessionState { pointer_bound: false, ..s }
                } else {
                    s
                }
            },
            Event::PointerFrame { samples } => {
                if samples@.len() > 0 {
                    SessionState {
                        pointer_x: samples@.last().x,
                        pointer_y: samples@.last().y,
                        terminal: true,
                        ..s
                    }
                } else {
                    s
                }
            },
            Event::SurfaceClosed => s,
        }
    }
}

/// The action one event demands of the caller, or the error that aborts the
/// session. A surface close is an intentional teardown once the terminal
/// flag is set, and a contract violation before that.
pub open spec fn step_action(s: SessionState, e: Event) -> Result<Action, SessionError> {
    if s.terminal {
        Ok(Action::Nothing)
    } else {
        match e {
            Event::Configure { width, height } => {
                if s.first_configure {
                    Ok(Action::Paint { width, height })
                } else {
                    Ok(Action::Nothing)
                }
            },
            Event::CapabilityAdded { capability } => {
                if capability == SeatCapability::Pointer && !s.pointer_bound {
                    Ok(Action::BindPointer)
                } else {
                    Ok(Action::Nothing)
                }
            },
            Event::CapabilityRemoved { capability } => {
                if capability == SeatCapability::Pointer && s.pointer_bound {
                    Ok(Action::ReleasePointer)
                } else {
                    Ok(Action::Nothing)
                }
            },
            Event::PointerFrame { samples: _ } => Ok(Action::Nothing),
            Event::SurfaceClosed => Err(SessionError::UnexpectedSurfaceClose),
        }
    }
}

/// Feed one inbound event to the state machine. The caller performs the
/// returned action on the live connection, or aborts the session on an
/// error: an unexpected close breaks the protocol contract, and going on
/// could only hand out stale data.
pub fn dispatch(state: &mut SessionState, event: Event) -> (r: Result<Action, SessionError>)
    ensures
        *final(state) == step_state(*old(state), event),
        r == step_action(*old(state), event),
{
    if state.terminal {
        return Ok(Action::Nothing);
    }
    match event {
        Event::Configure { width, height } => {
            state.monitor_width = width;
            state.monitor_height = height;
            if state.first_configure {
                state.first_configure = false;
                Ok(Action::Paint { width, height })
            } else {
                Ok(Action::Nothing)
            }
        },
        Event::CapabilityAdded { capability } => {
            if capability == SeatCapability::Pointer && !state.pointer_bound {
                state.pointer_bound = true;
                Ok(Action::BindPointer)
            } else {
                Ok(Action::Nothing)
            }
        },
        Event::CapabilityRemoved { capability } => {
            if capability == SeatCapability::Pointer && state.pointer_bound {
                state.pointer_bound = false;
                Ok(Action::ReleasePointer)
            } else {
                Ok(Action::Nothing)
            }
        },
        Event::PointerFrame { samples } => {
            if samples.len() > 0 {
                let last: PointerSample = samples[samples.len() - 1];
                state.pointer_x = last.x;
                state.pointer_y = last.y;
                state.terminal = true;
            }
            Ok(Action::Nothing)
        },
        Event::SurfaceClosed => Err(SessionError::UnexpectedSurfaceClose),
    }
}

/// True of the event that ends the session: a nonempty pointer batch.
pub open spec fn is_terminator(e: Event) -> bool {
    match e {
        Event::PointerFrame { samples } => samples@.len() > 0,
        _ => false,
    }
}

/// The position the session captures from a pointer batch: only the last
/// of the coalesced samples counts.
pub open spec fn last_sample(e: Event) -> PointerSample {
    match e {
        Event::PointerFrame { samples } => {
            if samples@.len() > 0 {
                samples@.last()
            } else {
                PointerSample { x: 0, y: 0 }
            }
        },
        _ => PointerSample { x: 0, y: 0 },
    }
}

/// The state after a whole sequence of events.
pub open spec fn run_state(s: SessionState, events: Seq<Event>) -> SessionState
    decreases events.len(),
{
    if events.len() == 0 {
        s
    } else {
        run_state(step_state(s, events[0]), events.skip(1))
    }
}

pub open spec fn has_terminator(events: Seq<Event>) -> bool
    decreases events.len(),
{
    if events.len() == 0 {
        false
    } else {
        is_terminator(events[0]) || has_terminator(events.skip(1))
    }
}

/// The index of the first terminating event in the sequence.
pub open spec fn first_terminator(events: Seq<Event>) -> int
    decreases events.len(),
{
    if events.len() == 0 {
        0
    } else if is_terminator(events[0]) {
        0
    } else {
        1 + first_terminator(events.skip(1))
    }
}

/// The monitor size after a sequence of layout confirmations: the most
/// recent one wins, and the starting size stands where none arrives.
pub open spec fn dims_after(w: i32, h: i32, events: Seq<Event>) -> (i32, i32)
    decreases events.len(),
{
    if events.len() == 0 {
        (w, h)
    } else {
        match events[0] {
            Event::Configure { width, height } => dims_after(width, height, events.skip(1)),
            _ => dims_after(w, h, events.skip(1)),
        }
    }
}

/// Once the terminal flag is set, no later event changes the state, so
/// events that leak through after the capture cannot be observed by the
/// caller.
pub proof fn lemma_terminal_frozen(s: SessionState, events: Seq<Event>)
    requires
        s.terminal,
    ensures
        run_state(s, events) == s,
    decreases events.len(),
{
    if events.len() > 0 {
        assert(step_state(s, events[0]) == s);
        lemma_terminal_frozen(s, events.skip(1));
    }
}

/// The first terminator is a terminator, lies in range, and nothing before
/// it terminates.
pub proof fn lemma_first_terminator(events: Seq<Event>)
    requires
        has_terminator(events),
    ensures
        0 <= first_terminator(events) < events.len(),
        is_terminator(events[first_terminator(events)]),
        forall|j: int| 0 <= j < first_terminator(events) ==> !is_terminator(#[trigger] events[j]),
    decreases events.len(),
{
    if !is_terminator(events[0]) {
        lemma_first_terminator(events.skip(1));
        let i1 = first_terminator(events.skip(1));
        assert(events.skip(1)[i1] == events[i1 + 1]);
        assert forall|j: int| 0 <= j < first_terminator(events) implies !is_terminator(
            #[trigger] events[j],
        ) by {
            if j > 0 {
                assert(events.skip(1)[j - 1] == events[j]);
            }
        }
    }
}

/// How a whole run ends, from any live (non-terminal) state. The first
/// nonempty pointer batch ends the session, with the batch's last sample
/// as the captured position; the recorded monitor size is the one carried
/// by the most recent layout confirmation observed before that batch (last
/// write wins). Without such a batch the session neither terminates nor
/// touches the recorded coordinates, however many capability changes
/// arrive, so a later rebind followed by a pointer batch still succeeds.
pub proof fn lemma_run_outcome(s: SessionState, events: Seq<Event>)
    requires
        !s.terminal,
    ensures
        has_terminator(events) ==> ({
            let f = run_state(s, events);
            let i = first_terminator(events);
            &&& f.terminal
            &&& f.pointer_x == last_sample(events[i]).x
            &&& f.pointer_y == last_sample(events[i]).y
            &&& (f.monitor_width, f.monitor_height) == dims_after(
                s.monitor_width,
                s.monitor_height,
                events.take(i),
            )
        }),
        !has_terminator(events) ==> ({
            let f = run_state(s, events);
            &&& !f.terminal
            &&& f.pointer_x == s.pointer_x
            &&& f.pointer_y == s.pointer_y
            &&& (f.monitor_width, f.monitor_height) == dims_after(
                s.monitor_width,
                s.monitor_height,
                events,
            )
        }),
    decreases events.len(),
{
    if events.len() > 0 {
        let e = events[0];
        let s1 = step_state(s, e);
        let rest = events.skip(1);
        if is_terminator(e) {
            lemma_terminal_frozen(s1, rest);
            assert(events.take(0) =~= Seq::<Event>::empty());
        } else {
            assert(!s1.terminal);
            lemma_run_outcome(s1, rest);
            if has_terminator(events) {
                assert(has_terminator(rest));
                lemma_first_terminator(rest);
                let i1 = first_terminator(rest);
                let i = first_terminator(events);
                assert(i == 1 + i1);
                assert(events[i] == rest[i1]);
                assert(events.take(i)[0] == e);
                assert(events.take(i).skip(1) =~= rest.take(i1));
            }
        }
    }
}

/// Splitting a run at any point.
pub proof fn lemma_run_decompose(s: SessionState, events: Seq<Event>, n: int)
    requires
        0 <= n <= events.len(),
    ensures
        run_state(s, events) == run_state(run_state(s, events.take(n)), events.skip(n)),
    decreases n,
{
    if n == 0 {
        assert(events.take(0) =~= Seq::<Event>::empty());
        assert(events.skip(0) =~= events);
    } else {
        let s1 = step_state(s, events[0]);
        lemma_run_decompose(s1, events.skip(1), n - 1);
        assert(events.take(n)[0] == events[0]);
        assert(events.take(n).skip(1) =~= events.skip(1).take(n - 1));
        assert(events.skip(1).skip(n - 1) =~= events.skip(n));
    }
}

/// Capture ends the session immediately: once a prefix of the delivered
/// events has set the terminal flag, the remainder changes nothing of what
/// the caller reads out.
pub proof fn lemma_events_after_capture_ignored(s: SessionState, events: Seq<Event>, n: int)
    requires
        0 <= n <= events.len(),
        run_state(s, events.take(n)).terminal,
    ensures
        run_state(s, events) == run_state(s, events.take(n)),
{
    lemma_run_decompose(s, events, n);
    lemma_terminal_frozen(run_state(s, events.take(n)), events.skip(n));
}

/// Whether an action asks the caller to paint.
pub open spec fn is_paint(r: Result<Action, SessionError>) -> bool {
    match r {
        Ok(a) => match a {
            Action::Paint { width: _, height: _ } => true,
            _ => false,
        },
        Err(_) => false,
    }
}

/// How many times a run asks the caller to paint.
pub open spec fn paint_count(s: SessionState, events: Seq<Event>) -> nat
    decreases events.len(),
{
    if events.len() == 0 {
        0
    } else {
        (if is_paint(step_action(s, events[0])) {
            1nat
        } else {
            0nat
        }) + paint_count(step_state(s, events[0]), events.skip(1))
    }
}

/// A session whose first layout confirmation is behind it never paints
/// again, however many further confirmations arrive.
pub proof fn lemma_no_repaint(s: SessionState, events: Seq<Event>)
    requires
        !s.first_configure,
    ensures
        paint_count(s, events) == 0,
    decreases events.len(),
{
    if events.len() > 0 {
        assert(!is_paint(step_action(s, events[0])));
        assert(!step_state(s, events[0]).first_configure);
        lemma_no_repaint(step_state(s, events[0]), events.skip(1));
    }
}

/// A terminated session never paints.
pub proof fn lemma_no_paint_after_capture(s: SessionState, events: Seq<Event>)
    requires
        s.terminal,
    ensures
        paint_count(s, events) == 0,
    decreases events.len(),
{
    if events.len() > 0 {
        lemma_no_paint_after_capture(s, events.skip(1));
    }
}

/// Whether a layout confirmation is observed while the session is live:
/// before the first nonempty pointer batch, if any.
pub open spec fn configure_before_capture(events: Seq<Event>) -> bool
    decreases events.len(),
{
    if events.len() == 0 {
        false
    } else {
        match events[0] {
            Event::Configure { width: _, height: _ } => true,
            _ => !is_terminator(events[0]) && configure_before_capture(events.skip(1)),
        }
    }
}

/// The minimal paint fires exactly once per session — on the first layout
/// confirmation the live session observes — regardless of how many
/// confirmations arrive, and zero times when none arrives before the
/// capture.
pub proof fn lemma_paint_exactly_once(s: SessionState, events: Seq<Event>)
    requires
        s.first_configure,
        !s.terminal,
    ensures
        paint_count(s, events) == if configure_before_capture(events) {
            1nat
        } else {
            0nat
        },
    decreases events.len(),
{
    if events.len() > 0 {
        let e = events[0];
        let s1 = step_state(s, e);
        let rest = events.skip(1);
        match e {
            Event::Configure { width: _, height: _ } => {
                assert(is_paint(step_action(s, e)));
                lemma_no_repaint(s1, rest);
            },
            _ => {
                assert(!is_paint(step_action(s, e)));
                if is_terminator(e) {
                    lemma_no_paint_after_capture(s1, rest);
                } else {
                    lemma_paint_exactly_once(s1, rest);
                }
            },
        }
    }
}

/// A pointer-capability loss before any pointer event neither ends the
/// session nor records coordinates; once the capability returns, the next
/// nonempty pointer batch still captures its last position.
pub proof fn lemma_rebind_still_captures(s: SessionState, batch: Event)
    requires
        !s.terminal,
        is_terminator(batch),
    ensures
        ({
            let lost = step_state(s, Event::CapabilityRemoved { capability: SeatCapability::Pointer });
            let regained = step_state(
                lost,
                Event::CapabilityAdded { capability: SeatCapability::Pointer },
            );
            let captured = step_state(regained, batch);
            &&& !lost.terminal
            &&& lost.pointer_x == s.pointer_x
            &&& lost.pointer_y == s.pointer_y
            &&& !regained.terminal
            &&& regained.pointer_bound
            &&& captured.terminal
            &&& captured.pointer_x == last_sample(batch).x
            &&& captured.pointer_y == last_sample(batch).y
        }),
{
}

} // verus!

