//! The one-shot startup sequence of the widget.
//!
//! At startup the widget pins its window above all others and, where it is
//! configured to, moves it into the bottom-right corner of its monitor. All
//! of this is cosmetic, so nothing here can fail: a request that goes wrong
//! only ends the sequence early.
//!
//! The controller itself touches no display. [`step`] takes the phase the
//! sequence is in and the event that just happened, and returns the next
//! phase together with the one request the host is to perform next. The
//! host performs it and comes back with the outcome as the next event, until
//! the action is [`Action::Finish`].
//!
//! The sequence knows two states. While initializing it waits for one kind
//! of event at a time, and any other event is read as the failure of what it
//! was waiting for. Once idle it stays idle.

use vstd::prelude::*;
use crate::geometry::{MonitorGeometry, Point, TargetPosition, WindowSize};
use crate::placement::{
    anchor,
    checked_corner_position,
    fallback_size,
    representable,
    sits_in_corner,
    MARGIN,
};

verus! {

/// Label under which the host knows the widget's window.
pub const MAIN_WINDOW: &'static str = "main";

/// Exit code with which the terminate command ends the process.
pub const EXIT_CODE: i32 = 0;

/// What the widget does besides pinning its window on top.
#[derive(Clone, Copy, Debug, PartialEq, Eq, Structural)]
pub struct Config {
    /// Startup moves the window into the corner of its monitor.
    pub reposition: bool,
    /// The front end may end the process through the terminate command.
    pub terminate_command: bool,
}

impl Config {
    /// A widget that stays where it is and can be ended from its front end.
    pub fn pinned() -> (config: Config)
        ensures
            config == (Config { reposition: false, terminate_command: true }),
    {
        Config { reposition: false, terminate_command: true }
    }

    /// A widget that moves into the corner of its monitor and offers no
    /// terminate command.
    pub fn anchored() -> (config: Config)
        ensures
            config == (Config { reposition: true, terminate_command: false }),
    {
        Config { reposition: true, terminate_command: false }
    }

    /// Answers the terminate command: the exit code with which the host ends
    /// the process at once, or `None` where the command is not offered.
    pub fn terminate(&self) -> (exit: Option<i32>)
        ensures
            exit == if self.terminate_command {
                Some(0i32)
            } else {
                None
            },
    {
        if self.terminate_command {
            Some(EXIT_CODE)
        } else {
            None
        }
    }
}

/// What an unfinished startup sequence is waiting for.
#[derive(Clone, Copy, Debug, PartialEq, Eq, Structural)]
pub enum Awaiting {
    /// The host's setup hook; nothing has been asked for yet.
    Setup,
    /// The answer to the lookup of the window.
    Window,
    /// The answer to the always-on-top request.
    AlwaysOnTop,
    /// The monitor the window is on.
    Monitor,
    /// The window's outer size; holds the monitor that was found.
    OuterSize(MonitorGeometry),
    /// The answer to the request to move the window.
    Move,
}

/// Where the startup sequence stands.
#[derive(Clone, Copy, Debug, PartialEq, Eq, Structural)]
pub enum Phase {
    /// Startup is under way and waits for one event.
    Initializing(Awaiting),
    /// Startup is over. Nothing further happens by itself; the window stays
    /// wherever it was last put.
    Idle,
}

/// The phase every startup sequence begins in: nothing has happened yet.
pub open spec fn start_phase() -> Phase {
    Phase::Initializing(Awaiting::Setup)
}

impl Phase {
    /// The phase every startup sequence begins in.
    pub fn start() -> (phase: Phase)
        ensures
            phase == start_phase(),
    {
        Phase::Initializing(Awaiting::Setup)
    }

    /// Whether the sequence is over.
    pub fn is_idle(&self) -> (idle: bool)
        ensures
            idle <==> *self == Phase::Idle,
    {
        match self {
            Phase::Idle => true,
            Phase::Initializing(_) => false,
        }
    }
}

/// What the host reports to the controller: that its setup hook runs, or
/// what came of the request it was last given.
#[derive(Clone, Copy, Debug, PartialEq, Eq, Structural)]
pub enum Event {
    /// The application's setup hook runs.
    Setup,
    /// The window exists.
    WindowFound,
    /// The window does not exist yet, or the lookup failed.
    WindowNotFound,
    /// The always-on-top flag was set.
    AlwaysOnTopApplied,
    /// The always-on-top flag could not be set.
    AlwaysOnTopApplyFailed,
    /// The window's current monitor was found.
    MonitorResolved(MonitorGeometry),
    /// No monitor was detected, or the query failed.
    MonitorUnresolved,
    /// The window's outer size was read.
    SizeRead(WindowSize),
    /// The window's outer size could not be read.
    SizeQueryFailed,
    /// The window was moved.
    PositionApplied,
    /// The window could not be moved.
    PositionApplyFailed,
}

/// The one request the host performs next.
#[derive(Clone, Copy, Debug, PartialEq, Eq, Structural)]
pub enum Action {
    /// Look up the window labelled [`MAIN_WINDOW`].
    LookupWindow,
    /// Set the window's always-on-top flag.
    SetAlwaysOnTop,
    /// Ask for the monitor the window is currently on.
    ResolveMonitor,
    /// Ask for the window's outer size.
    ReadOuterSize,
    /// Move the window's top-left corner to this physical position.
    SetPosition(TargetPosition),
    /// Nothing is left to do.
    Finish,
}

/// The result of one step: the phase entered and the request to perform.
#[derive(Clone, Copy, Debug, PartialEq, Eq, Structural)]
pub struct Transition {
    pub phase: Phase,
    pub action: Action,
}

/// The position whose view is `point`, for a representable `point`.
pub open spec fn position_at(point: Point) -> TargetPosition {
    TargetPosition { x: point.x as i32, y: point.y as i32 }
}

/// The window size that an event stands for while the size is awaited: the
/// size read, or the fallback size for any other event.
pub open spec fn measured_size(event: Event) -> WindowSize {
    match event {
        Event::SizeRead(size) => size,
        _ => fallback_size(),
    }
}

/// Startup goes on: it now waits for `awaiting`, and the host performs
/// `action`.
pub open spec fn proceed(awaiting: Awaiting, action: Action) -> Transition {
    Transition { phase: Phase::Initializing(awaiting), action }
}

/// The end of the sequence: idle, with nothing to perform.
pub open spec fn rest() -> Transition {
    Transition { phase: Phase::Idle, action: Action::Finish }
}

/// The transition relation of the startup sequence.
///
/// - Waiting for setup: the setup hook starts the sequence with the lookup
///   of the window.
/// - Waiting for the window: a window that was found is pinned on top;
///   without a window the sequence ends.
/// - Waiting for always-on-top: whether or not the flag could be set, a
///   widget that repositions asks for the monitor next; any other is done.
/// - Waiting for the monitor: with a monitor the window's outer size is
///   asked for; without one the sequence ends.
/// - Waiting for the outer size: the window is sent to the corner of the
///   monitor, by the size read or, where none was read, by the fallback
///   size. Where that corner has no 32-bit coordinates the sequence ends.
/// - Waiting for the move: whether or not the window moved, the sequence
///   ends.
/// - Idle: nothing happens.
pub open spec fn transition(config: Config, phase: Phase, event: Event) -> Transition {
    match phase {
        Phase::Initializing(Awaiting::Setup) => if event is Setup {
            proceed(Awaiting::Window, Action::LookupWindow)
        } else {
            rest()
        },
        Phase::Initializing(Awaiting::Window) => if event is WindowFound {
            proceed(Awaiting::AlwaysOnTop, Action::SetAlwaysOnTop)
        } else {
            rest()
        },
        Phase::Initializing(Awaiting::AlwaysOnTop) => if config.reposition {
            proceed(Awaiting::Monitor, Action::ResolveMonitor)
        } else {
            rest()
        },
        Phase::Initializing(Awaiting::Monitor) => match event {
            Event::MonitorResolved(monitor) => proceed(
                Awaiting::OuterSize(monitor),
                Action::ReadOuterSize,
            ),
            _ => rest(),
        },
        Phase::Initializing(Awaiting::OuterSize(monitor)) => {
            let target = anchor(monitor@, measured_size(event)@, MARGIN as nat);
            if representable(target) {
                proceed(Awaiting::Move, Action::SetPosition(position_at(target)))
            } else {
                rest()
            }
        },
        Phase::Initializing(Awaiting::Move) => rest(),
        Phase::Idle => rest(),
    }
}

/// Advances the startup sequence by one event: returns the phase entered
/// and the request the host performs next, as [`transition`] gives them.
///
/// No event is refused and none makes the sequence fail. An event other
/// than the one the phase waits for counts as the failure of what was
/// asked for.
pub fn step(config: &Config, phase: Phase, event: Event) -> (next: Transition)
    ensures
        next == transition(*config, phase, event),
{
    let rest = Transition { phase: Phase::Idle, action: Action::Finish };
    let awaiting = match phase {
        Phase::Initializing(awaiting) => awaiting,
        Phase::Idle => {
            return rest;
        },
    };
    match awaiting {
        Awaiting::Setup => match event {
            Event::Setup => Transition {
                phase: Phase::Initializing(Awaiting::Window),
                action: Action::LookupWindow,
            },
            _ => rest,
        },
        Awaiting::Window => match event {
            Event::WindowFound => Transition {
                phase: Phase::Initializing(Awaiting::AlwaysOnTop),
                action: Action::SetAlwaysOnTop,
            },
            _ => rest,
        },
        Awaiting::AlwaysOnTop => {
            if config.reposition {
                Transition {
                    phase: Phase::Initializing(Awaiting::Monitor),
                    action: Action::ResolveMonitor,
                }
            } else {
                rest
            }
        },
        Awaiting::Monitor => match event {
            Event::MonitorResolved(monitor) => Transition {
                phase: Phase::Initializing(Awaiting::OuterSize(monitor)),
                action: Action::ReadOuterSize,
            },
            _ => rest,
        },
        Awaiting::OuterSize(monitor) => {
            let size = match event {
                Event::SizeRead(size) => size,
                _ => WindowSize::fallback(),
            };
            match checked_corner_position(monitor, size, MARGIN) {
                Some(position) => Transition {
                    phase: Phase::Initializing(Awaiting::Move),
                    action: Action::SetPosition(position),
                },
                None => rest,
            }
        },
        Awaiting::Move => rest,
    }
}

/// The phase reached from `phase` once every event of `events` has been
/// handled in turn.
pub open spec fn settled(config: Config, phase: Phase, events: Seq<Event>) -> Phase
    decreases events.len(),
{
    if events.len() == 0 {
        phase
    } else {
        settled(config, transition(config, phase, events[0]).phase, events.skip(1))
    }
}

/// The requests made from `phase` on as the events of `events` are handled
/// in turn, one request for each event.
pub open spec fn actions(config: Config, phase: Phase, events: Seq<Event>) -> Seq<Action>
    decreases events.len(),
{
    if events.len() == 0 {
        Seq::empty()
    } else {
        let next = transition(config, phase, events[0]);
        seq![next.action] + actions(config, next.phase, events.skip(1))
    }
}

/// Runs a whole startup sequence against a recorded list of events, from
/// the start phase on, and returns the phase reached and the requests made,
/// one for each event.
pub fn replay(config: &Config, events: &[Event]) -> (run: (Phase, Vec<Action>))
    ensures
        run.0 == settled(*config, start_phase(), events@),
        run.1@ == actions(*config, start_phase(), events@),
{
    let mut phase = Phase::start();
    let mut issued: Vec<Action> = Vec::new();
    let mut handled: usize = 0;
    assert(events@.skip(0) =~= events@);
    while handled < events.len()
        invariant
            handled <= events.len(),
            settled(*config, start_phase(), events@) == settled(
                *config,
                phase,
                events@.skip(handled as int),
            ),
            actions(*config, start_phase(), events@) == issued@ + actions(
                *config,
                phase,
                events@.skip(handled as int),
            ),
        decreases events.len() - handled,
    {
        let next = step(config, phase, events[handled]);
        proof {
            let pending = events@.skip(handled as int);
            assert(pending[0] == events@[handled as int]);
            assert(pending.skip(1) =~= events@.skip(handled + 1));
            assert(issued@.push(next.action) + actions(*config, next.phase, pending.skip(1))
                =~= issued@ + actions(*config, phase, pending));
        }
        issued.push(next.action);
        phase = next.phase;
        handled += 1;
    }
    (phase, issued)
}

/// How many steps the sequence can take from `phase` at most.
pub open spec fn steps_left(phase: Phase) -> nat {
    match phase {
        Phase::Initializing(Awaiting::Setup) => 6,
        Phase::Initializing(Awaiting::Window) => 5,
        Phase::Initializing(Awaiting::AlwaysOnTop) => 4,
        Phase::Initializing(Awaiting::Monitor) => 3,
        Phase::Initializing(Awaiting::OuterSize(_)) => 2,
        Phase::Initializing(Awaiting::Move) => 1,
        Phase::Idle => 0,
    }
}

/// `action` neither asks about the monitor or the window's size nor moves
/// the window.
pub open spec fn leaves_window_in_place(action: Action) -> bool {
    action is LookupWindow || action is SetAlwaysOnTop || action is Finish
}

/// The sequence has no loop and is never entered again: every step from a
/// phase other than `Idle` leads to a phase strictly nearer to `Idle`, and
/// `Idle` is left by no event and asks for nothing. The host is told to
/// finish exactly when the sequence has become idle.
pub proof fn step_moves_forward(config: Config, phase: Phase, event: Event)
    ensures
        phase != Phase::Idle ==> steps_left(transition(config, phase, event).phase) < steps_left(
            phase,
        ),
        phase == Phase::Idle ==> transition(config, phase, event) == rest(),
        transition(config, phase, event).action is Finish <==> transition(
            config,
            phase,
            event,
        ).phase == Phase::Idle,
{
}

/// One request is made for each event handled.
pub proof fn one_action_per_event(config: Config, phase: Phase, events: Seq<Event>)
    ensures
        actions(config, phase, events).len() == events.len(),
    decreases events.len(),
{
    if events.len() > 0 {
        one_action_per_event(config, transition(config, phase, events[0]).phase, events.skip(1));
    }
}

/// Startup always comes to rest: whatever the events are, once as many have
/// been handled as the phase has steps left, the sequence is idle. From the
/// start phase that is after six events at most.
pub proof fn startup_settles(config: Config, phase: Phase, events: Seq<Event>)
    requires
        events.len() >= steps_left(phase),
    ensures
        settled(config, phase, events) == Phase::Idle,
    decreases events.len(),
{
    if events.len() > 0 {
        step_moves_forward(config, phase, events[0]);
        startup_settles(config, transition(config, phase, events[0]).phase, events.skip(1));
    }
}

/// Once idle, the controller asks for nothing, whatever it is told.
pub proof fn idle_stays_silent(config: Config, events: Seq<Event>)
    ensures
        settled(config, Phase::Idle, events) == Phase::Idle,
        actions(config, Phase::Idle, events).len() == events.len(),
        forall|i: int|
            0 <= i < events.len() ==> actions(config, Phase::Idle, events)[i] == Action::Finish,
    decreases events.len(),
{
    if events.len() > 0 {
        idle_stays_silent(config, events.skip(1));
        let issued = actions(config, Phase::Idle, events);
        let later = actions(config, Phase::Idle, events.skip(1));
        assert forall|i: int| 0 <= i < events.len() implies issued[i] == Action::Finish by {
            if i > 0 {
                assert(issued[i] == later[i - 1]);
            }
        }
    }
}

/// A window that cannot be found ends startup at once: after the lookup
/// nothing is asked of the display, neither the always-on-top flag nor a
/// position, and the sequence is idle.
pub proof fn missing_window_ends_startup(config: Config, events: Seq<Event>)
    requires
        events.len() >= 2,
        events[0] is Setup,
        !(events[1] is WindowFound),
    ensures
        transition(config, Phase::Initializing(Awaiting::Window), events[1]) == rest(),
        actions(config, start_phase(), events).len() == events.len(),
        actions(config, start_phase(), events)[0] == Action::LookupWindow,
        forall|i: int|
            1 <= i < events.len() ==> actions(config, start_phase(), events)[i] == Action::Finish,
        settled(config, start_phase(), events) == Phase::Idle,
{
    let after_setup = events.skip(1);
    let after_lookup = after_setup.skip(1);
    let issued = actions(config, start_phase(), events);
    let from_lookup = actions(config, Phase::Initializing(Awaiting::Window), after_setup);
    let from_idle = actions(config, Phase::Idle, after_lookup);
    idle_stays_silent(config, after_lookup);
    assert(after_setup[0] == events[1]);
    assert(issued == seq![Action::LookupWindow] + from_lookup);
    assert(from_lookup == seq![Action::Finish] + from_idle);
    assert(settled(config, start_phase(), events) == settled(
        config,
        Phase::Initializing(Awaiting::Window),
        after_setup,
    ));
    assert forall|i: int| 1 <= i < events.len() implies issued[i] == Action::Finish by {
        assert(issued[i] == from_lookup[i - 1]);
        if i > 1 {
            assert(from_lookup[i - 1] == from_idle[i - 2]);
        }
    }
}

/// A window that was found is pinned on top before anything else is asked
/// about it.
pub proof fn found_window_is_pinned(config: Config, events: Seq<Event>)
    requires
        events.len() >= 2,
        events[0] is Setup,
        events[1] is WindowFound,
    ensures
        actions(config, start_phase(), events)[0] == Action::LookupWindow,
        actions(config, start_phase(), events)[1] == Action::SetAlwaysOnTop,
{
    let after_setup = events.skip(1);
    let from_lookup = actions(config, Phase::Initializing(Awaiting::Window), after_setup);
    assert(after_setup[0] == events[1]);
    assert(actions(config, start_phase(), events) == seq![Action::LookupWindow] + from_lookup);
    assert(from_lookup == seq![Action::SetAlwaysOnTop] + actions(
        config,
        Phase::Initializing(Awaiting::AlwaysOnTop),
        after_setup.skip(1),
    ));
}

/// Whether or not the always-on-top flag could be set makes no difference
/// to what follows.
pub proof fn always_on_top_outcome_is_ignored(config: Config, first: Event, second: Event)
    ensures
        transition(config, Phase::Initializing(Awaiting::AlwaysOnTop), first) == transition(
            config,
            Phase::Initializing(Awaiting::AlwaysOnTop),
            second,
        ),
{
}

/// A window whose outer size cannot be read is placed by the fallback size
/// of 210 by 56 pixels, never by an empty or arbitrary one: for every event
/// but a size read, the window is sent to the anchor of a window of that
/// size, 14 pixels inside the corner of the monitor found.
pub proof fn unread_size_places_fallback(config: Config, monitor: MonitorGeometry, event: Event)
    requires
        !(event is SizeRead),
        representable(anchor(monitor@, fallback_size()@, MARGIN as nat)),
    ensures
        measured_size(event) == (WindowSize { width: 210, height: 56 }),
        transition(config, Phase::Initializing(Awaiting::OuterSize(monitor)), event).phase
            == Phase::Initializing(Awaiting::Move),
        transition(
            config,
            Phase::Initializing(Awaiting::OuterSize(monitor)),
            event,
        ).action matches Action::SetPosition(position) && position.x == monitor.x + monitor.width
            - 210 - 14 && position.y == monitor.y + monitor.height - 56 - 14,
{
}

/// The window is only ever sent into the corner: whenever a step asks for a
/// position, the size was awaited for some monitor, and a window of the size
/// measured, placed there, ends the margin before that monitor's right and
/// bottom edge.
pub proof fn every_placement_sits_in_corner(config: Config, phase: Phase, event: Event)
    ensures
        transition(config, phase, event).action matches Action::SetPosition(position) ==> {
            &&& phase matches Phase::Initializing(Awaiting::OuterSize(monitor))
            &&& position@ == anchor(monitor@, measured_size(event)@, MARGIN as nat)
            &&& sits_in_corner(monitor@, measured_size(event)@, MARGIN as nat, position@)
        },
{
}

/// Until the always-on-top request has been answered, and once idle, a
/// widget that does not reposition never asks about the monitor again.
proof fn lemma_pinned_from(config: Config, phase: Phase, events: Seq<Event>)
    requires
        !config.reposition,
        steps_left(phase) >= 4 || phase == Phase::Idle,
    ensures
        actions(config, phase, events).len() == events.len(),
        forall|i: int|
            0 <= i < events.len() ==> leaves_window_in_place(
                #[trigger] actions(config, phase, events)[i],
            ),
    decreases events.len(),
{
    if events.len() > 0 {
        let next = transition(config, phase, events[0]);
        lemma_pinned_from(config, next.phase, events.skip(1));
        let issued = actions(config, phase, events);
        let later = actions(config, next.phase, events.skip(1));
        assert forall|i: int| 0 <= i < events.len() implies leaves_window_in_place(
            #[trigger] issued[i],
        ) by {
            if i > 0 {
                assert(issued[i] == later[i - 1]);
            }
        }
    }
}

/// A widget that is not configured to reposition never asks about the
/// monitor or the window's size and never moves the window, whatever it is
/// told during startup.
pub proof fn pinned_widget_never_moves(config: Config, events: Seq<Event>)
    requires
        !config.reposition,
    ensures
        forall|i: int|
            0 <= i < events.len() ==> leaves_window_in_place(
                #[trigger] actions(config, start_phase(), events)[i],
            ),
{
    lemma_pinned_from(config, start_phase(), events);
}

} // verus!
