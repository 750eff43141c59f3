//! The run loop as a state machine.
//!
//! The embedding program owns the window, the device and the hooks. It hands
//! every event of the window system to [`RunLoop::step`], performs the
//! commands that come back, in order, and reports the result of a command
//! that asks for one (`CallInput`, `AcquireFrame`) as the next event.

use vstd::prelude::*;
use crate::clock::FrameClock;
use crate::hooks::HookPresence;
use crate::surface::{is_drawable_size, SurfaceConfig};

verus! {

/// The window events that the loop tells apart. Sizes are physical pixels.
#[derive(Clone, Copy, Debug, PartialEq, Eq, Structural)]
pub enum WindowEventKind {
    CloseRequested,
    Resized { width: u32, height: u32 },
    ScaleFactorChanged { width: u32, height: u32 },
    Other,
}

/// What an attempt to acquire the next presentable frame gave.
#[derive(Clone, Copy, Debug, PartialEq, Eq, Structural)]
pub enum FrameOutcome {
    Acquired,
    Timeout,
    Outdated,
    Lost,
    OutOfMemory,
}

impl FrameOutcome {
    /// A failure that reconfiguring the surface recovers from.
    pub open spec fn is_transient(self) -> bool {
        self is Timeout || self is Outdated || self is Lost
    }
}

/// What the embedding program reports to the loop.
#[derive(Clone, Copy, Debug, PartialEq, Eq, Structural)]
pub enum LoopEvent {
    /// The program is ready to run the loop.
    Start,
    /// A window event.
    Window(WindowEventKind),
    /// The input hook ran on the pending window event; `consumed` is what it
    /// returned, and `true` suppresses the default handling of that event.
    InputHandled { consumed: bool },
    /// The window asks for a frame; `now_nanos` is the current instant.
    RedrawRequested { now_nanos: u64 },
    /// The result of acquiring a frame.
    FrameAcquired(FrameOutcome),
    /// The window system delivered all pending events.
    EventsCleared,
}

/// Where the loop stands.
#[derive(Clone, Copy, Debug, PartialEq, Eq, Structural)]
pub enum Phase {
    /// Not started: the init hook has not run, the window is hidden.
    Uninitialized,
    /// Waiting for the next event.
    Ready,
    /// The input hook is looking at `event`.
    AwaitingInput { event: WindowEventKind },
    /// A redraw cycle waits for a frame.
    AwaitingFrame,
    /// The loop has ended; every later event is ignored.
    Terminated,
}

/// What the embedding program must do, in the order given.
#[derive(Clone, Copy, Debug, PartialEq, Eq, Structural)]
pub enum Command {
    /// Run the init hook with an empty pipeline list; its pipelines become the set.
    RunInit,
    /// Make the window visible.
    ShowWindow,
    /// Hand the pending window event to the input hook and report what it returned.
    CallInput,
    /// Apply the surface configuration, now of this size, to the surface.
    ConfigureSurface { width: u32, height: u32 },
    /// Run the resize hook with this size.
    CallResize { width: u32, height: u32 },
    /// Run the update hook.
    CallUpdate,
    /// Acquire the next frame and report the outcome.
    AcquireFrame,
    /// Run the render hook with a fresh command encoder and the acquired frame's view.
    CallRender,
    /// Submit the recorded commands and present the frame.
    SubmitAndPresent,
    /// Ask the window system for one redraw.
    RequestRedraw,
    /// Leave the event loop.
    Exit,
}

/// The state of the loop: its phase, the registered hooks, the surface
/// configuration and the frame clock.
#[derive(Clone, Copy, Debug)]
pub struct RunLoop {
    pub phase: Phase,
    pub hooks: HookPresence,
    pub surface: SurfaceConfig,
    pub clock: FrameClock,
}

impl RunLoop {
    /// A loop that has not started.
    pub open spec fn initial(hooks: HookPresence, surface: SurfaceConfig) -> RunLoop {
        RunLoop {
            phase: Phase::Uninitialized,
            hooks,
            surface,
            clock: FrameClock { last_instant: 0, has_ticked: false, delta_nanos: 0, fps_nano: 0 },
        }
    }

    /// The loop waits for a hook's answer only where that hook is registered:
    /// for a frame only with a render hook, for an input verdict only with an
    /// input hook.
    pub open spec fn wf(self) -> bool {
        &&& self.phase is AwaitingFrame ==> self.hooks.render
        &&& self.phase is AwaitingInput ==> self.hooks.input
    }

    /// The same loop in another phase.
    pub open spec fn with_phase(self, phase: Phase) -> RunLoop {
        RunLoop { phase, ..self }
    }

    /// Taking a new window size: a drawable size reconfigures the surface and
    /// then runs the resize hook; a degenerate one is ignored.
    pub open spec fn resize_to(self, width: u32, height: u32) -> (RunLoop, Seq<Command>) {
        if is_drawable_size(width, height) {
            (
                RunLoop { surface: self.surface.resized(width, height), ..self },
                if self.hooks.resize {
                    seq![
                        Command::ConfigureSurface { width, height },
                        Command::CallResize { width, height },
                    ]
                } else {
                    seq![Command::ConfigureSurface { width, height }]
                },
            )
        } else {
            (self, seq![])
        }
    }

    /// The default handling of a window event.
    pub open spec fn default_handling(self, event: WindowEventKind) -> (RunLoop, Seq<Command>) {
        match event {
            WindowEventKind::CloseRequested => (
                self.with_phase(Phase::Terminated),
                seq![Command::Exit],
            ),
            WindowEventKind::Resized { width, height } => self.resize_to(width, height),
            WindowEventKind::ScaleFactorChanged { width, height } => self.resize_to(width, height),
            WindowEventKind::Other => (self, seq![]),
        }
    }

    /// Recovery after a transient frame failure: configure the surface again
    /// at its last known size, unless that size is degenerate.
    pub open spec fn recovery(self) -> Seq<Command> {
        if is_drawable_size(self.surface.width, self.surface.height) {
            seq![
                Command::ConfigureSurface {
                    width: self.surface.width,
                    height: self.surface.height,
                },
            ]
        } else {
            seq![]
        }
    }

    /// The start of a redraw cycle: tick the clock, update, then acquire a
    /// frame where a render hook will draw it.
    pub open spec fn redraw(self, now_nanos: u64) -> (RunLoop, Seq<Command>) {
        let ticked = RunLoop { clock: self.clock.after_tick(now_nanos), ..self };
        let updated = if self.hooks.update {
            seq![Command::CallUpdate]
        } else {
            seq![]
        };
        if self.hooks.render {
            (ticked.with_phase(Phase::AwaitingFrame), updated.push(Command::AcquireFrame))
        } else {
            (ticked, updated)
        }
    }

    /// The end of a redraw cycle, once the frame outcome is known.
    pub open spec fn frame_done(self, outcome: FrameOutcome) -> (RunLoop, Seq<Command>) {
        match outcome {
            FrameOutcome::Acquired => (
                self.with_phase(Phase::Ready),
                seq![Command::CallRender, Command::SubmitAndPresent],
            ),
            FrameOutcome::OutOfMemory => (self.with_phase(Phase::Terminated), seq![Command::Exit]),
            _ => (self.with_phase(Phase::Ready), self.recovery()),
        }
    }

    /// The transition on `event`: the next state and the commands to perform.
    /// An event that the phase does not expect changes nothing.
    pub open spec fn next(self, event: LoopEvent) -> (RunLoop, Seq<Command>) {
        match event {
            LoopEvent::Start => if self.phase is Uninitialized {
                (
                    self.with_phase(Phase::Ready),
                    if self.hooks.init {
                        seq![Command::RunInit, Command::ShowWindow]
                    } else {
                        seq![Command::ShowWindow]
                    },
                )
            } else {
                (self, seq![])
            },
            LoopEvent::Window(window_event) => if !(self.phase is Ready) {
                (self, seq![])
            } else if self.hooks.input {
                (self.with_phase(Phase::AwaitingInput { event: window_event }), seq![Command::CallInput])
            } else {
                self.default_handling(window_event)
            },
            LoopEvent::InputHandled { consumed } => match self.phase {
                Phase::AwaitingInput { event: window_event } => if consumed {
                    (self.with_phase(Phase::Ready), seq![])
                } else {
                    self.with_phase(Phase::Ready).default_handling(window_event)
                },
                _ => (self, seq![]),
            },
            LoopEvent::RedrawRequested { now_nanos } => if self.phase is Ready {
                self.redraw(now_nanos)
            } else {
                (self, seq![])
            },
            LoopEvent::FrameAcquired(outcome) => if self.phase is AwaitingFrame {
                self.frame_done(outcome)
            } else {
                (self, seq![])
            },
            LoopEvent::EventsCleared => if self.phase is Ready {
                (self, seq![Command::RequestRedraw])
            } else {
                (self, seq![])
            },
        }
    }

    /// A loop that has not started, with the given hooks and surface.
    pub fn new(hooks: HookPresence, surface: SurfaceConfig) -> (r: RunLoop)
        ensures
            r == RunLoop::initial(hooks, surface),
            r.wf(),
    {
        RunLoop { phase: Phase::Uninitialized, hooks, surface, clock: FrameClock::new() }
    }

    /// Takes a new window size in the ready phase: a drawable size
    /// reconfigures the surface and then calls the resize hook where there is
    /// one; a size with a zero side changes nothing and asks for nothing.
    pub fn resize(&mut self, width: u32, height: u32) -> (r: Vec<Command>)
        requires
            old(self).phase is Ready,
        ensures
            (*final(self), r@) == old(self).resize_to(width, height),
            final(self).phase is Ready,
            !is_drawable_size(width, height) ==> *final(self) == *old(self) && r@.len() == 0,
    {
        let mut cmds: Vec<Command> = Vec::new();
        if self.surface.reconfigure(width, height) {
            cmds.push(Command::ConfigureSurface { width, height });
            if self.hooks.resize {
                cmds.push(Command::CallResize { width, height });
            }
        }
        proof {
            if is_drawable_size(width, height) {
                if self.hooks.resize {
                    assert(cmds@ =~= seq![
                        Command::ConfigureSurface { width, height },
                        Command::CallResize { width, height },
                    ]);
                } else {
                    assert(cmds@ =~= seq![Command::ConfigureSurface { width, height }]);
                }
            } else {
                assert(cmds@ =~= Seq::<Command>::empty());
            }
        }
        cmds
    }

    fn default_handling_exec(&mut self, event: WindowEventKind) -> (r: Vec<Command>)
        requires
            old(self).phase is Ready,
        ensures
            (*final(self), r@) == old(self).default_handling(event),
    {
        match event {
            WindowEventKind::CloseRequested => {
                self.phase = Phase::Terminated;
                let mut cmds: Vec<Command> = Vec::new();
                cmds.push(Command::Exit);
                proof {
                    assert(cmds@ =~= seq![Command::Exit]);
                }
                cmds
            },
            WindowEventKind::Resized { width, height } => self.resize(width, height),
            WindowEventKind::ScaleFactorChanged { width, height } => self.resize(
                width,
                height,
            ),
            WindowEventKind::Other => {
                let cmds: Vec<Command> = Vec::new();
                proof {
                    assert(cmds@ =~= Seq::<Command>::empty());
                }
                cmds
            },
        }
    }

    fn redraw_exec(&mut self, now_nanos: u64) -> (r: Vec<Command>)
        ensures
            (*final(self), r@) == old(self).redraw(now_nanos),
    {
        self.clock.tick(now_nanos);
        let mut cmds: Vec<Command> = Vec::new();
        if self.hooks.update {
            cmds.push(Command::CallUpdate);
        }
        if self.hooks.render {
            cmds.push(Command::AcquireFrame);
            self.phase = Phase::AwaitingFrame;
        }
        proof {
            let updated = if old(self).hooks.update {
                seq![Command::CallUpdate]
            } else {
                seq![]
            };
            if self.hooks.render {
                assert(cmds@ =~= updated.push(Command::AcquireFrame));
            } else {
                assert(cmds@ =~= updated);
            }
        }
        cmds
    }

    /// Finishes the render step of a redraw cycle once the frame outcome is
    /// known: an acquired frame is rendered, then submitted and presented; a
    /// transient failure renders nothing and configures the surface again at
    /// its last known size; running out of memory ends the loop.
    pub fn render(&mut self, outcome: FrameOutcome) -> (r: Vec<Command>)
        requires
            old(self).phase is AwaitingFrame,
        ensures
            (*final(self), r@) == old(self).frame_done(outcome),
            final(self).wf(),
            r@.contains(Command::CallRender) <==> outcome is Acquired,
    {
        let mut cmds: Vec<Command> = Vec::new();
        match outcome {
            FrameOutcome::Acquired => {
                self.phase = Phase::Ready;
                cmds.push(Command::CallRender);
                cmds.push(Command::SubmitAndPresent);
                proof {
                    assert(cmds@ =~= seq![Command::CallRender, Command::SubmitAndPresent]);
                }
            },
            FrameOutcome::OutOfMemory => {
                self.phase = Phase::Terminated;
                cmds.push(Command::Exit);
                proof {
                    assert(cmds@ =~= seq![Command::Exit]);
                }
            },
            _ => {
                self.phase = Phase::Ready;
                let width = self.surface.width;
                let height = self.surface.height;
                if width > 0 && height > 0 {
                    cmds.push(Command::ConfigureSurface { width, height });
                }
                proof {
                    assert(cmds@ =~= old(self).recovery());
                }
            },
        }
        cmds
    }

    /// Performs the transition on `event` and returns the commands that the
    /// embedding program must carry out, in order.
    pub fn step(&mut self, event: LoopEvent) -> (r: Vec<Command>)
        requires
            old(self).wf(),
        ensures
            (*final(self), r@) == old(self).next(event),
            final(self).wf(),
    {
        let mut cmds: Vec<Command> = Vec::new();
        match event {
            LoopEvent::Start => {
                if let Phase::Uninitialized = self.phase {
                    self.phase = Phase::Ready;
                    if self.hooks.init {
                        cmds.push(Command::RunInit);
                    }
                    cmds.push(Command::ShowWindow);
                    proof {
                        if self.hooks.init {
                            assert(cmds@ =~= seq![Command::RunInit, Command::ShowWindow]);
                        } else {
                            assert(cmds@ =~= seq![Command::ShowWindow]);
                        }
                    }
                }
            },
            LoopEvent::Window(window_event) => {
                if let Phase::Ready = self.phase {
                    if self.hooks.input {
                        self.phase = Phase::AwaitingInput { event: window_event };
                        cmds.push(Command::CallInput);
                        proof {
                            assert(cmds@ =~= seq![Command::CallInput]);
                        }
                    } else {
                        cmds = self.default_handling_exec(window_event);
                    }
                }
            },
            LoopEvent::InputHandled { consumed } => {
                if let Phase::AwaitingInput { event: window_event } = self.phase {
                    self.phase = Phase::Ready;
                    if !consumed {
                        cmds = self.default_handling_exec(window_event);
                    }
                }
            },
            LoopEvent::RedrawRequested { now_nanos } => {
                if let Phase::Ready = self.phase {
                    cmds = self.redraw_exec(now_nanos);
                }
            },
            LoopEvent::FrameAcquired(outcome) => {
                if let Phase::AwaitingFrame = self.phase {
                    cmds = self.render(outcome);
                }
            },
            LoopEvent::EventsCleared => {
                if let Phase::Ready = self.phase {
                    cmds.push(Command::RequestRedraw);
                    proof {
                        assert(cmds@ =~= seq![Command::RequestRedraw]);
                    }
                }
            },
        }
        proof {
            if cmds@.len() == 0 {
                assert(cmds@ =~= Seq::<Command>::empty());
            }
        }
        cmds
    }

    /// Whether the loop has ended.
    pub fn is_terminated(&self) -> (r: bool)
        ensures
            r == (self.phase is Terminated),
    {
        if let Phase::Terminated = self.phase {
            true
        } else {
            false
        }
    }
}

impl RunLoop {
    /// The state and the commands after `events`, taken one after another.
    pub open spec fn run(self, events: Seq<LoopEvent>) -> (RunLoop, Seq<Command>)
        decreases events.len(),
    {
        if events.len() == 0 {
            (self, seq![])
        } else {
            let first = self.next(events[0]);
            let rest = first.0.run(events.drop_first());
            (rest.0, first.1 + rest.1)
        }
    }
}

/// Redraw cycles at the instants `times` whose frame acquisition each time
/// fails with `failure`.
pub open spec fn failed_cycles(times: Seq<u64>, failure: FrameOutcome) -> Seq<LoopEvent>
    decreases times.len(),
{
    if times.len() == 0 {
        seq![]
    } else {
        seq![
            LoopEvent::RedrawRequested { now_nanos: times[0] },
            LoopEvent::FrameAcquired(failure),
        ] + failed_cycles(times.drop_first(), failure)
    }
}

/// Running one event is taking its transition.
pub proof fn lemma_run_one(s: RunLoop, event: LoopEvent)
    ensures
        s.run(seq![event]) == s.next(event),
{
    let events = seq![event];
    assert(events.drop_first() =~= Seq::<LoopEvent>::empty());
    let step = s.next(event);
    assert(step.0.run(Seq::<LoopEvent>::empty()) == (step.0, Seq::<Command>::empty()));
    assert(step.1 + Seq::<Command>::empty() =~= step.1);
}

/// Running two events is taking their transitions one after the other.
pub proof fn lemma_run_two(s: RunLoop, first: LoopEvent, second: LoopEvent)
    ensures
        s.run(seq![first, second]) == (
            s.next(first).0.next(second).0,
            s.next(first).1 + s.next(first).0.next(second).1,
        ),
{
    let events = seq![first, second];
    assert(events.drop_first() =~= seq![second]);
    lemma_run_one(s.next(first).0, second);
}

/// Running two lists of events one after the other is running their
/// concatenation.
pub proof fn lemma_run_append(s: RunLoop, first: Seq<LoopEvent>, second: Seq<LoopEvent>)
    ensures
        s.run(first + second) == (
            s.run(first).0.run(second).0,
            s.run(first).1 + s.run(first).0.run(second).1,
        ),
    decreases first.len(),
{
    if first.len() == 0 {
        assert(first + second =~= second);
        assert(Seq::<Command>::empty() + s.run(second).1 =~= s.run(second).1);
    } else {
        let step = s.next(first[0]);
        lemma_run_append(step.0, first.drop_first(), second);
        assert((first + second).drop_first() =~= first.drop_first() + second);
        assert((first + second)[0] == first[0]);
        let tail = step.0.run(first.drop_first());
        assert(step.1 + (tail.1 + tail.0.run(second).1) =~= (step.1 + tail.1) + tail.0.run(
            second,
        ).1);
    }
}

/// No transition changes which hooks are registered.
pub proof fn lemma_hooks_fixed(s: RunLoop, events: Seq<LoopEvent>)
    ensures
        s.run(events).0.hooks == s.hooks,
    decreases events.len(),
{
    if events.len() > 0 {
        lemma_hooks_fixed(s.next(events[0]).0, events.drop_first());
    }
}

/// Whether the hook that `command` calls (if any) is registered.
pub open spec fn hook_registered_for(hooks: HookPresence, command: Command) -> bool {
    match command {
        Command::RunInit => hooks.init,
        Command::CallInput => hooks.input,
        Command::CallResize { .. } => hooks.resize,
        Command::CallUpdate => hooks.update,
        Command::AcquireFrame => hooks.render,
        Command::CallRender => hooks.render,
        _ => true,
    }
}

/// Every transition keeps the loop well formed.
pub proof fn lemma_next_keeps_wf(s: RunLoop, event: LoopEvent)
    requires
        s.wf(),
    ensures
        s.next(event).0.wf(),
{
}

/// A well-formed loop never asks for a hook that is not registered, whatever
/// events it sees.
pub proof fn lemma_commands_respect_hooks(s: RunLoop, events: Seq<LoopEvent>)
    requires
        s.wf(),
    ensures
        s.run(events).0.wf(),
        forall|i: int|
            0 <= i < s.run(events).1.len() ==> hook_registered_for(
                s.hooks,
                #[trigger] s.run(events).1[i],
            ),
    decreases events.len(),
{
    if events.len() > 0 {
        let step = s.next(events[0]);
        lemma_next_keeps_wf(s, events[0]);
        assert(forall|i: int|
            0 <= i < step.1.len() ==> hook_registered_for(s.hooks, #[trigger] step.1[i]));
        lemma_run_one(s, events[0]);
        lemma_hooks_fixed(s, seq![events[0]]);
        lemma_commands_respect_hooks(step.0, events.drop_first());
        let rest = step.0.run(events.drop_first());
        assert forall|i: int| 0 <= i < step.1.len() + rest.1.len() implies hook_registered_for(
            s.hooks,
            #[trigger] (step.1 + rest.1)[i],
        ) by {
            if i >= step.1.len() {
                assert((step.1 + rest.1)[i] == rest.1[i - step.1.len()]);
            }
        }
    }
}

/// Without a render hook, no transition asks for a frame.
proof fn lemma_step_without_render_hook(s: RunLoop, event: LoopEvent)
    requires
        !s.hooks.render,
    ensures
        forall|i: int| 0 <= i < s.next(event).1.len() ==> s.next(event).1[i] != Command::AcquireFrame,
{
}

/// A loop with no render hook never acquires a frame, whatever events it sees.
pub proof fn lemma_no_render_hook_never_acquires(s: RunLoop, events: Seq<LoopEvent>)
    requires
        !s.hooks.render,
    ensures
        forall|i: int|
            0 <= i < s.run(events).1.len() ==> s.run(events).1[i] != Command::AcquireFrame,
    decreases events.len(),
{
    if events.len() > 0 {
        let step = s.next(events[0]);
        lemma_step_without_render_hook(s, events[0]);
        lemma_hooks_fixed(s, seq![events[0]]);
        lemma_run_one(s, events[0]);
        lemma_no_render_hook_never_acquires(step.0, events.drop_first());
    }
}

/// In the ready phase a close request ends the loop: at once without an input
/// hook, and once the input hook has declined the event where there is one.
pub proof fn lemma_close_request_ends_loop(s: RunLoop)
    requires
        s.phase is Ready,
    ensures
        !s.hooks.input ==> s.next(LoopEvent::Window(WindowEventKind::CloseRequested)) == (
            s.with_phase(Phase::Terminated),
            seq![Command::Exit],
        ),
        s.hooks.input ==> s.run(
            seq![
                LoopEvent::Window(WindowEventKind::CloseRequested),
                LoopEvent::InputHandled { consumed: false },
            ],
        ) == (s.with_phase(Phase::Terminated), seq![Command::CallInput, Command::Exit]),
{
    lemma_run_two(
        s,
        LoopEvent::Window(WindowEventKind::CloseRequested),
        LoopEvent::InputHandled { consumed: false },
    );
    assert(seq![Command::CallInput] + seq![Command::Exit] =~= seq![
        Command::CallInput,
        Command::Exit,
    ]);
}

/// A resize or scale-factor event with a zero side, once it reaches its
/// default handling, changes nothing and configures nothing.
pub proof fn lemma_degenerate_resize_ignored(s: RunLoop, width: u32, height: u32)
    requires
        width == 0 || height == 0,
    ensures
        s.default_handling(WindowEventKind::Resized { width, height }) == (s, Seq::<Command>::empty()),
        s.default_handling(WindowEventKind::ScaleFactorChanged { width, height }) == (
            s,
            Seq::<Command>::empty(),
        ),
        s.phase is Ready && !s.hooks.input ==> s.next(
            LoopEvent::Window(WindowEventKind::Resized { width, height }),
        ) == (s, Seq::<Command>::empty()),
{
}

/// Once terminated, the loop ignores every event and issues no command.
pub proof fn lemma_terminated_is_final(s: RunLoop, events: Seq<LoopEvent>)
    requires
        s.phase is Terminated,
    ensures
        s.run(events) == (s, Seq::<Command>::empty()),
    decreases events.len(),
{
    if events.len() > 0 {
        assert(s.next(events[0]) == (s, Seq::<Command>::empty()));
        lemma_terminated_is_final(s, events.drop_first());
        assert(Seq::<Command>::empty() + Seq::<Command>::empty() =~= Seq::<Command>::empty());
    }
}

/// Running out of memory on acquisition ends the loop: it exits without
/// rendering, and whatever follows, no frame is acquired again.
pub proof fn lemma_out_of_memory_ends_loop(s: RunLoop, events: Seq<LoopEvent>)
    requires
        s.phase is AwaitingFrame,
    ensures
        s.run(seq![LoopEvent::FrameAcquired(FrameOutcome::OutOfMemory)] + events) == (
            s.with_phase(Phase::Terminated),
            seq![Command::Exit],
        ),
{
    let all = seq![LoopEvent::FrameAcquired(FrameOutcome::OutOfMemory)] + events;
    assert(all[0] == LoopEvent::FrameAcquired(FrameOutcome::OutOfMemory));
    assert(all.drop_first() =~= events);
    lemma_terminated_is_final(s.with_phase(Phase::Terminated), events);
    assert(seq![Command::Exit] + Seq::<Command>::empty() =~= seq![Command::Exit]);
}

/// A redraw cycle on a surface that was just configured to a drawable size:
/// the loop acquires a frame and then renders it, recovers by configuring the
/// surface again at that size, or ends, as the outcome says; only running out
/// of memory ends it, and the size is kept.
pub proof fn lemma_frame_after_reconfigure(s: RunLoop, now_nanos: u64, outcome: FrameOutcome)
    requires
        s.phase is Ready,
        s.hooks.render,
        is_drawable_size(s.surface.width, s.surface.height),
    ensures
        ({
            let r = s.run(
                seq![
                    LoopEvent::RedrawRequested { now_nanos },
                    LoopEvent::FrameAcquired(outcome),
                ],
            );
            &&& (r.0.phase is Terminated) == (outcome is OutOfMemory)
            &&& !(outcome is OutOfMemory) ==> r.0.phase is Ready
            &&& r.0.surface == s.surface
            &&& r.1.contains(Command::AcquireFrame)
            &&& outcome is Acquired ==> r.1.last() == Command::SubmitAndPresent
                && r.1.contains(Command::CallRender)
            &&& outcome.is_transient() ==> r.1.last() == Command::ConfigureSurface {
                width: s.surface.width,
                height: s.surface.height,
            } && !r.1.contains(Command::CallRender)
        }),
{
    lemma_run_two(s, LoopEvent::RedrawRequested { now_nanos }, LoopEvent::FrameAcquired(outcome));
    let first = s.next(LoopEvent::RedrawRequested { now_nanos });
    let second = first.0.next(LoopEvent::FrameAcquired(outcome));
    let cmds = first.1 + second.1;
    let at = (first.1.len() - 1) as int;
    assert(cmds[at] == Command::AcquireFrame);
    if outcome is Acquired {
        assert(cmds[first.1.len() as int] == Command::CallRender);
    }
    if outcome.is_transient() {
        assert forall|i: int| 0 <= i < cmds.len() implies cmds[i] != Command::CallRender by {
            if i >= first.1.len() {
                assert(cmds[i] == second.1[i - first.1.len()]);
            }
        }
    }
}

/// A command that neither renders nor ends the loop.
pub open spec fn neither_render_nor_exit(c: Command) -> bool {
    c != Command::CallRender && c != Command::Exit
}

/// Transient failures, however many in a row, never end the loop and never
/// render: each is met by configuring the surface again, and the loop stays
/// ready for the next cycle with its configuration unchanged.
pub proof fn lemma_transient_failures_recover(
    s: RunLoop,
    times: Seq<u64>,
    failure: FrameOutcome,
)
    requires
        s.phase is Ready,
        failure.is_transient(),
    ensures
        s.run(failed_cycles(times, failure)).0.phase is Ready,
        s.run(failed_cycles(times, failure)).0.surface == s.surface,
        s.run(failed_cycles(times, failure)).0.hooks == s.hooks,
        forall|i: int|
            0 <= i < s.run(failed_cycles(times, failure)).1.len() ==> neither_render_nor_exit(
                #[trigger] s.run(failed_cycles(times, failure)).1[i],
            ),
    decreases times.len(),
{
    if times.len() > 0 {
        let cycle = seq![
            LoopEvent::RedrawRequested { now_nanos: times[0] },
            LoopEvent::FrameAcquired(failure),
        ];
        let rest = failed_cycles(times.drop_first(), failure);
        lemma_run_append(s, cycle, rest);
        lemma_run_two(
            s,
            LoopEvent::RedrawRequested { now_nanos: times[0] },
            LoopEvent::FrameAcquired(failure),
        );
        let first = s.next(LoopEvent::RedrawRequested { now_nanos: times[0] });
        let second = first.0.next(LoopEvent::FrameAcquired(failure));
        let once = s.run(cycle);
        assert(once.0.phase is Ready);
        lemma_transient_failures_recover(once.0, times.drop_first(), failure);
        let after = once.0.run(rest);
        assert forall|i: int| 0 <= i < once.1.len() + after.1.len() implies neither_render_nor_exit(
            #[trigger] (once.1 + after.1)[i],
        ) by {
            if i < first.1.len() {
            } else if i < once.1.len() {
                assert(once.1[i] == second.1[i - first.1.len()]);
            } else {
                assert((once.1 + after.1)[i] == after.1[i - once.1.len()]);
            }
        }
    }
}

} // verus!
