//! One tick of the windowed backend, as a state machine.
//!
//! The embedding program does the outside work of a tick (draining the host
//! window's events, rendering, presenting, flushing clients) and tells the
//! machine what came of it, one [`TickEvent`] at a time. The machine answers
//! each event with the [`TickEffect`]s to perform next, in order.
//!
//! A tick runs through its phases in a fixed order: host events are drained
//! first; then a frame is rendered and presented; then the outputs are
//! damaged, frame callbacks are sent and clients are flushed. A request to
//! close and a failed drain end the tick as soon as the drain is over; a
//! failed submission and a failed presentation end it on the spot. Each of
//! them ends it with [`TickOutcome::Terminate`], and nothing of a later phase
//! is asked for. A missing renderer, a missing output and a failed flush are
//! warnings: the tick goes on and ends with [`TickOutcome::Continue`].
//!
//! What holds of all ticks is proved in [`crate::compositor::laws`].

use vstd::prelude::*;
use crate::compositor::geometry::PhysicalSize;
use crate::compositor::renderer::RendererSlot;
use crate::compositor::scene::{compose_frame, composes, Frame, OutputSnapshot};
use crate::input::config::PointerConfig;
use crate::input::event::{AxisEvent, AxisSource, ButtonEvent, ButtonState, MotionEvent};
use crate::input::pointer::{accelerated, processed_axis, product_fits, Pointer};

verus! {

/// Milliseconds between two ticks.
pub const TICK_PERIOD_MS: u64 = 16;

/// Whether a key went down or up.
#[derive(Clone, Copy, Debug, PartialEq, Eq)]
pub enum KeyState {
    Released,
    Pressed,
}

/// An input event of the host window.
#[derive(Clone, Copy, Debug, PartialEq, Eq)]
pub enum InputEvent {
    Keyboard { key_code: u32, state: KeyState, time: u32 },
    PointerMotion(MotionEvent),
    PointerButton(ButtonEvent),
    PointerAxis(AxisEvent),
    /// Any other input event.
    Other,
}

/// An event of the host window.
#[derive(Clone, Copy, Debug, PartialEq, Eq)]
pub enum HostEvent {
    /// The window has a new size.
    Resized { size: PhysicalSize },
    /// The user asked to close the window.
    CloseRequested,
    /// The host backend made an output, named by its handle.
    OutputCreated { output: u32 },
    Input(InputEvent),
    /// Any other host event.
    Other,
}

/// Where the seat's pointer is, in millionths of a pixel.
#[derive(Clone, Copy, Debug, PartialEq, Eq)]
pub struct PointerPosition {
    pub x: i64,
    pub y: i64,
}

/// The capabilities of the seat at the time of a host event.
#[derive(Clone, Copy, Debug, PartialEq, Eq)]
pub struct Seat {
    /// Whether the seat has a keyboard.
    pub keyboard: bool,
    /// The position of the seat's pointer, if it has one.
    pub pointer: Option<PointerPosition>,
}

/// What the outside work of a tick came to.
#[derive(Clone, Copy, Debug, PartialEq, Eq)]
pub enum TickEvent {
    /// The host window handed out one pending event.
    Host { event: HostEvent, seat: Seat },
    /// The host window has no more pending events, or draining them failed.
    PumpFinished { dispatch_ok: bool },
    /// The scene was looked at: whether there is a first output.
    Scene { output_known: bool },
    /// The renderer took the frame, or refused it.
    FrameSubmitted { ok: bool },
    /// The renderer presented the frame, or failed to.
    FramePresented { ok: bool },
    /// The clients were flushed, or the flush failed.
    ClientsFlushed { ok: bool },
}

/// What a key event's filter answers.
#[derive(Clone, Copy, Debug, PartialEq, Eq)]
pub enum FilterResult {
    /// The event goes on to the focused client.
    Forward,
    /// The event stops here.
    Intercept,
}

/// One scroll notification: the source, and for each axis what the event
/// reported of it. A missing part is not part of the frame.
#[derive(Clone, Copy, Debug, PartialEq, Eq)]
pub struct AxisFrame {
    /// Event time in milliseconds.
    pub time: u32,
    pub source: AxisSource,
    /// Scaled continuous amounts, in millionths.
    pub horizontal: Option<i128>,
    pub vertical: Option<i128>,
    /// Counts of discrete steps.
    pub horizontal_steps: Option<i32>,
    pub vertical_steps: Option<i32>,
}

/// Something went wrong that the tick lives with.
#[derive(Clone, Copy, Debug, PartialEq, Eq)]
pub enum TickWarning {
    /// The slot holds no renderer: the tick renders nothing.
    NoActiveRenderer,
    /// No output is known: the tick renders nothing.
    NoOutput,
    /// The active renderer is not of the recorded kind: it is not resized.
    RendererKindMismatch,
    /// Flushing the clients failed: they are flushed again next tick.
    FlushFailed,
}

/// Outside work that the machine asks for.
#[derive(Clone, Copy, Debug, PartialEq, Eq)]
pub enum TickEffect {
    /// Resize the active renderer's target to the window's new size.
    ResizeRenderer { size: PhysicalSize },
    /// Hand the new output to the scene graph's output management.
    ForwardOutput { output: u32 },
    /// Notify the seat's keyboard, with a fresh serial.
    DispatchKey { key_code: u32, key_state: KeyState, time: u32, filter: FilterResult },
    /// Move the seat's pointer to the position given, in millionths of a
    /// pixel, and notify it.
    DispatchMotion { x: i128, y: i128, time: u32 },
    /// Notify the seat's pointer of a button, with a fresh serial.
    DispatchButton { button: u32, button_state: ButtonState, time: u32 },
    /// Notify the seat's pointer of a scroll.
    DispatchAxis { frame: AxisFrame },
    /// Build the frame for the first output and submit it to the renderer.
    RenderFrame,
    /// Present the submitted frame.
    PresentFrame,
    /// Mark every known output as fully damaged.
    DamageAllOutputs,
    /// Read the monotonic clock and send frame callbacks to all surfaces.
    SendFrameCallbacks,
    /// Flush all client connections.
    FlushClients,
    /// Log a warning.
    Warn { warning: TickWarning },
}

/// How a tick ended.
#[derive(Clone, Copy, Debug, PartialEq, Eq)]
pub enum TickOutcome {
    /// The scheduler calls again after [`TICK_PERIOD_MS`].
    Continue,
    /// The scheduler drops the tick source: the loop ends.
    Terminate,
}

/// How far a tick has come.
#[derive(Clone, Copy, Debug, PartialEq, Eq)]
pub enum TickPhase {
    /// Host events are being drained.
    Pumping,
    /// The drain is over and the scene is to be looked at.
    AwaitingScene,
    /// A frame is with the renderer.
    AwaitingSubmission,
    /// The frame is being presented.
    AwaitingPresentation,
    /// The post-render bookkeeping is under way.
    AwaitingFlush,
    /// The tick is over.
    Finished { outcome: TickOutcome },
}

/// The state of one tick.
#[derive(Clone, Copy, Debug, PartialEq, Eq)]
pub struct Tick {
    pub phase: TickPhase,
    /// Whether a host event of this tick asked to close the window.
    pub close_requested: bool,
}

/// The scroll notification for a scroll event: continuous amounts as the
/// pointer scales them, step counts as reported.
pub open spec fn axis_frame(config: PointerConfig, event: AxisEvent) -> AxisFrame {
    AxisFrame {
        time: event.time,
        source: event.source,
        horizontal: processed_axis(config, event).horizontal,
        vertical: processed_axis(config, event).vertical,
        horizontal_steps: event.horizontal.discrete,
        vertical_steps: event.vertical.discrete,
    }
}

/// What one input event asks of the seat. A seat without the capability
/// that the event is for is not notified.
pub open spec fn input_effects(
    config: PointerConfig,
    seat: Seat,
    event: InputEvent,
) -> Seq<TickEffect> {
    match event {
        InputEvent::Keyboard { key_code, state, time } => {
            if seat.keyboard {
                seq![
                    TickEffect::DispatchKey {
                        key_code,
                        key_state: state,
                        time,
                        filter: FilterResult::Forward,
                    },
                ]
            } else {
                Seq::empty()
            }
        },
        InputEvent::PointerMotion(motion) => {
            match seat.pointer {
                Some(position) => seq![
                    TickEffect::DispatchMotion {
                        x: (position.x + accelerated(config, motion.dx)) as i128,
                        y: (position.y + accelerated(config, motion.dy)) as i128,
                        time: motion.time,
                    },
                ],
                None => Seq::empty(),
            }
        },
        InputEvent::PointerButton(button) => {
            if seat.pointer is Some {
                seq![
                    TickEffect::DispatchButton {
                        button: button.button,
                        button_state: button.state,
                        time: button.time,
                    },
                ]
            } else {
                Seq::empty()
            }
        },
        InputEvent::PointerAxis(axis) => {
            if seat.pointer is Some {
                seq![TickEffect::DispatchAxis { frame: axis_frame(config, axis) }]
            } else {
                Seq::empty()
            }
        },
        InputEvent::Other => Seq::empty(),
    }
}

/// What one host event asks for.
pub open spec fn host_effects(
    config: PointerConfig,
    slot: RendererSlot,
    seat: Seat,
    event: HostEvent,
) -> Seq<TickEffect> {
    match event {
        HostEvent::Resized { size } => {
            if slot.active is None {
                Seq::empty()
            } else if slot.concrete() {
                seq![TickEffect::ResizeRenderer { size }]
            } else {
                seq![TickEffect::Warn { warning: TickWarning::RendererKindMismatch }]
            }
        },
        HostEvent::CloseRequested => Seq::empty(),
        HostEvent::OutputCreated { output } => seq![TickEffect::ForwardOutput { output }],
        HostEvent::Input(input) => input_effects(config, seat, input),
        HostEvent::Other => Seq::empty(),
    }
}

/// The post-render bookkeeping, in order.
pub open spec fn bookkeeping() -> Seq<TickEffect> {
    seq![TickEffect::DamageAllOutputs, TickEffect::SendFrameCallbacks, TickEffect::FlushClients]
}

/// Whether an effect is part of the post-render bookkeeping.
pub open spec fn is_bookkeeping(effect: TickEffect) -> bool {
    effect == TickEffect::DamageAllOutputs || effect == TickEffect::SendFrameCallbacks || effect
        == TickEffect::FlushClients
}

/// Whether an effect is part of rendering.
pub open spec fn is_rendering(effect: TickEffect) -> bool {
    effect == TickEffect::RenderFrame || effect == TickEffect::PresentFrame
}

/// The state that an event leads to, and the effects that it asks for. An
/// event that the phase does not wait for changes nothing and asks for
/// nothing.
pub open spec fn step(
    tick: Tick,
    config: PointerConfig,
    slot: RendererSlot,
    event: TickEvent,
) -> (Tick, Seq<TickEffect>) {
    match (tick.phase, event) {
        (TickPhase::Pumping, TickEvent::Host { event, seat }) => (
            Tick {
                phase: TickPhase::Pumping,
                close_requested: tick.close_requested || event == HostEvent::CloseRequested,
            },
            host_effects(config, slot, seat, event),
        ),
        (TickPhase::Pumping, TickEvent::PumpFinished { dispatch_ok }) => {
            if tick.close_requested || !dispatch_ok {
                (
                    Tick {
                        phase: TickPhase::Finished { outcome: TickOutcome::Terminate },
                        close_requested: tick.close_requested,
                    },
                    Seq::empty(),
                )
            } else {
                (
                    Tick { phase: TickPhase::AwaitingScene, close_requested: tick.close_requested },
                    Seq::empty(),
                )
            }
        },
        (TickPhase::AwaitingScene, TickEvent::Scene { output_known }) => {
            if slot.active is None {
                (
                    Tick { phase: TickPhase::AwaitingFlush, close_requested: tick.close_requested },
                    seq![TickEffect::Warn { warning: TickWarning::NoActiveRenderer }]
                        + bookkeeping(),
                )
            } else if !output_known {
                (
                    Tick { phase: TickPhase::AwaitingFlush, close_requested: tick.close_requested },
                    seq![TickEffect::Warn { warning: TickWarning::NoOutput }] + bookkeeping(),
                )
            } else {
                (
                    Tick {
                        phase: TickPhase::AwaitingSubmission,
                        close_requested: tick.close_requested,
                    },
                    seq![TickEffect::RenderFrame],
                )
            }
        },
        (TickPhase::AwaitingSubmission, TickEvent::FrameSubmitted { ok }) => {
            if ok {
                (
                    Tick {
                        phase: TickPhase::AwaitingPresentation,
                        close_requested: tick.close_requested,
                    },
                    seq![TickEffect::PresentFrame],
                )
            } else {
                (
                    Tick {
                        phase: TickPhase::Finished { outcome: TickOutcome::Terminate },
                        close_requested: tick.close_requested,
                    },
                    Seq::empty(),
                )
            }
        },
        (TickPhase::AwaitingPresentation, TickEvent::FramePresented { ok }) => {
            if ok {
                (
                    Tick { phase: TickPhase::AwaitingFlush, close_requested: tick.close_requested },
                    bookkeeping(),
                )
            } else {
                (
                    Tick {
                        phase: TickPhase::Finished { outcome: TickOutcome::Terminate },
                        close_requested: tick.close_requested,
                    },
                    Seq::empty(),
                )
            }
        },
        (TickPhase::AwaitingFlush, TickEvent::ClientsFlushed { ok }) => (
            Tick {
                phase: TickPhase::Finished { outcome: TickOutcome::Continue },
                close_requested: tick.close_requested,
            },
            if ok {
                Seq::empty()
            } else {
                seq![TickEffect::Warn { warning: TickWarning::FlushFailed }]
            },
        ),
        _ => (tick, Seq::empty()),
    }
}

/// The state that a run of events leads to, and all the effects that the
/// run asks for, in order.
pub open spec fn run(
    tick: Tick,
    config: PointerConfig,
    slot: RendererSlot,
    events: Seq<TickEvent>,
) -> (Tick, Seq<TickEffect>)
    decreases events.len(),
{
    if events.len() == 0 {
        (tick, Seq::empty())
    } else {
        let (before, asked) = run(tick, config, slot, events.drop_last());
        let (after, more) = step(before, config, slot, events.last());
        (after, asked + more)
    }
}

impl TickOutcome {
    /// After how many milliseconds the scheduler calls again, if it does.
    pub open spec fn period(self) -> Option<u64> {
        match self {
            TickOutcome::Continue => Some(TICK_PERIOD_MS),
            TickOutcome::Terminate => None,
        }
    }

    /// Computes [`TickOutcome::period`].
    pub fn reschedule_after_ms(&self) -> (period: Option<u64>)
        ensures
            period == self.period(),
    {
        match self {
            TickOutcome::Continue => Some(TICK_PERIOD_MS),
            TickOutcome::Terminate => None,
        }
    }
}

impl TickEffect {
    /// Whether the effect is a notification that carries a serial: those of
    /// keys and buttons do.
    pub open spec fn carries_serial(self) -> bool {
        self is DispatchKey || self is DispatchButton
    }

    /// Computes [`TickEffect::carries_serial`].
    pub fn needs_serial(&self) -> (needed: bool)
        ensures
            needed == self.carries_serial(),
    {
        match self {
            TickEffect::DispatchKey { .. } => true,
            TickEffect::DispatchButton { .. } => true,
            _ => false,
        }
    }
}

impl Tick {
    /// A tick that has not seen any event.
    pub open spec fn fresh() -> Tick {
        Tick { phase: TickPhase::Pumping, close_requested: false }
    }

    /// How the tick ended, once it has.
    pub open spec fn ended(self) -> Option<TickOutcome> {
        match self.phase {
            TickPhase::Finished { outcome } => Some(outcome),
            _ => None,
        }
    }

    /// What the scheduler is told of the tick when the outside work stops
    /// here. A tick that is over ends as it ended. A tick that is left
    /// before its end ends the loop: outside work that could not be carried
    /// through is no state to call again in.
    pub open spec fn conclusion(self) -> TickOutcome {
        match self.phase {
            TickPhase::Finished { outcome } => outcome,
            _ => TickOutcome::Terminate,
        }
    }

    /// Computes [`Tick::fresh`].
    pub fn begin() -> (tick: Tick)
        ensures
            tick == Tick::fresh(),
    {
        Tick { phase: TickPhase::Pumping, close_requested: false }
    }

    /// Computes [`Tick::ended`].
    pub fn outcome(&self) -> (outcome: Option<TickOutcome>)
        ensures
            outcome == self.ended(),
    {
        match self.phase {
            TickPhase::Finished { outcome } => Some(outcome),
            _ => None,
        }
    }

    /// Computes [`Tick::conclusion`].
    pub fn conclude(&self) -> (outcome: TickOutcome)
        ensures
            outcome == self.conclusion(),
    {
        match self.phase {
            TickPhase::Finished { outcome } => outcome,
            _ => TickOutcome::Terminate,
        }
    }

    /// Takes one event: moves to the state that [`step`] gives and returns
    /// the effects that it gives. The pointer is used to scale motion and
    /// scrolling, and stays as it is.
    pub fn advance(
        &mut self,
        pointer: &mut Pointer,
        slot: &RendererSlot,
        event: &TickEvent,
    ) -> (effects: Vec<TickEffect>)
        ensures
            (*final(self), effects@) == step(*old(self), old(pointer)@.config, *slot, *event),
            final(pointer)@ == old(pointer)@,
    {
        let mut effects: Vec<TickEffect> = Vec::new();
        match (self.phase, *event) {
            (TickPhase::Pumping, TickEvent::Host { event, seat }) => {
                if let HostEvent::CloseRequested = event {
                    self.close_requested = true;
                }
                effects = host_event_effects(pointer, slot, &seat, &event);
            },
            (TickPhase::Pumping, TickEvent::PumpFinished { dispatch_ok }) => {
                if self.close_requested || !dispatch_ok {
                    self.phase = TickPhase::Finished { outcome: TickOutcome::Terminate };
                } else {
                    self.phase = TickPhase::AwaitingScene;
                }
            },
            (TickPhase::AwaitingScene, TickEvent::Scene { output_known }) => {
                effects = self.scene_step(slot, output_known);
                assert((*self, effects@) == step(
                    *old(self),
                    pointer@.config,
                    *slot,
                    TickEvent::Scene { output_known },
                ));
            },
            (TickPhase::AwaitingSubmission, TickEvent::FrameSubmitted { ok }) => {
                if ok {
                    effects.push(TickEffect::PresentFrame);
                    self.phase = TickPhase::AwaitingPresentation;
                } else {
                    self.phase = TickPhase::Finished { outcome: TickOutcome::Terminate };
                }
            },
            (TickPhase::AwaitingPresentation, TickEvent::FramePresented { ok }) => {
                if ok {
                    push_bookkeeping(&mut effects);
                    self.phase = TickPhase::AwaitingFlush;
                } else {
                    self.phase = TickPhase::Finished { outcome: TickOutcome::Terminate };
                }
            },
            (TickPhase::AwaitingFlush, TickEvent::ClientsFlushed { ok }) => {
                if !ok {
                    effects.push(TickEffect::Warn { warning: TickWarning::FlushFailed });
                }
                self.phase = TickPhase::Finished { outcome: TickOutcome::Continue };
            },
            _ => {},
        }
        effects
    }

    /// The step on [`TickEvent::Scene`], which asks nothing of the pointer.
    fn scene_step(&mut self, slot: &RendererSlot, output_known: bool) -> (effects: Vec<TickEffect>)
        ensures
            forall|config: PointerConfig|
                (*final(self), effects@) == #[trigger] step(
                    *old(self),
                    config,
                    *slot,
                    TickEvent::Scene { output_known },
                ),
    {
        let mut effects: Vec<TickEffect> = Vec::new();
        if let TickPhase::AwaitingScene = self.phase {
            if slot.active.is_none() {
                effects.push(TickEffect::Warn { warning: TickWarning::NoActiveRenderer });
                push_bookkeeping(&mut effects);
                self.phase = TickPhase::AwaitingFlush;
            } else if !output_known {
                effects.push(TickEffect::Warn { warning: TickWarning::NoOutput });
                push_bookkeeping(&mut effects);
                self.phase = TickPhase::AwaitingFlush;
            } else {
                effects.push(TickEffect::RenderFrame);
                self.phase = TickPhase::AwaitingSubmission;
            }
        }
        effects
    }

    /// Takes the look at the scene: moves as [`step`] does on
    /// [`TickEvent::Scene`], and builds the frame of the first output exactly
    /// where that step asks to render.
    pub fn look_at_scene(
        &mut self,
        slot: &RendererSlot,
        output: Option<&OutputSnapshot>,
    ) -> (request: RenderRequest)
        ensures
            forall|config: PointerConfig|
                (*final(self), request.effects@) == #[trigger] step(
                    *old(self),
                    config,
                    *slot,
                    TickEvent::Scene { output_known: output is Some },
                ),
            request.frame is Some <==> request.effects@ == seq![TickEffect::RenderFrame],
            request.frame is Some ==> output is Some && composes(request.frame->0, *output->0),
    {
        let effects = self.scene_step(slot, output.is_some());
        let frame = match (self.phase, output) {
            (TickPhase::AwaitingSubmission, Some(snapshot)) if effects.len() == 1 => Some(
                compose_frame(snapshot),
            ),
            _ => None,
        };
        proof {
            let config = PointerConfig {
                acceleration_factor: 0,
                scroll_factor: 0,
                natural_scrolling: false,
            };
            let stepped = step(
                *old(self),
                config,
                *slot,
                TickEvent::Scene { output_known: output is Some },
            );
            assert((*self, effects@) == stepped);
            let asked = seq![TickEffect::RenderFrame];
            assert(asked.len() == 1 && asked[0] == TickEffect::RenderFrame);
            if frame is Some {
                assert(effects@ =~= asked);
            } else if effects@.len() > 0 {
                assert(effects@[0] != asked[0]);
            }
        }
        RenderRequest { effects, frame }
    }
}

/// What a look at the scene asks for, and the frame to submit where it asks
/// for one.
#[derive(Debug, PartialEq, Eq)]
pub struct RenderRequest {
    pub effects: Vec<TickEffect>,
    pub frame: Option<Frame>,
}

fn push_bookkeeping(effects: &mut Vec<TickEffect>)
    ensures
        final(effects)@ == old(effects)@ + bookkeeping(),
{
    effects.push(TickEffect::DamageAllOutputs);
    effects.push(TickEffect::SendFrameCallbacks);
    effects.push(TickEffect::FlushClients);
    assert(effects@ =~= old(effects)@ + bookkeeping());
}

/// The effects of one host event: computes [`host_effects`].
pub fn host_event_effects(
    pointer: &mut Pointer,
    slot: &RendererSlot,
    seat: &Seat,
    event: &HostEvent,
) -> (effects: Vec<TickEffect>)
    ensures
        effects@ == host_effects(old(pointer)@.config, *slot, *seat, *event),
        final(pointer)@ == old(pointer)@,
{
    let mut effects: Vec<TickEffect> = Vec::new();
    match *event {
        HostEvent::Resized { size } => {
            if slot.active.is_some() {
                if slot.is_concrete() {
                    effects.push(TickEffect::ResizeRenderer { size });
                } else {
                    effects.push(TickEffect::Warn { warning: TickWarning::RendererKindMismatch });
                }
            }
        },
        HostEvent::CloseRequested => {},
        HostEvent::OutputCreated { output } => {
            effects.push(TickEffect::ForwardOutput { output });
        },
        HostEvent::Input(InputEvent::Keyboard { key_code, state, time }) => {
            if seat.keyboard {
                effects.push(
                    TickEffect::DispatchKey {
                        key_code,
                        key_state: state,
                        time,
                        filter: FilterResult::Forward,
                    },
                );
            }
        },
        HostEvent::Input(InputEvent::PointerMotion(motion)) => {
            if let Some(position) = seat.pointer {
                let delta = pointer.handle_motion_event(&motion);
                proof {
                    moved_position_fits(pointer@.config, position.x, motion.dx);
                    moved_position_fits(pointer@.config, position.y, motion.dy);
                }
                effects.push(
                    TickEffect::DispatchMotion {
                        x: position.x as i128 + delta.0,
                        y: position.y as i128 + delta.1,
                        time: motion.time,
                    },
                );
            }
        },
        HostEvent::Input(InputEvent::PointerButton(button)) => {
            if seat.pointer.is_some() {
                effects.push(
                    TickEffect::DispatchButton {
                        button: button.button,
                        button_state: button.state,
                        time: button.time,
                    },
                );
            }
        },
        HostEvent::Input(InputEvent::PointerAxis(axis)) => {
            if seat.pointer.is_some() {
                let processed = pointer.handle_axis_event(&axis);
                effects.push(
                    TickEffect::DispatchAxis {
                        frame: AxisFrame {
                            time: axis.time,
                            source: axis.source,
                            horizontal: processed.horizontal,
                            vertical: processed.vertical,
                            horizontal_steps: axis.horizontal.discrete,
                            vertical_steps: axis.vertical.discrete,
                        },
                    },
                );
            }
        },
        HostEvent::Input(InputEvent::Other) => {},
        HostEvent::Other => {},
    }
    effects
}

/// A position moved by an accelerated delta fits in 128 bits, whatever the
/// position, the delta and the acceleration factor: the position that a
/// motion notification carries is exact.
pub proof fn moved_position_fits(config: PointerConfig, position: i64, delta: i64)
    ensures
        i128::MIN <= position + accelerated(config, delta) <= i128::MAX,
        i128::MIN <= accelerated(config, delta) <= i128::MAX,
{
    product_fits(delta as int, config.multiplier());
}

} // verus!
