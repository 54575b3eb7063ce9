use novade_system::compositor::backend::winit_backend::WinitBackend;
use novade_system::compositor::backend::{CompositorBackend, InitReport};
use novade_system::compositor::geometry::{PhysicalSize, Rectangle};
use novade_system::compositor::renderer::{RendererKind, RendererSlot};
use novade_system::compositor::scene::{OutputSnapshot, RenderElement, SceneElement};
use novade_system::compositor::tick::{
    host_event_effects, AxisFrame, FilterResult, HostEvent, InputEvent, KeyState, PointerPosition,
    Seat, Tick, TickEffect, TickEvent, TickOutcome, TickPhase, TickWarning, TICK_PERIOD_MS,
};
use novade_system::input::config::PointerConfig;
use novade_system::input::event::{
    AxisEvent, AxisReport, AxisSource, ButtonEvent, ButtonState, MotionEvent,
};
use novade_system::input::pointer::{Confinement, Pointer};

fn pointer_with(acceleration_factor: i64, scroll_factor: i64, natural_scrolling: bool) -> Pointer {
    Pointer::new(&PointerConfig { acceleration_factor, scroll_factor, natural_scrolling })
}

fn plain_pointer() -> Pointer {
    pointer_with(0, 1000, false)
}

fn wgpu_slot() -> RendererSlot {
    let mut slot = RendererSlot::empty();
    slot.install(RendererKind::Wgpu);
    slot
}

fn full_seat() -> Seat {
    Seat { keyboard: true, pointer: Some(PointerPosition { x: 10_000_000, y: 20_000_000 }) }
}

fn bare_seat() -> Seat {
    Seat { keyboard: false, pointer: None }
}

fn host(event: HostEvent) -> TickEvent {
    TickEvent::Host { event, seat: full_seat() }
}

fn bookkeeping() -> Vec<TickEffect> {
    vec![TickEffect::DamageAllOutputs, TickEffect::SendFrameCallbacks, TickEffect::FlushClients]
}

fn is_bookkeeping(effect: &TickEffect) -> bool {
    matches!(
        effect,
        TickEffect::DamageAllOutputs | TickEffect::SendFrameCallbacks | TickEffect::FlushClients
    )
}

fn is_rendering(effect: &TickEffect) -> bool {
    matches!(effect, TickEffect::RenderFrame | TickEffect::PresentFrame)
}

/// Feeds the events to a fresh tick and collects what it asks for.
fn run(
    pointer: &mut Pointer,
    slot: &RendererSlot,
    events: &[TickEvent],
) -> (Tick, Vec<TickEffect>) {
    let mut tick = Tick::begin();
    let mut asked = Vec::new();
    for event in events {
        asked.extend(tick.advance(pointer, slot, event));
    }
    (tick, asked)
}

fn wheel(vertical: Option<i64>, steps: Option<i32>) -> AxisEvent {
    AxisEvent {
        source: AxisSource::Wheel,
        horizontal: AxisReport { continuous: None, discrete: None },
        vertical: AxisReport { continuous: vertical, discrete: steps },
        time: 31,
    }
}

#[test]
fn unfinished_tick_concludes_with_terminate() {
    assert_eq!(Tick::begin().conclude(), TickOutcome::Terminate);
    for phase in [
        TickPhase::AwaitingScene,
        TickPhase::AwaitingSubmission,
        TickPhase::AwaitingPresentation,
        TickPhase::AwaitingFlush,
    ] {
        assert_eq!(Tick { phase, close_requested: false }.conclude(), TickOutcome::Terminate);
    }
}

#[test]
fn finished_tick_concludes_as_it_ended() {
    for outcome in [TickOutcome::Continue, TickOutcome::Terminate] {
        let tick = Tick { phase: TickPhase::Finished { outcome }, close_requested: false };
        assert_eq!(tick.conclude(), outcome);
        assert_eq!(tick.outcome(), Some(outcome));
    }
}

#[test]
fn fresh_tick_is_pumping() {
    let tick = Tick::begin();
    assert_eq!(tick.phase, TickPhase::Pumping);
    assert!(!tick.close_requested);
    assert_eq!(tick.outcome(), None);
}

#[test]
fn outcome_tells_the_scheduler_when_to_call_again() {
    assert_eq!(TICK_PERIOD_MS, 16);
    assert_eq!(TickOutcome::Continue.reschedule_after_ms(), Some(16));
    assert_eq!(TickOutcome::Terminate.reschedule_after_ms(), None);
}

#[test]
fn resize_reaches_the_renderer_and_builds_no_frame() {
    let mut pointer = plain_pointer();
    // the backend started with a window of 800 by 600
    let mut slot = RendererSlot::empty();
    let started = InitReport::Ready {
        window: PhysicalSize { width: 800, height: 600 },
        renderer: RendererKind::Wgpu,
    };
    assert!(WinitBackend::init(&mut slot, started).is_ok());
    let mut tick = Tick::begin();
    let resized = HostEvent::Resized { size: PhysicalSize { width: 1024, height: 768 } };
    let effects = tick.advance(&mut pointer, &slot, &host(resized));
    assert_eq!(
        effects,
        vec![TickEffect::ResizeRenderer { size: PhysicalSize { width: 1024, height: 768 } }]
    );
    assert_eq!(tick.phase, TickPhase::Pumping);
    assert!(!tick.close_requested);
    let effects = tick.advance(&mut pointer, &slot, &TickEvent::PumpFinished { dispatch_ok: true });
    assert!(effects.is_empty());
    assert_eq!(tick.phase, TickPhase::AwaitingScene);
}

#[test]
fn resize_without_a_renderer_does_nothing() {
    let mut pointer = plain_pointer();
    let resized = HostEvent::Resized { size: PhysicalSize { width: 1024, height: 768 } };
    let (tick, asked) = run(&mut pointer, &RendererSlot::empty(), &[host(resized)]);
    assert!(asked.is_empty());
    assert_eq!(tick.phase, TickPhase::Pumping);
}

#[test]
fn resize_of_a_renderer_of_another_kind_is_skipped_with_a_warning() {
    let mut pointer = plain_pointer();
    let slot =
        RendererSlot { active: Some(RendererKind::Gles), recorded_kind: Some(RendererKind::Wgpu) };
    let resized = HostEvent::Resized { size: PhysicalSize { width: 1024, height: 768 } };
    let (tick, asked) = run(&mut pointer, &slot, &[host(resized)]);
    assert_eq!(asked, vec![TickEffect::Warn { warning: TickWarning::RendererKindMismatch }]);
    assert_eq!(tick.outcome(), None);
}

#[test]
fn close_request_ends_the_tick_before_rendering() {
    let mut pointer = plain_pointer();
    let slot = wgpu_slot();
    let mut tick = Tick::begin();
    let effects = tick.advance(&mut pointer, &slot, &host(HostEvent::CloseRequested));
    assert!(effects.is_empty());
    assert!(tick.close_requested);
    assert_eq!(tick.outcome(), None);
    let effects = tick.advance(&mut pointer, &slot, &TickEvent::PumpFinished { dispatch_ok: true });
    assert!(effects.is_empty());
    assert_eq!(tick.outcome(), Some(TickOutcome::Terminate));
    assert_eq!(tick.outcome().unwrap().reschedule_after_ms(), None);
    // nothing is rendered or flushed after that
    let effects = tick.advance(&mut pointer, &slot, &TickEvent::Scene { output_known: true });
    assert!(effects.is_empty());
    let effects = tick.advance(&mut pointer, &slot, &TickEvent::FramePresented { ok: true });
    assert!(effects.is_empty());
    assert_eq!(tick.outcome(), Some(TickOutcome::Terminate));
}

#[test]
fn events_after_a_close_request_are_still_handled() {
    let mut pointer = plain_pointer();
    let key = HostEvent::Input(InputEvent::Keyboard {
        key_code: 30,
        state: KeyState::Pressed,
        time: 5,
    });
    let events = [
        host(HostEvent::CloseRequested),
        host(key),
        TickEvent::PumpFinished { dispatch_ok: true },
    ];
    let (tick, asked) = run(&mut pointer, &wgpu_slot(), &events);
    assert_eq!(
        asked,
        vec![TickEffect::DispatchKey {
            key_code: 30,
            key_state: KeyState::Pressed,
            time: 5,
            filter: FilterResult::Forward,
        }]
    );
    assert_eq!(tick.outcome(), Some(TickOutcome::Terminate));
}

#[test]
fn failed_dispatch_ends_the_tick() {
    let mut pointer = plain_pointer();
    let events =
        [TickEvent::PumpFinished { dispatch_ok: false }, TickEvent::Scene { output_known: true }];
    let (tick, asked) = run(&mut pointer, &wgpu_slot(), &events);
    assert!(asked.is_empty());
    assert_eq!(tick.outcome(), Some(TickOutcome::Terminate));
}

#[test]
fn a_whole_tick_asks_for_everything_in_order() {
    let mut pointer = plain_pointer();
    let events = [
        host(HostEvent::OutputCreated { output: 3 }),
        TickEvent::PumpFinished { dispatch_ok: true },
        TickEvent::Scene { output_known: true },
        TickEvent::FrameSubmitted { ok: true },
        TickEvent::FramePresented { ok: true },
        TickEvent::ClientsFlushed { ok: true },
    ];
    let (tick, asked) = run(&mut pointer, &wgpu_slot(), &events);
    assert_eq!(
        asked,
        vec![
            TickEffect::ForwardOutput { output: 3 },
            TickEffect::RenderFrame,
            TickEffect::PresentFrame,
            TickEffect::DamageAllOutputs,
            TickEffect::SendFrameCallbacks,
            TickEffect::FlushClients,
        ]
    );
    assert_eq!(tick.outcome(), Some(TickOutcome::Continue));
    assert_eq!(tick.outcome().unwrap().reschedule_after_ms(), Some(16));
}

#[test]
fn each_step_moves_to_the_next_phase() {
    let mut pointer = plain_pointer();
    let slot = wgpu_slot();
    let mut tick = Tick::begin();
    tick.advance(&mut pointer, &slot, &TickEvent::PumpFinished { dispatch_ok: true });
    assert_eq!(tick.phase, TickPhase::AwaitingScene);
    let effects = tick.advance(&mut pointer, &slot, &TickEvent::Scene { output_known: true });
    assert_eq!(effects, vec![TickEffect::RenderFrame]);
    assert_eq!(tick.phase, TickPhase::AwaitingSubmission);
    let effects = tick.advance(&mut pointer, &slot, &TickEvent::FrameSubmitted { ok: true });
    assert_eq!(effects, vec![TickEffect::PresentFrame]);
    assert_eq!(tick.phase, TickPhase::AwaitingPresentation);
    let effects = tick.advance(&mut pointer, &slot, &TickEvent::FramePresented { ok: true });
    assert_eq!(effects, bookkeeping());
    assert_eq!(tick.phase, TickPhase::AwaitingFlush);
    let effects = tick.advance(&mut pointer, &slot, &TickEvent::ClientsFlushed { ok: true });
    assert!(effects.is_empty());
    assert_eq!(tick.phase, TickPhase::Finished { outcome: TickOutcome::Continue });
}

#[test]
fn failed_submission_ends_the_tick_without_bookkeeping() {
    let mut pointer = plain_pointer();
    let events = [
        TickEvent::PumpFinished { dispatch_ok: true },
        TickEvent::Scene { output_known: true },
        TickEvent::FrameSubmitted { ok: false },
        TickEvent::FramePresented { ok: true },
        TickEvent::ClientsFlushed { ok: true },
    ];
    let (tick, asked) = run(&mut pointer, &wgpu_slot(), &events);
    assert_eq!(asked, vec![TickEffect::RenderFrame]);
    assert!(!asked.iter().any(is_bookkeeping));
    assert_eq!(tick.outcome(), Some(TickOutcome::Terminate));
}

#[test]
fn failed_presentation_ends_the_tick_without_bookkeeping() {
    let mut pointer = plain_pointer();
    let events = [
        TickEvent::PumpFinished { dispatch_ok: true },
        TickEvent::Scene { output_known: true },
        TickEvent::FrameSubmitted { ok: true },
        TickEvent::FramePresented { ok: false },
        TickEvent::ClientsFlushed { ok: true },
    ];
    let (tick, asked) = run(&mut pointer, &wgpu_slot(), &events);
    assert_eq!(asked, vec![TickEffect::RenderFrame, TickEffect::PresentFrame]);
    assert!(!asked.iter().any(is_bookkeeping));
    assert_eq!(tick.outcome(), Some(TickOutcome::Terminate));
}

#[test]
fn missing_renderer_skips_rendering_and_keeps_the_rest() {
    let mut pointer = plain_pointer();
    let button = ButtonEvent { button: 0x110, state: ButtonState::Pressed, time: 8 };
    let events = [
        host(HostEvent::Input(InputEvent::PointerButton(button))),
        TickEvent::PumpFinished { dispatch_ok: true },
        TickEvent::Scene { output_known: true },
        TickEvent::ClientsFlushed { ok: true },
    ];
    let (tick, asked) = run(&mut pointer, &RendererSlot::empty(), &events);
    assert_eq!(
        asked,
        vec![
            TickEffect::DispatchButton {
                button: 0x110,
                button_state: ButtonState::Pressed,
                time: 8,
            },
            TickEffect::Warn { warning: TickWarning::NoActiveRenderer },
            TickEffect::DamageAllOutputs,
            TickEffect::SendFrameCallbacks,
            TickEffect::FlushClients,
        ]
    );
    assert!(!asked.iter().any(is_rendering));
    assert_eq!(tick.outcome(), Some(TickOutcome::Continue));
}

#[test]
fn missing_output_skips_rendering_and_keeps_the_rest() {
    let mut pointer = plain_pointer();
    let events = [
        TickEvent::PumpFinished { dispatch_ok: true },
        TickEvent::Scene { output_known: false },
        TickEvent::ClientsFlushed { ok: true },
    ];
    let (tick, asked) = run(&mut pointer, &wgpu_slot(), &events);
    assert_eq!(
        asked,
        vec![
            TickEffect::Warn { warning: TickWarning::NoOutput },
            TickEffect::DamageAllOutputs,
            TickEffect::SendFrameCallbacks,
            TickEffect::FlushClients,
        ]
    );
    assert_eq!(tick.outcome(), Some(TickOutcome::Continue));
}

#[test]
fn failed_flush_is_a_warning_and_the_loop_goes_on() {
    let mut pointer = plain_pointer();
    let events = [
        TickEvent::PumpFinished { dispatch_ok: true },
        TickEvent::Scene { output_known: true },
        TickEvent::FrameSubmitted { ok: true },
        TickEvent::FramePresented { ok: true },
        TickEvent::ClientsFlushed { ok: false },
    ];
    let (tick, asked) = run(&mut pointer, &wgpu_slot(), &events);
    assert_eq!(asked.last(), Some(&TickEffect::Warn { warning: TickWarning::FlushFailed }));
    assert_eq!(asked.len(), 6);
    assert_eq!(tick.outcome(), Some(TickOutcome::Continue));
}

#[test]
fn events_out_of_turn_change_nothing() {
    let mut pointer = plain_pointer();
    let slot = wgpu_slot();
    let mut tick = Tick::begin();
    for event in [
        TickEvent::Scene { output_known: true },
        TickEvent::FrameSubmitted { ok: false },
        TickEvent::FramePresented { ok: false },
        TickEvent::ClientsFlushed { ok: false },
    ] {
        assert!(tick.advance(&mut pointer, &slot, &event).is_empty());
        assert_eq!(tick, Tick::begin());
    }
    tick.advance(&mut pointer, &slot, &TickEvent::PumpFinished { dispatch_ok: true });
    let waiting = tick;
    for event in [
        host(HostEvent::CloseRequested),
        host(HostEvent::OutputCreated { output: 1 }),
        TickEvent::PumpFinished { dispatch_ok: false },
        TickEvent::FrameSubmitted { ok: false },
    ] {
        assert!(tick.advance(&mut pointer, &slot, &event).is_empty());
        assert_eq!(tick, waiting);
    }
}

#[test]
fn finished_tick_takes_no_more_events() {
    let mut pointer = plain_pointer();
    let slot = wgpu_slot();
    let finished = TickPhase::Finished { outcome: TickOutcome::Continue };
    let mut tick = Tick { phase: finished, close_requested: false };
    for event in [
        host(HostEvent::CloseRequested),
        TickEvent::PumpFinished { dispatch_ok: false },
        TickEvent::Scene { output_known: true },
        TickEvent::FrameSubmitted { ok: true },
        TickEvent::FramePresented { ok: true },
        TickEvent::ClientsFlushed { ok: false },
    ] {
        assert!(tick.advance(&mut pointer, &slot, &event).is_empty());
        assert_eq!(tick.outcome(), Some(TickOutcome::Continue));
        assert!(!tick.close_requested);
    }
}

#[test]
fn key_goes_to_the_keyboard_and_is_forwarded() {
    let mut pointer = plain_pointer();
    let key = HostEvent::Input(InputEvent::Keyboard {
        key_code: 57,
        state: KeyState::Released,
        time: 1234,
    });
    let effects = host_event_effects(&mut pointer, &wgpu_slot(), &full_seat(), &key);
    assert_eq!(
        effects,
        vec![TickEffect::DispatchKey {
            key_code: 57,
            key_state: KeyState::Released,
            time: 1234,
            filter: FilterResult::Forward,
        }]
    );
    assert!(effects[0].needs_serial());
}

#[test]
fn seat_without_capabilities_is_not_notified() {
    let mut pointer = plain_pointer();
    let slot = wgpu_slot();
    let seat = bare_seat();
    let key = InputEvent::Keyboard { key_code: 57, state: KeyState::Pressed, time: 1 };
    let motion = InputEvent::PointerMotion(MotionEvent { dx: 1000, dy: 1000, time: 1 });
    let button =
        InputEvent::PointerButton(ButtonEvent { button: 1, state: ButtonState::Pressed, time: 1 });
    let axis = InputEvent::PointerAxis(wheel(Some(1000), Some(1)));
    for input in [key, motion, button, axis, InputEvent::Other] {
        let effects = host_event_effects(&mut pointer, &slot, &seat, &HostEvent::Input(input));
        assert!(effects.is_empty());
    }
}

#[test]
fn keyboard_only_seat_gets_keys_only() {
    let mut pointer = plain_pointer();
    let slot = wgpu_slot();
    let seat = Seat { keyboard: true, pointer: None };
    let key = InputEvent::Keyboard { key_code: 57, state: KeyState::Pressed, time: 1 };
    let motion = InputEvent::PointerMotion(MotionEvent { dx: 1000, dy: 1000, time: 1 });
    assert_eq!(host_event_effects(&mut pointer, &slot, &seat, &HostEvent::Input(key)).len(), 1);
    assert!(host_event_effects(&mut pointer, &slot, &seat, &HostEvent::Input(motion)).is_empty());
}

#[test]
fn motion_moves_the_pointer_by_the_accelerated_delta() {
    let mut pointer = pointer_with(500, 1000, false);
    let motion = InputEvent::PointerMotion(MotionEvent { dx: 2000, dy: -4000, time: 77 });
    let effects =
        host_event_effects(&mut pointer, &wgpu_slot(), &full_seat(), &HostEvent::Input(motion));
    // (10, 20) pixels moved by (2, -4) pixels times 1.5
    assert_eq!(
        effects,
        vec![TickEffect::DispatchMotion { x: 13_000_000, y: 14_000_000, time: 77 }]
    );
    assert!(!effects[0].needs_serial());
}

#[test]
fn pointer_position_at_the_limits_is_exact() {
    let mut pointer = pointer_with(i64::MAX, 1000, false);
    let position = PointerPosition { x: i64::MAX, y: i64::MIN };
    let seat = Seat { keyboard: false, pointer: Some(position) };
    let motion = InputEvent::PointerMotion(MotionEvent { dx: i64::MAX, dy: i64::MIN, time: 0 });
    let effects = host_event_effects(&mut pointer, &wgpu_slot(), &seat, &HostEvent::Input(motion));
    let multiplier = i64::MAX as i128 + 1000;
    assert_eq!(
        effects,
        vec![TickEffect::DispatchMotion {
            x: i64::MAX as i128 + i64::MAX as i128 * multiplier,
            y: i64::MIN as i128 + i64::MIN as i128 * multiplier,
            time: 0,
        }]
    );
}

#[test]
fn button_goes_out_with_its_raw_code() {
    let mut pointer = plain_pointer();
    let button = InputEvent::PointerButton(ButtonEvent {
        button: 0x111,
        state: ButtonState::Released,
        time: 9,
    });
    let effects =
        host_event_effects(&mut pointer, &wgpu_slot(), &full_seat(), &HostEvent::Input(button));
    assert_eq!(
        effects,
        vec![TickEffect::DispatchButton {
            button: 0x111,
            button_state: ButtonState::Released,
            time: 9,
        }]
    );
    assert!(effects[0].needs_serial());
}

#[test]
fn axis_frame_carries_the_scaled_vertical_value_and_no_horizontal_part() {
    let mut pointer = pointer_with(0, 1500, false);
    let axis = InputEvent::PointerAxis(wheel(Some(2000), None));
    let effects =
        host_event_effects(&mut pointer, &wgpu_slot(), &full_seat(), &HostEvent::Input(axis));
    assert_eq!(
        effects,
        vec![TickEffect::DispatchAxis {
            frame: AxisFrame {
                time: 31,
                source: AxisSource::Wheel,
                horizontal: None,
                vertical: Some(3_000_000),
                horizontal_steps: None,
                vertical_steps: None,
            },
        }]
    );
    assert!(!effects[0].needs_serial());
}

#[test]
fn axis_frame_carries_step_counts_as_reported() {
    let mut pointer = pointer_with(0, 1500, true);
    let axis = AxisEvent {
        source: AxisSource::Finger,
        horizontal: AxisReport { continuous: Some(1000), discrete: Some(-3) },
        vertical: AxisReport { continuous: None, discrete: Some(2) },
        time: 12,
    };
    let effects = host_event_effects(
        &mut pointer,
        &wgpu_slot(),
        &full_seat(),
        &HostEvent::Input(InputEvent::PointerAxis(axis)),
    );
    assert_eq!(
        effects,
        vec![TickEffect::DispatchAxis {
            frame: AxisFrame {
                time: 12,
                source: AxisSource::Finger,
                horizontal: Some(-1_500_000),
                vertical: None,
                horizontal_steps: Some(-3),
                vertical_steps: Some(2),
            },
        }]
    );
}

#[test]
fn axis_frame_keeps_an_unknown_source() {
    let mut pointer = pointer_with(0, 1000, true);
    let axis = AxisEvent {
        source: AxisSource::Unknown,
        horizontal: AxisReport { continuous: None, discrete: None },
        vertical: AxisReport { continuous: Some(0), discrete: None },
        time: 12,
    };
    let effects = host_event_effects(
        &mut pointer,
        &wgpu_slot(),
        &full_seat(),
        &HostEvent::Input(InputEvent::PointerAxis(axis)),
    );
    assert_eq!(
        effects,
        vec![TickEffect::DispatchAxis {
            frame: AxisFrame {
                time: 12,
                source: AxisSource::Unknown,
                horizontal: None,
                vertical: Some(0),
                horizontal_steps: None,
                vertical_steps: None,
            },
        }]
    );
}

#[test]
fn other_events_are_ignored() {
    let mut pointer = plain_pointer();
    let slot = wgpu_slot();
    let seat = full_seat();
    assert!(host_event_effects(&mut pointer, &slot, &seat, &HostEvent::Other).is_empty());
    let other = HostEvent::Input(InputEvent::Other);
    assert!(host_event_effects(&mut pointer, &slot, &seat, &other).is_empty());
    assert!(host_event_effects(&mut pointer, &slot, &seat, &HostEvent::CloseRequested).is_empty());
}

#[test]
fn new_output_is_forwarded() {
    let mut pointer = plain_pointer();
    let created = HostEvent::OutputCreated { output: 12 };
    let effects = host_event_effects(&mut pointer, &RendererSlot::empty(), &bare_seat(), &created);
    assert_eq!(effects, vec![TickEffect::ForwardOutput { output: 12 }]);
}

#[test]
fn input_is_handled_the_same_without_a_renderer() {
    let axis = HostEvent::Input(InputEvent::PointerAxis(wheel(Some(2000), Some(1))));
    let mut pointer = pointer_with(0, 1500, false);
    let with = host_event_effects(&mut pointer, &wgpu_slot(), &full_seat(), &axis);
    let without = host_event_effects(&mut pointer, &RendererSlot::empty(), &full_seat(), &axis);
    assert_eq!(with, without);
    assert_eq!(with.len(), 1);
}

#[test]
fn only_keys_and_buttons_need_a_serial() {
    let size = PhysicalSize { width: 1, height: 1 };
    for effect in [
        TickEffect::ResizeRenderer { size },
        TickEffect::ForwardOutput { output: 0 },
        TickEffect::DispatchMotion { x: 0, y: 0, time: 0 },
        TickEffect::RenderFrame,
        TickEffect::PresentFrame,
        TickEffect::DamageAllOutputs,
        TickEffect::SendFrameCallbacks,
        TickEffect::FlushClients,
        TickEffect::Warn { warning: TickWarning::FlushFailed },
    ] {
        assert!(!effect.needs_serial());
    }
}

#[test]
fn handling_host_events_leaves_the_pointer_as_it_is() {
    let mut pointer = pointer_with(500, 1500, true);
    pointer.confine();
    let motion = InputEvent::PointerMotion(MotionEvent { dx: 2000, dy: -4000, time: 77 });
    host_event_effects(&mut pointer, &wgpu_slot(), &full_seat(), &HostEvent::Input(motion));
    let axis = InputEvent::PointerAxis(wheel(Some(2000), Some(1)));
    host_event_effects(&mut pointer, &wgpu_slot(), &full_seat(), &HostEvent::Input(axis));
    assert_eq!(pointer.confinement(), Confinement::Confined);
    assert_eq!(
        pointer.config(),
        PointerConfig { acceleration_factor: 500, scroll_factor: 1500, natural_scrolling: true }
    );
}

fn snapshot() -> OutputSnapshot {
    OutputSnapshot {
        geometry: None,
        scale: 1000,
        window: PhysicalSize { width: 800, height: 600 },
        elements: vec![
            SceneElement {
                mapped: true,
                surface: Some(4),
                geometry: Rectangle { x: 5, y: 6, width: 70, height: 80 },
                damage: vec![Rectangle { x: 0, y: 0, width: 70, height: 80 }],
            },
            SceneElement {
                mapped: true,
                surface: None,
                geometry: Rectangle { x: 0, y: 0, width: 1, height: 1 },
                damage: vec![],
            },
        ],
    }
}

#[test]
fn look_at_scene_builds_the_frame_to_submit() {
    let slot = wgpu_slot();
    let mut tick = Tick { phase: TickPhase::AwaitingScene, close_requested: false };
    let request = tick.look_at_scene(&slot, Some(&snapshot()));
    assert_eq!(request.effects, vec![TickEffect::RenderFrame]);
    assert_eq!(tick.phase, TickPhase::AwaitingSubmission);
    let frame = request.frame.unwrap();
    assert_eq!(
        frame.elements,
        vec![RenderElement::WaylandSurface {
            surface: 4,
            geometry: Rectangle { x: 5, y: 6, width: 70, height: 80 },
            damage_surface_local: vec![Rectangle { x: 0, y: 0, width: 70, height: 80 }],
        }]
    );
    assert_eq!(frame.output_geometry, Rectangle { x: 0, y: 0, width: 800, height: 600 });
    assert_eq!(frame.output_scale, 1000);
    assert!(frame.fallback_geometry);
    assert_eq!(frame.undrawable, vec![1]);
}

#[test]
fn look_at_scene_without_a_renderer_builds_no_frame() {
    let mut tick = Tick { phase: TickPhase::AwaitingScene, close_requested: false };
    let request = tick.look_at_scene(&RendererSlot::empty(), Some(&snapshot()));
    assert_eq!(request.frame, None);
    assert_eq!(request.effects[0], TickEffect::Warn { warning: TickWarning::NoActiveRenderer });
    assert_eq!(request.effects[1..].to_vec(), bookkeeping());
    assert_eq!(tick.phase, TickPhase::AwaitingFlush);
}

#[test]
fn look_at_scene_without_an_output_builds_no_frame() {
    let mut tick = Tick { phase: TickPhase::AwaitingScene, close_requested: false };
    let request = tick.look_at_scene(&wgpu_slot(), None);
    assert_eq!(request.frame, None);
    assert_eq!(request.effects[0], TickEffect::Warn { warning: TickWarning::NoOutput });
    assert_eq!(request.effects[1..].to_vec(), bookkeeping());
    assert_eq!(tick.phase, TickPhase::AwaitingFlush);
}

#[test]
fn look_at_scene_out_of_turn_does_nothing() {
    let mut tick = Tick::begin();
    let request = tick.look_at_scene(&wgpu_slot(), Some(&snapshot()));
    assert_eq!(request.frame, None);
    assert!(request.effects.is_empty());
    assert_eq!(tick, Tick::begin());
}

#[test]
fn look_at_scene_agrees_with_advance() {
    let mut pointer = plain_pointer();
    for slot in [wgpu_slot(), RendererSlot::empty()] {
        for output in [Some(snapshot()), None] {
            let mut looked = Tick { phase: TickPhase::AwaitingScene, close_requested: false };
            let mut advanced = looked;
            let request = looked.look_at_scene(&slot, output.as_ref());
            let event = TickEvent::Scene { output_known: output.is_some() };
            let effects = advanced.advance(&mut pointer, &slot, &event);
            assert_eq!(request.effects, effects);
            assert_eq!(looked, advanced);
        }
    }
}

/// Feeds a fresh tick one host event, a request to close if `close` is set,
/// and then what the rest of the outside work came to.
fn whole_tick(close: bool, slot: &RendererSlot, rest: [bool; 5]) -> (Tick, Vec<TickEffect>) {
    let mut events = vec![host(HostEvent::Other)];
    if close {
        events.push(host(HostEvent::CloseRequested));
    }
    events.push(TickEvent::PumpFinished { dispatch_ok: rest[0] });
    events.push(TickEvent::Scene { output_known: rest[1] });
    events.push(TickEvent::FrameSubmitted { ok: rest[2] });
    events.push(TickEvent::FramePresented { ok: rest[3] });
    events.push(TickEvent::ClientsFlushed { ok: rest[4] });
    run(&mut plain_pointer(), slot, &events)
}

#[test]
fn every_way_a_tick_can_end() {
    for case in 0..128u32 {
        let flag = |bit: u32| case & (1 << bit) != 0;
        let (close, renderer) = (flag(0), flag(1));
        let [dispatch_ok, output_known, submit_ok, present_ok, flush_ok] =
            [flag(2), flag(3), flag(4), flag(5), flag(6)];
        let slot = if renderer { wgpu_slot() } else { RendererSlot::empty() };
        let rest = [dispatch_ok, output_known, submit_ok, present_ok, flush_ok];
        let (tick, asked) = whole_tick(close, &slot, rest);
        let fatal =
            close || !dispatch_ok || (renderer && output_known && !(submit_ok && present_ok));
        let expected = if fatal { TickOutcome::Terminate } else { TickOutcome::Continue };
        assert_eq!(tick.outcome(), Some(expected));
        // a tick that ends the loop has done no bookkeeping,
        // a tick that lets it go on has done all of it once
        let done = asked.iter().filter(|effect| is_bookkeeping(effect)).count();
        assert_eq!(done, if fatal { 0 } else { 3 });
    }
}
