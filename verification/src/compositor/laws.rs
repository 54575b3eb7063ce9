//! What holds of every tick, whatever the outside work comes to.
//!
//! The laws speak of [`run`]: the state and the effects that a sequence of
//! events leads to. [`Tick::advance`](crate::compositor::tick::Tick::advance)
//! computes [`step`], of which a run is made.

use vstd::prelude::*;
use crate::compositor::renderer::RendererSlot;
use crate::compositor::tick::{
    bookkeeping, host_effects, input_effects, is_bookkeeping, is_rendering, run, step, HostEvent,
    InputEvent, Seat, Tick, TickEffect, TickEvent, TickOutcome, TickPhase, TickWarning,
};
use crate::input::config::PointerConfig;

verus! {

/// No effect of the sequence is part of the post-render bookkeeping.
pub open spec fn no_bookkeeping(asked: Seq<TickEffect>) -> bool {
    forall|i: int| 0 <= i < asked.len() ==> !is_bookkeeping(#[trigger] asked[i])
}

/// No effect of the sequence is part of rendering.
pub open spec fn no_rendering(asked: Seq<TickEffect>) -> bool {
    forall|i: int| 0 <= i < asked.len() ==> !is_rendering(#[trigger] asked[i])
}

/// What holds of the state and the effects after any run of a fresh tick.
pub open spec fn orderly(tick: Tick, asked: Seq<TickEffect>, slot: RendererSlot) -> bool {
    &&& tick.phase is Pumping || tick.phase is AwaitingScene ==> no_rendering(asked)
        && no_bookkeeping(asked)
    &&& tick.phase is AwaitingSubmission || tick.phase is AwaitingPresentation ==> no_bookkeeping(
        asked,
    ) && slot.active is Some && !tick.close_requested
    &&& tick.ended() == Some(TickOutcome::Terminate) ==> no_bookkeeping(asked)
    &&& tick.close_requested ==> no_rendering(asked) && (tick.phase is Pumping || tick.ended()
        == Some(TickOutcome::Terminate))
    &&& slot.active is None ==> no_rendering(asked)
}

proof fn lemma_joined(first: Seq<TickEffect>, second: Seq<TickEffect>)
    ensures
        no_bookkeeping(first) && no_bookkeeping(second) ==> no_bookkeeping(first + second),
        no_rendering(first) && no_rendering(second) ==> no_rendering(first + second),
{
    if no_bookkeeping(first) && no_bookkeeping(second) {
        assert forall|i: int| 0 <= i < (first + second).len() implies !is_bookkeeping(
            #[trigger] (first + second)[i],
        ) by {
            if i < first.len() {
                assert((first + second)[i] == first[i]);
            } else {
                assert((first + second)[i] == second[i - first.len()]);
            }
        }
    }
    if no_rendering(first) && no_rendering(second) {
        assert forall|i: int| 0 <= i < (first + second).len() implies !is_rendering(
            #[trigger] (first + second)[i],
        ) by {
            if i < first.len() {
                assert((first + second)[i] == first[i]);
            } else {
                assert((first + second)[i] == second[i - first.len()]);
            }
        }
    }
}

/// Handling a host event is never rendering and never bookkeeping: a resize
/// asks for the resize alone, and builds no frame.
pub proof fn host_events_build_no_frame(
    config: PointerConfig,
    slot: RendererSlot,
    seat: Seat,
    event: HostEvent,
)
    ensures
        no_rendering(host_effects(config, slot, seat, event)),
        no_bookkeeping(host_effects(config, slot, seat, event)),
        host_effects(config, slot, seat, event).len() <= 1,
        event matches HostEvent::Resized { size } ==> (slot.concrete() ==> host_effects(
            config,
            slot,
            seat,
            event,
        ) == seq![TickEffect::ResizeRenderer { size }]),
{
}

/// Input reaches the seat whether or not there is a renderer: what an input
/// event asks for does not depend on the renderer slot.
pub proof fn input_needs_no_renderer(
    config: PointerConfig,
    slot: RendererSlot,
    seat: Seat,
    event: InputEvent,
)
    ensures
        host_effects(config, slot, seat, HostEvent::Input(event)) == input_effects(
            config,
            seat,
            event,
        ),
{
}

/// A run of two parts is the run of the second part from where the first
/// part leads, and asks for the effects of both, in order.
pub proof fn run_in_parts(
    tick: Tick,
    config: PointerConfig,
    slot: RendererSlot,
    first: Seq<TickEvent>,
    second: Seq<TickEvent>,
)
    ensures
        run(tick, config, slot, first + second).0 == run(
            run(tick, config, slot, first).0,
            config,
            slot,
            second,
        ).0,
        run(tick, config, slot, first + second).1 == run(tick, config, slot, first).1 + run(
            run(tick, config, slot, first).0,
            config,
            slot,
            second,
        ).1,
    decreases second.len(),
{
    let middle = run(tick, config, slot, first).0;
    if second.len() == 0 {
        assert(first + second =~= first);
        assert(run(tick, config, slot, first).1 + Seq::<TickEffect>::empty() =~= run(
            tick,
            config,
            slot,
            first,
        ).1);
    } else {
        run_in_parts(tick, config, slot, first, second.drop_last());
        assert((first + second).drop_last() =~= first + second.drop_last());
        assert((first + second).last() == second.last());
        let shorter = run(middle, config, slot, second.drop_last());
        let more = step(shorter.0, config, slot, second.last()).1;
        assert((run(tick, config, slot, first).1 + shorter.1) + more =~= run(
            tick,
            config,
            slot,
            first,
        ).1 + (shorter.1 + more));
    }
}

/// The run of a single event is its step.
pub proof fn run_of_one(tick: Tick, config: PointerConfig, slot: RendererSlot, event: TickEvent)
    ensures
        run(tick, config, slot, seq![event]) == step(tick, config, slot, event),
{
    let events = seq![event];
    assert(events.drop_last() =~= Seq::<TickEvent>::empty());
    assert(events.last() == event);
    assert(run(tick, config, slot, events.drop_last()) == (tick, Seq::<TickEffect>::empty()));
    assert(Seq::<TickEffect>::empty() + step(tick, config, slot, event).1 =~= step(
        tick,
        config,
        slot,
        event,
    ).1);
}

/// A tick that is over stays as it is and asks for nothing more.
pub proof fn finished_tick_is_inert(
    tick: Tick,
    config: PointerConfig,
    slot: RendererSlot,
    events: Seq<TickEvent>,
)
    requires
        tick.ended() is Some,
    ensures
        run(tick, config, slot, events) == (tick, Seq::<TickEffect>::empty()),
    decreases events.len(),
{
    if events.len() > 0 {
        finished_tick_is_inert(tick, config, slot, events.drop_last());
        assert(Seq::<TickEffect>::empty() + Seq::<TickEffect>::empty() =~= Seq::<
            TickEffect,
        >::empty());
    }
}

/// The phases of a tick come in order, whatever events a fresh tick is fed.
/// Before the scene has been looked at, nothing has been asked of the
/// renderer and no bookkeeping has been asked for; while a frame is with the
/// renderer, no bookkeeping has been asked for, there is a renderer, and
/// nobody has asked to close; a tick that ends the loop has asked for no
/// bookkeeping; a tick that was asked to close renders nothing and can only
/// end the loop; and without a renderer nothing is rendered.
pub proof fn ticks_are_orderly(config: PointerConfig, slot: RendererSlot, events: Seq<TickEvent>)
    ensures
        orderly(
            run(Tick::fresh(), config, slot, events).0,
            run(Tick::fresh(), config, slot, events).1,
            slot,
        ),
    decreases events.len(),
{
    if events.len() > 0 {
        ticks_are_orderly(config, slot, events.drop_last());
        let (before, asked) = run(Tick::fresh(), config, slot, events.drop_last());
        let more = step(before, config, slot, events.last()).1;
        lemma_joined(asked, more);
        match (before.phase, events.last()) {
            (TickPhase::Pumping, TickEvent::Host { event, seat }) => {
                host_events_build_no_frame(config, slot, seat, event);
            },
            _ => {},
        }
        assert(more.len() == 0 ==> asked + more =~= asked);
        if before.phase is AwaitingScene {
            assert(no_rendering(bookkeeping()));
            lemma_joined(
                seq![TickEffect::Warn { warning: TickWarning::NoActiveRenderer }],
                bookkeeping(),
            );
            lemma_joined(seq![TickEffect::Warn { warning: TickWarning::NoOutput }], bookkeeping());
        }
    }
}

/// A refused frame ends the tick: once a submission has failed, the tick is
/// over with [`TickOutcome::Terminate`], nothing is asked for any more, and
/// the whole tick has asked for no post-render bookkeeping.
pub proof fn failed_submission_ends_tick(
    config: PointerConfig,
    slot: RendererSlot,
    before: Seq<TickEvent>,
    after: Seq<TickEvent>,
)
    requires
        run(Tick::fresh(), config, slot, before).0.phase is AwaitingSubmission,
    ensures
        run(
            Tick::fresh(),
            config,
            slot,
            before.push(TickEvent::FrameSubmitted { ok: false }) + after,
        ).0.ended() == Some(TickOutcome::Terminate),
        run(
            Tick::fresh(),
            config,
            slot,
            before.push(TickEvent::FrameSubmitted { ok: false }) + after,
        ).1 == run(Tick::fresh(), config, slot, before).1,
        no_bookkeeping(
            run(
                Tick::fresh(),
                config,
                slot,
                before.push(TickEvent::FrameSubmitted { ok: false }) + after,
            ).1,
        ),
{
    lemma_failure_ends_tick(config, slot, before, TickEvent::FrameSubmitted { ok: false }, after);
}

/// A frame that cannot be presented ends the tick in the same way.
pub proof fn failed_presentation_ends_tick(
    config: PointerConfig,
    slot: RendererSlot,
    before: Seq<TickEvent>,
    after: Seq<TickEvent>,
)
    requires
        run(Tick::fresh(), config, slot, before).0.phase is AwaitingPresentation,
    ensures
        run(
            Tick::fresh(),
            config,
            slot,
            before.push(TickEvent::FramePresented { ok: false }) + after,
        ).0.ended() == Some(TickOutcome::Terminate),
        run(
            Tick::fresh(),
            config,
            slot,
            before.push(TickEvent::FramePresented { ok: false }) + after,
        ).1 == run(Tick::fresh(), config, slot, before).1,
        no_bookkeeping(
            run(
                Tick::fresh(),
                config,
                slot,
                before.push(TickEvent::FramePresented { ok: false }) + after,
            ).1,
        ),
{
    lemma_failure_ends_tick(config, slot, before, TickEvent::FramePresented { ok: false }, after);
}

proof fn lemma_failure_ends_tick(
    config: PointerConfig,
    slot: RendererSlot,
    before: Seq<TickEvent>,
    failure: TickEvent,
    after: Seq<TickEvent>,
)
    requires
        ({
            let phase = run(Tick::fresh(), config, slot, before).0.phase;
            ||| phase is AwaitingSubmission && failure == (TickEvent::FrameSubmitted { ok: false })
            ||| phase is AwaitingPresentation && failure == (TickEvent::FramePresented {
                ok: false,
            })
        }),
    ensures
        run(Tick::fresh(), config, slot, before.push(failure) + after).0.ended() == Some(
            TickOutcome::Terminate,
        ),
        run(Tick::fresh(), config, slot, before.push(failure) + after).1 == run(
            Tick::fresh(),
            config,
            slot,
            before,
        ).1,
        no_bookkeeping(run(Tick::fresh(), config, slot, before.push(failure) + after).1),
{
    let asked = run(Tick::fresh(), config, slot, before).1;
    let failed = before.push(failure);
    assert(failed.drop_last() =~= before);
    assert(failed.last() == failure);
    let (ended, same) = run(Tick::fresh(), config, slot, failed);
    assert(same =~= asked);
    run_in_parts(Tick::fresh(), config, slot, failed, after);
    finished_tick_is_inert(ended, config, slot, after);
    assert(asked + Seq::<TickEffect>::empty() =~= asked);
    ticks_are_orderly(config, slot, before);
}

/// Without a renderer the tick goes on: from the end of the pump, the scene
/// step asks for a warning and then for the whole bookkeeping and for no
/// rendering, and the tick ends with [`TickOutcome::Continue`] whether or not
/// the flush works. No run of such a tick ever asks for rendering.
pub proof fn missing_renderer_skips_rendering(
    config: PointerConfig,
    slot: RendererSlot,
    before: Seq<TickEvent>,
    output_known: bool,
    flush_ok: bool,
)
    requires
        slot.active is None,
        run(Tick::fresh(), config, slot, before).0.phase is AwaitingScene,
    ensures
        no_rendering(run(Tick::fresh(), config, slot, before).1),
        ({
            let events = before.push(TickEvent::Scene { output_known }).push(
                TickEvent::ClientsFlushed { ok: flush_ok },
            );
            let (tick, asked) = run(Tick::fresh(), config, slot, events);
            &&& tick.ended() == Some(TickOutcome::Continue)
            &&& no_rendering(asked)
            &&& asked == run(Tick::fresh(), config, slot, before).1 + seq![
                TickEffect::Warn { warning: TickWarning::NoActiveRenderer },
                TickEffect::DamageAllOutputs,
                TickEffect::SendFrameCallbacks,
                TickEffect::FlushClients,
            ] + (if flush_ok {
                Seq::empty()
            } else {
                seq![TickEffect::Warn { warning: TickWarning::FlushFailed }]
            })
        }),
{
    let scene = before.push(TickEvent::Scene { output_known });
    let events = scene.push(TickEvent::ClientsFlushed { ok: flush_ok });
    assert(scene.drop_last() =~= before);
    assert(events.drop_last() =~= scene);
    ticks_are_orderly(config, slot, before);
    ticks_are_orderly(config, slot, events);
    let asked = run(Tick::fresh(), config, slot, before).1;
    let skipped = seq![TickEffect::Warn { warning: TickWarning::NoActiveRenderer }] + bookkeeping();
    assert(skipped =~= seq![
        TickEffect::Warn { warning: TickWarning::NoActiveRenderer },
        TickEffect::DamageAllOutputs,
        TickEffect::SendFrameCallbacks,
        TickEffect::FlushClients,
    ]);
    assert(run(Tick::fresh(), config, slot, scene).1 == asked + skipped);
}

/// A request to close ends the tick: once the host window has asked to
/// close during the pump, the tick is over with [`TickOutcome::Terminate`]
/// as soon as the pump is, however the pump ends and whatever comes after;
/// and the whole tick asks for no rendering and no bookkeeping.
pub proof fn close_request_ends_tick(
    config: PointerConfig,
    slot: RendererSlot,
    before: Seq<TickEvent>,
    seat: Seat,
    during: Seq<TickEvent>,
    dispatch_ok: bool,
    after: Seq<TickEvent>,
)
    requires
        run(Tick::fresh(), config, slot, before).0.phase is Pumping,
        forall|i: int| 0 <= i < during.len() ==> #[trigger] during[i] is Host,
    ensures
        ({
            let events = before.push(TickEvent::Host { event: HostEvent::CloseRequested, seat })
                + during.push(TickEvent::PumpFinished { dispatch_ok }) + after;
            let (tick, asked) = run(Tick::fresh(), config, slot, events);
            &&& tick.ended() == Some(TickOutcome::Terminate)
            &&& no_rendering(asked)
            &&& no_bookkeeping(asked)
        }),
{
    let closed = before.push(TickEvent::Host { event: HostEvent::CloseRequested, seat });
    let pumped = during.push(TickEvent::PumpFinished { dispatch_ok });
    assert(closed.drop_last() =~= before);
    let at_close = run(Tick::fresh(), config, slot, closed).0;
    assert(at_close.phase is Pumping && at_close.close_requested);
    lemma_pump_goes_on(at_close, config, slot, during);
    assert(pumped.drop_last() =~= during);
    let at_end = run(at_close, config, slot, pumped).0;
    assert(at_end.ended() == Some(TickOutcome::Terminate));
    run_in_parts(Tick::fresh(), config, slot, closed, pumped);
    run_in_parts(Tick::fresh(), config, slot, closed + pumped, after);
    finished_tick_is_inert(at_end, config, slot, after);
    ticks_are_orderly(config, slot, closed + pumped + after);
}

proof fn lemma_pump_goes_on(
    tick: Tick,
    config: PointerConfig,
    slot: RendererSlot,
    hosts: Seq<TickEvent>,
)
    requires
        tick.phase is Pumping,
        forall|i: int| 0 <= i < hosts.len() ==> #[trigger] hosts[i] is Host,
    ensures
        run(tick, config, slot, hosts).0.phase is Pumping,
        tick.close_requested ==> run(tick, config, slot, hosts).0.close_requested,
    decreases hosts.len(),
{
    if hosts.len() > 0 {
        lemma_pump_goes_on(tick, config, slot, hosts.drop_last());
        assert(hosts.last() == hosts[hosts.len() - 1]);
    }
}

/// The phase that an effect belongs to: 0 for handling host events, 1 for
/// rendering, 2 for the post-render bookkeeping.
pub open spec fn phase_of(effect: TickEffect) -> int {
    match effect {
        TickEffect::RenderFrame | TickEffect::PresentFrame => 1,
        TickEffect::Warn { warning: TickWarning::NoActiveRenderer } => 1,
        TickEffect::Warn { warning: TickWarning::NoOutput } => 1,
        TickEffect::DamageAllOutputs => 2,
        TickEffect::SendFrameCallbacks => 2,
        TickEffect::FlushClients => 2,
        TickEffect::Warn { warning: TickWarning::FlushFailed } => 2,
        _ => 0,
    }
}

/// No effect of the sequence belongs to an earlier phase than an effect
/// before it.
pub open spec fn in_phase_order(asked: Seq<TickEffect>) -> bool {
    forall|i: int, j: int|
        0 <= i < j < asked.len() ==> phase_of(#[trigger] asked[i]) <= phase_of(#[trigger] asked[j])
}

/// Every effect of the sequence belongs to a phase from `from` to `to`.
pub open spec fn within_phases(asked: Seq<TickEffect>, from: int, to: int) -> bool {
    forall|i: int| 0 <= i < asked.len() ==> from <= phase_of(#[trigger] asked[i]) <= to
}

/// The last phase that a tick in this state may have asked anything of.
pub open spec fn phase_reached(tick: Tick) -> int {
    match tick.phase {
        TickPhase::Pumping | TickPhase::AwaitingScene => 0,
        TickPhase::AwaitingSubmission | TickPhase::AwaitingPresentation => 1,
        TickPhase::AwaitingFlush | TickPhase::Finished { .. } => 2,
    }
}

proof fn lemma_step_in_order(
    tick: Tick,
    config: PointerConfig,
    slot: RendererSlot,
    event: TickEvent,
)
    ensures
        in_phase_order(step(tick, config, slot, event).1),
        within_phases(
            step(tick, config, slot, event).1,
            phase_reached(tick),
            phase_reached(step(tick, config, slot, event).0),
        ),
        phase_reached(tick) <= phase_reached(step(tick, config, slot, event).0),
{
    match (tick.phase, event) {
        (TickPhase::Pumping, TickEvent::Host { event, seat }) => {
            host_events_build_no_frame(config, slot, seat, event);
        },
        _ => {},
    }
}

/// Within a tick the phases come strictly in order: host events first, then
/// rendering, then the post-render bookkeeping. Whatever events a fresh tick
/// is fed, nothing that it asks for belongs to an earlier phase than
/// something that it asked for before.
pub proof fn phases_come_in_order(config: PointerConfig, slot: RendererSlot, events: Seq<TickEvent>)
    ensures
        in_phase_order(run(Tick::fresh(), config, slot, events).1),
        within_phases(
            run(Tick::fresh(), config, slot, events).1,
            0,
            phase_reached(run(Tick::fresh(), config, slot, events).0),
        ),
    decreases events.len(),
{
    if events.len() > 0 {
        phases_come_in_order(config, slot, events.drop_last());
        let (before, asked) = run(Tick::fresh(), config, slot, events.drop_last());
        let (after, more) = step(before, config, slot, events.last());
        lemma_step_in_order(before, config, slot, events.last());
        let all = asked + more;
        assert forall|i: int| 0 <= i < all.len() implies 0 <= phase_of(#[trigger] all[i])
            <= phase_reached(after) by {
            if i < asked.len() {
                assert(all[i] == asked[i]);
            } else {
                assert(all[i] == more[i - asked.len()]);
            }
        }
        assert forall|i: int, j: int| 0 <= i < j < all.len() implies phase_of(#[trigger] all[i])
            <= phase_of(#[trigger] all[j]) by {
            if j < asked.len() {
                assert(all[i] == asked[i] && all[j] == asked[j]);
            } else if i < asked.len() {
                assert(all[i] == asked[i] && all[j] == more[j - asked.len()]);
            } else {
                assert(all[i] == more[i - asked.len()] && all[j] == more[j - asked.len()]);
            }
        }
    }
}

/// Whether the event is a host event that asks to close the window.
pub open spec fn is_close_request(event: TickEvent) -> bool {
    event matches TickEvent::Host { event: HostEvent::CloseRequested, .. }
}

/// Whether one of the events is a host event that asks to close the window.
pub open spec fn asks_to_close(hosts: Seq<TickEvent>) -> bool {
    exists|i: int| 0 <= i < hosts.len() && is_close_request(#[trigger] hosts[i])
}

/// What the outside work of a tick can come to once the host events are
/// drained, in the order in which a tick waits for it.
pub open spec fn rest_of_tick(
    dispatch_ok: bool,
    output_known: bool,
    submit_ok: bool,
    present_ok: bool,
    flush_ok: bool,
) -> Seq<TickEvent> {
    seq![
        TickEvent::PumpFinished { dispatch_ok },
        TickEvent::Scene { output_known },
        TickEvent::FrameSubmitted { ok: submit_ok },
        TickEvent::FramePresented { ok: present_ok },
        TickEvent::ClientsFlushed { ok: flush_ok },
    ]
}

/// How a whole tick ends. A request to close and a failed drain end the
/// loop; so does a frame that the renderer refuses or cannot present, which
/// takes a renderer and an output to begin with. Anything else lets the loop
/// go on: a missing renderer, a missing output, and a failed flush.
pub open spec fn outcome_of_tick(
    close_requested: bool,
    dispatch_ok: bool,
    renderer: bool,
    output_known: bool,
    submit_ok: bool,
    present_ok: bool,
) -> TickOutcome {
    if close_requested || !dispatch_ok {
        TickOutcome::Terminate
    } else if renderer && output_known && !(submit_ok && present_ok) {
        TickOutcome::Terminate
    } else {
        TickOutcome::Continue
    }
}

proof fn lemma_run_push(
    tick: Tick,
    config: PointerConfig,
    slot: RendererSlot,
    events: Seq<TickEvent>,
    event: TickEvent,
)
    ensures
        run(tick, config, slot, events.push(event)).0 == step(
            run(tick, config, slot, events).0,
            config,
            slot,
            event,
        ).0,
        run(tick, config, slot, events.push(event)).1 == run(tick, config, slot, events).1 + step(
            run(tick, config, slot, events).0,
            config,
            slot,
            event,
        ).1,
{
    assert(events.push(event).drop_last() =~= events);
    assert(events.push(event).last() == event);
}

proof fn lemma_pump_remembers(config: PointerConfig, slot: RendererSlot, hosts: Seq<TickEvent>)
    requires
        forall|i: int| 0 <= i < hosts.len() ==> #[trigger] hosts[i] is Host,
    ensures
        run(Tick::fresh(), config, slot, hosts).0.phase is Pumping,
        run(Tick::fresh(), config, slot, hosts).0.close_requested == asks_to_close(hosts),
    decreases hosts.len(),
{
    if hosts.len() > 0 {
        let earlier = hosts.drop_last();
        lemma_pump_remembers(config, slot, earlier);
        let last = hosts.last();
        assert(last == hosts[hosts.len() - 1]);
        if asks_to_close(earlier) {
            let i = choose|i: int|
                0 <= i < earlier.len() && is_close_request(#[trigger] earlier[i]);
            assert(is_close_request(hosts[i]));
        }
        if asks_to_close(hosts) && !is_close_request(last) {
            let i = choose|i: int| 0 <= i < hosts.len() && is_close_request(#[trigger] hosts[i]);
            assert(is_close_request(earlier[i]));
        }
    }
}

/// How a whole tick ends is a matter of six things alone. Feed a fresh tick
/// any host events, and then what the rest of the outside work comes to: the
/// tick is over, it ends as [`outcome_of_tick`] says, and that is what the
/// scheduler is told. Whether the flush works makes no difference.
pub proof fn whole_tick_ends(
    config: PointerConfig,
    slot: RendererSlot,
    hosts: Seq<TickEvent>,
    dispatch_ok: bool,
    output_known: bool,
    submit_ok: bool,
    present_ok: bool,
    flush_ok: bool,
)
    requires
        forall|i: int| 0 <= i < hosts.len() ==> #[trigger] hosts[i] is Host,
    ensures
        run(
            Tick::fresh(),
            config,
            slot,
            hosts + rest_of_tick(dispatch_ok, output_known, submit_ok, present_ok, flush_ok),
        ).0.ended() == Some(
            outcome_of_tick(
                asks_to_close(hosts),
                dispatch_ok,
                slot.active is Some,
                output_known,
                submit_ok,
                present_ok,
            ),
        ),
        run(
            Tick::fresh(),
            config,
            slot,
            hosts + rest_of_tick(dispatch_ok, output_known, submit_ok, present_ok, flush_ok),
        ).0.conclusion() == outcome_of_tick(
            asks_to_close(hosts),
            dispatch_ok,
            slot.active is Some,
            output_known,
            submit_ok,
            present_ok,
        ),
{
    let pumped = hosts.push(TickEvent::PumpFinished { dispatch_ok });
    let seen = pumped.push(TickEvent::Scene { output_known });
    let submitted = seen.push(TickEvent::FrameSubmitted { ok: submit_ok });
    let presented = submitted.push(TickEvent::FramePresented { ok: present_ok });
    let flushed = presented.push(TickEvent::ClientsFlushed { ok: flush_ok });
    assert(flushed =~= hosts + rest_of_tick(
        dispatch_ok,
        output_known,
        submit_ok,
        present_ok,
        flush_ok,
    ));
    lemma_pump_remembers(config, slot, hosts);
    lemma_run_push(Tick::fresh(), config, slot, hosts, TickEvent::PumpFinished { dispatch_ok });
    lemma_run_push(Tick::fresh(), config, slot, pumped, TickEvent::Scene { output_known });
    lemma_run_push(Tick::fresh(), config, slot, seen, TickEvent::FrameSubmitted { ok: submit_ok });
    lemma_run_push(
        Tick::fresh(),
        config,
        slot,
        submitted,
        TickEvent::FramePresented { ok: present_ok },
    );
    lemma_run_push(
        Tick::fresh(),
        config,
        slot,
        presented,
        TickEvent::ClientsFlushed { ok: flush_ok },
    );
}

} // verus!
