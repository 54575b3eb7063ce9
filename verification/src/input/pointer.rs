//! The pointer pipeline: acceleration of relative motion, mapping of absolute
//! positions, button mapping, scroll scaling, and the confinement state.

use vstd::prelude::*;
use crate::input::config::{PointerConfig, FACTOR_UNIT, MIN_MULTIPLIER};
use crate::input::event::{
    AbsoluteMotionEvent, AxisEvent, AxisReport, AxisSource, ButtonEvent, MotionEvent,
    ProcessedAxis, ProcessedButton,
};

verus! {

/// Whether the pointer may leave its constraint region.
#[derive(Clone, Copy, Debug, PartialEq, Eq)]
pub enum Confinement {
    /// The pointer moves freely.
    Free,
    /// A client has confined the pointer.
    Confined,
}

/// What a [`Pointer`] is, to its users.
pub struct PointerView {
    pub config: PointerConfig,
    pub confinement: Confinement,
}

impl PointerView {
    /// This pointer after a confine request.
    pub open spec fn confined(self) -> PointerView {
        PointerView { config: self.config, confinement: Confinement::Confined }
    }

    /// This pointer after an unconfine request.
    pub open spec fn unconfined(self) -> PointerView {
        PointerView { config: self.config, confinement: Confinement::Free }
    }
}

/// A raw relative delta after acceleration, in millionths of a pixel.
pub open spec fn accelerated(config: PointerConfig, delta: i64) -> int {
    delta * config.multiplier()
}

/// A normalised absolute coordinate on an output that is `extent` pixels
/// wide or high, in millionths of a pixel.
pub open spec fn on_output(coordinate: i64, extent: u32) -> int {
    coordinate * extent
}

/// What mapping an absolute position onto an output comes to: the position
/// on the output, in millionths of a pixel, and the pointer afterwards, which
/// is the pointer before.
pub open spec fn absolute_motion(
    pointer: PointerView,
    event: AbsoluteMotionEvent,
    output_width: u32,
    output_height: u32,
) -> ((int, int), PointerView) {
    ((on_output(event.x, output_width), on_output(event.y, output_height)), pointer)
}

/// The source that a scroll event is processed as: an unknown source counts
/// as a wheel.
pub open spec fn effective_source(source: AxisSource) -> AxisSource {
    match source {
        AxisSource::Unknown => AxisSource::Wheel,
        known => known,
    }
}

/// Whether continuous scroll amounts of this source change sign.
pub open spec fn inverts(config: PointerConfig, source: AxisSource) -> bool {
    config.natural_scrolling && effective_source(source) == AxisSource::Finger
}

/// A continuous scroll amount after scaling, in millionths.
pub open spec fn scrolled(config: PointerConfig, source: AxisSource, amount: i64) -> int {
    if inverts(config, source) {
        -(amount * config.scroll_factor)
    } else {
        amount * config.scroll_factor
    }
}

/// A count of discrete scroll steps after scaling, in millionths of a step.
/// Natural scrolling leaves it alone.
pub open spec fn stepped(config: PointerConfig, steps: i32) -> int {
    steps * FACTOR_UNIT * config.scroll_factor
}

/// The continuous part of one axis after scaling.
pub open spec fn processed_continuous(
    config: PointerConfig,
    source: AxisSource,
    report: AxisReport,
) -> Option<i128> {
    match report.continuous {
        Some(amount) => Some(scrolled(config, source, amount) as i128),
        None => None,
    }
}

/// The discrete part of one axis after scaling: the scaled steps of an axis
/// that the event has, and nothing for an axis that it lacks, whatever steps
/// are reported of it.
pub open spec fn processed_discrete(config: PointerConfig, report: AxisReport) -> Option<i128> {
    match report.discrete {
        Some(steps) if report.present() => Some(stepped(config, steps) as i128),
        _ => None,
    }
}

/// A scroll event after scaling.
pub open spec fn processed_axis(config: PointerConfig, event: AxisEvent) -> ProcessedAxis {
    ProcessedAxis {
        source: effective_source(event.source),
        horizontal: processed_continuous(config, event.source, event.horizontal),
        vertical: processed_continuous(config, event.source, event.vertical),
        horizontal_discrete: processed_discrete(config, event.horizontal),
        vertical_discrete: processed_discrete(config, event.vertical),
        time: event.time,
    }
}

/// A button event after mapping. Buttons map to themselves.
pub open spec fn processed_button(event: ButtonEvent) -> ProcessedButton {
    ProcessedButton {
        raw_button: event.button,
        mapped_button: event.button,
        state: event.state,
        time: event.time,
    }
}

/// The product of a 64-bit amount and a factor of at most 2^63 + 999 in
/// magnitude is at most 2^63 times 2^63 + 999 in magnitude: it fits in 128
/// bits, with room for a 64-bit amount added to it.
pub proof fn product_fits(amount: int, factor: int)
    requires
        i64::MIN <= amount <= i64::MAX,
        -0x8000_0000_0000_03e7 <= factor <= 0x8000_0000_0000_03e7,
    ensures
        -0x4000_0000_0000_01f3_8000_0000_0000_0000 <= amount * factor
            <= 0x4000_0000_0000_01f3_8000_0000_0000_0000,
        i128::MIN < amount * factor <= i128::MAX,
        i128::MIN < -(amount * factor) <= i128::MAX,
{
    let bound: int = 0x8000_0000_0000_0000;
    let wide: int = 0x8000_0000_0000_03e7;
    assert(-(bound * wide) <= amount * factor <= bound * wide) by (nonlinear_arith)
        requires
            -bound <= amount <= bound,
            -wide <= factor <= wide,
            0 <= bound,
            0 <= wide,
    ;
    assert(bound * wide == 0x4000_0000_0000_01f3_8000_0000_0000_0000) by (nonlinear_arith)
        requires
            bound == 0x8000_0000_0000_0000,
            wide == 0x8000_0000_0000_03e7,
    ;
}

/// Input-normalisation state of one pointer device.
#[derive(Debug)]
pub struct Pointer {
    config: PointerConfig,
    is_confined: bool,
}

impl Clone for Pointer {
    fn clone(&self) -> (copy: Self)
        ensures
            copy@ == self@,
    {
        Pointer { config: self.config, is_confined: self.is_confined }
    }
}

impl View for Pointer {
    type V = PointerView;

    closed spec fn view(&self) -> PointerView {
        PointerView {
            config: self.config,
            confinement: if self.is_confined {
                Confinement::Confined
            } else {
                Confinement::Free
            },
        }
    }
}

impl Pointer {
    /// A free pointer with a copy of `config`.
    pub fn new(config: &PointerConfig) -> (pointer: Self)
        ensures
            pointer@ == (PointerView { config: *config, confinement: Confinement::Free }),
    {
        Pointer { config: *config, is_confined: false }
    }

    /// The configuration that the pointer was made with.
    pub fn config(&self) -> (config: PointerConfig)
        ensures
            config == self@.config,
    {
        self.config
    }

    /// Whether the pointer is free or confined.
    pub fn confinement(&self) -> (confinement: Confinement)
        ensures
            confinement == self@.confinement,
    {
        if self.is_confined {
            Confinement::Confined
        } else {
            Confinement::Free
        }
    }

    /// Confines the pointer. A confined pointer stays confined.
    pub fn confine(&mut self)
        ensures
            final(self)@ == old(self)@.confined(),
    {
        self.is_confined = true;
    }

    /// Releases the pointer. A free pointer stays free.
    pub fn unconfine(&mut self)
        ensures
            final(self)@ == old(self)@.unconfined(),
    {
        self.is_confined = false;
    }

    /// Accelerates a relative motion: both deltas are multiplied by
    /// [`PointerConfig::multiplier`]. The result is in millionths of a pixel.
    ///
    /// Confinement does not change the deltas: no constraint region is
    /// tracked yet.
    pub fn handle_motion_event(&mut self, event: &MotionEvent) -> (delta: (i128, i128))
        ensures
            delta.0 == accelerated(old(self)@.config, event.dx),
            delta.1 == accelerated(old(self)@.config, event.dy),
            final(self)@ == old(self)@,
    {
        let multiplier: i128 = self.config.effective_multiplier();
        proof {
            product_fits(event.dx as int, multiplier as int);
            product_fits(event.dy as int, multiplier as int);
        }
        (event.dx as i128 * multiplier, event.dy as i128 * multiplier)
    }

    /// Maps an absolute position onto an output of the given size in pixels.
    /// The result is in millionths of a pixel, and depends on nothing but
    /// the arguments.
    pub fn handle_motion_absolute_event(
        &mut self,
        event: &AbsoluteMotionEvent,
        output_width: u32,
        output_height: u32,
    ) -> (position: (i128, i128))
        ensures
            position.0 == absolute_motion(old(self)@, *event, output_width, output_height).0.0,
            position.1 == absolute_motion(old(self)@, *event, output_width, output_height).0.1,
            final(self)@ == absolute_motion(old(self)@, *event, output_width, output_height).1,
    {
        proof {
            product_fits(event.x as int, output_width as int);
            product_fits(event.y as int, output_height as int);
        }
        (event.x as i128 * output_width as i128, event.y as i128 * output_height as i128)
    }

    /// Maps a button event. The button keeps its code.
    pub fn handle_button_event(&mut self, event: &ButtonEvent) -> (processed: ProcessedButton)
        ensures
            processed == processed_button(*event),
            final(self)@ == old(self)@,
    {
        ProcessedButton {
            raw_button: event.button,
            mapped_button: event.button,
            state: event.state,
            time: event.time,
        }
    }

    /// Scales a scroll event by the scroll factor, axis by axis. Of an axis
    /// that the event has, the continuous amount is scaled, and so are the
    /// discrete steps if any are reported; an axis that the event lacks
    /// gives nothing. With natural scrolling switched on, the continuous
    /// amounts of a finger source change sign; discrete steps never do.
    pub fn handle_axis_event(&mut self, event: &AxisEvent) -> (processed: ProcessedAxis)
        ensures
            processed == processed_axis(old(self)@.config, *event),
            final(self)@ == old(self)@,
    {
        let source = match event.source {
            AxisSource::Unknown => AxisSource::Wheel,
            AxisSource::Wheel => AxisSource::Wheel,
            AxisSource::Finger => AxisSource::Finger,
            AxisSource::Continuous => AxisSource::Continuous,
        };
        let invert = self.config.natural_scrolling && matches!(source, AxisSource::Finger);
        ProcessedAxis {
            source,
            horizontal: self.scale_continuous(invert, &event.horizontal),
            vertical: self.scale_continuous(invert, &event.vertical),
            horizontal_discrete: self.scale_discrete(&event.horizontal),
            vertical_discrete: self.scale_discrete(&event.vertical),
            time: event.time,
        }
    }

    fn scale_continuous(&self, invert: bool, report: &AxisReport) -> (scaled: Option<i128>)
        ensures
            scaled == match report.continuous {
                Some(amount) => Some(
                    (if invert {
                        -(amount * self@.config.scroll_factor)
                    } else {
                        amount * self@.config.scroll_factor
                    }) as i128,
                ),
                None => None,
            },
    {
        match report.continuous {
            Some(amount) => {
                proof {
                    product_fits(amount as int, self.config.scroll_factor as int);
                }
                let product: i128 = amount as i128 * self.config.scroll_factor as i128;
                if invert {
                    Some(-product)
                } else {
                    Some(product)
                }
            },
            None => None,
        }
    }

    fn scale_discrete(&self, report: &AxisReport) -> (scaled: Option<i128>)
        ensures
            scaled == processed_discrete(self@.config, *report),
    {
        match (report.continuous, report.discrete) {
            (Some(_), Some(steps)) => {
                let whole: i64 = steps as i64 * FACTOR_UNIT;
                proof {
                    product_fits(whole as int, self.config.scroll_factor as int);
                }
                Some(whole as i128 * self.config.scroll_factor as i128)
            },
            _ => None,
        }
    }
}

/// The motion multiplier is one plus the acceleration factor wherever that
/// is at least a hundredth, and a hundredth everywhere else; so it is never
/// zero or negative, and accelerated motion keeps the direction of the raw
/// motion and vanishes only where the raw motion does.
pub proof fn multiplier_is_floored(config: PointerConfig, delta: i64)
    ensures
        config.multiplier() >= MIN_MULTIPLIER > 0,
        config.acceleration_factor >= MIN_MULTIPLIER - FACTOR_UNIT ==> config.multiplier()
            == FACTOR_UNIT + config.acceleration_factor,
        config.acceleration_factor <= MIN_MULTIPLIER - FACTOR_UNIT ==> config.multiplier()
            == MIN_MULTIPLIER,
        delta > 0 <==> accelerated(config, delta) > 0,
        delta < 0 <==> accelerated(config, delta) < 0,
{
    let m = config.multiplier();
    assert(delta > 0 ==> delta * m > 0) by (nonlinear_arith)
        requires
            m > 0,
    ;
    assert(delta < 0 ==> delta * m < 0) by (nonlinear_arith)
        requires
            m > 0,
    ;
    assert(delta == 0 ==> delta * m == 0) by (nonlinear_arith);
}

/// Mapping an absolute position is repeatable. It leaves the pointer as it
/// was, so mapping the same event onto the same output once more starts
/// where the first mapping started and comes to the same; and the position
/// is the same for every pointer: it depends on the event and the output's
/// size alone.
pub proof fn absolute_mapping_is_repeatable(
    pointer: PointerView,
    other: PointerView,
    event: AbsoluteMotionEvent,
    output_width: u32,
    output_height: u32,
)
    ensures
        absolute_motion(pointer, event, output_width, output_height).1 == pointer,
        absolute_motion(
            absolute_motion(pointer, event, output_width, output_height).1,
            event,
            output_width,
            output_height,
        ) == absolute_motion(pointer, event, output_width, output_height),
        absolute_motion(pointer, event, output_width, output_height).0 == absolute_motion(
            other,
            event,
            output_width,
            output_height,
        ).0,
        absolute_motion(pointer, event, output_width, output_height).0 == (
            event.x * output_width,
            event.y * output_height,
        ),
{
}

/// A continuous scroll amount is multiplied by the scroll factor, and changes
/// sign exactly where natural scrolling is on and a finger scrolls. Discrete
/// steps are multiplied and never change sign. Both products fit in 128
/// bits, so that the processed amounts are exact.
pub proof fn scroll_is_scaled(config: PointerConfig, source: AxisSource, amount: i64, steps: i32)
    ensures
        config.natural_scrolling && source == AxisSource::Finger ==> scrolled(
            config,
            source,
            amount,
        ) == -(amount * config.scroll_factor),
        !(config.natural_scrolling && source == AxisSource::Finger) ==> scrolled(
            config,
            source,
            amount,
        ) == amount * config.scroll_factor,
        stepped(config, steps) == steps * FACTOR_UNIT * config.scroll_factor,
        i128::MIN < scrolled(config, source, amount) <= i128::MAX,
        i128::MIN < stepped(config, steps) <= i128::MAX,
{
    product_fits(amount as int, config.scroll_factor as int);
    product_fits(steps * FACTOR_UNIT, config.scroll_factor as int);
}

/// A processed scroll event has the parts of the axes that the event has,
/// each one scaled, and nothing else. The continuous part of an axis is
/// there exactly where the event has the axis; the discrete part is there
/// exactly where the event has the axis and steps are reported of it. An axis
/// that the event lacks gives neither, whatever steps are reported of it,
/// and never a zero; a reported zero stays a zero.
pub proof fn scroll_keeps_its_parts(config: PointerConfig, event: AxisEvent)
    ensures
        processed_axis(config, event).horizontal is Some <==> event.horizontal.present(),
        processed_axis(config, event).vertical is Some <==> event.vertical.present(),
        processed_axis(config, event).horizontal_discrete is Some <==> event.horizontal.present()
            && event.horizontal.discrete is Some,
        processed_axis(config, event).vertical_discrete is Some <==> event.vertical.present()
            && event.vertical.discrete is Some,
        processed_axis(config, event).horizontal == match event.horizontal.continuous {
            Some(amount) => Some(scrolled(config, event.source, amount) as i128),
            None => None,
        },
        processed_axis(config, event).vertical == match event.vertical.continuous {
            Some(amount) => Some(scrolled(config, event.source, amount) as i128),
            None => None,
        },
        processed_axis(config, event).horizontal_discrete == match event.horizontal.discrete {
            Some(steps) if event.horizontal.present() => Some(stepped(config, steps) as i128),
            _ => None,
        },
        processed_axis(config, event).vertical_discrete == match event.vertical.discrete {
            Some(steps) if event.vertical.present() => Some(stepped(config, steps) as i128),
            _ => None,
        },
        event.horizontal.continuous == Some(0i64) ==> processed_axis(config, event).horizontal
            == Some(0i128),
        event.vertical.continuous == Some(0i64) ==> processed_axis(config, event).vertical == Some(
            0i128,
        ),
{
}

/// What a device says of an axis decides what comes of it. The axis is
/// scaled exactly where the device says that the event has it, and its steps
/// exactly where the device says so and gives steps; the amount and the steps
/// that the device gives for an axis that the event lacks come to nothing.
pub proof fn absent_axes_give_nothing(
    config: PointerConfig,
    source: AxisSource,
    present: bool,
    amount: i64,
    steps: Option<i32>,
)
    ensures
        processed_continuous(config, source, AxisReport::device(present, amount, steps)) == (
        if present {
            Some(scrolled(config, source, amount) as i128)
        } else {
            None
        }),
        processed_discrete(config, AxisReport::device(present, amount, steps)) == (match steps {
            Some(count) if present => Some(stepped(config, count) as i128),
            _ => None,
        }),
{
}

/// Confining and then releasing a pointer leaves it free; releasing a free
/// pointer and confining a confined one change nothing.
pub proof fn confinement_transitions(pointer: PointerView)
    ensures
        pointer.confined().unconfined().confinement == Confinement::Free,
        pointer.confined().unconfined().config == pointer.config,
        pointer.confinement == Confinement::Free ==> pointer.unconfined() == pointer,
        pointer.confinement == Confinement::Confined ==> pointer.confined() == pointer,
        pointer.confined().confinement == Confinement::Confined,
        pointer.unconfined().confinement == Confinement::Free,
{
}

} // verus!
