//! Backends: what every backend owes at start-up and when it is handed to
//! the scheduler.
//!
//! The embedding program does the outside work of start-up: it creates the
//! host display or window, builds the renderer for it, and registers the tick
//! source with the scheduler. A backend decides what each outcome of that
//! work means.

use vstd::prelude::*;
use crate::compositor::geometry::PhysicalSize;
use crate::compositor::renderer::{RendererKind, RendererSlot};

pub mod winit_backend;

verus! {

/// Why a backend cannot be used.
#[derive(Clone, Copy, Debug, PartialEq, Eq)]
pub enum BackendError {
    /// The host display or window could not be created.
    WindowCreation,
    /// The renderer could not be built.
    RendererConstruction,
    /// The tick source could not be registered with the scheduler.
    TickSourceRegistration,
}

/// How far the outside work of start-up got. The renderer is built for the
/// window's size, so there is no renderer without a window.
#[derive(Clone, Copy, Debug, PartialEq, Eq)]
pub enum InitReport {
    /// The host window could not be created.
    WindowFailed,
    /// The window is there, the renderer could not be built.
    RendererFailed { window: PhysicalSize },
    /// The window is there, and a renderer of `renderer` kind for it.
    Ready { window: PhysicalSize, renderer: RendererKind },
}

/// The error that start-up ends with, if it fails.
pub open spec fn init_error(report: InitReport) -> Option<BackendError> {
    match report {
        InitReport::WindowFailed => Some(BackendError::WindowCreation),
        InitReport::RendererFailed { .. } => Some(BackendError::RendererConstruction),
        InitReport::Ready { .. } => None,
    }
}

/// The renderer slot after start-up: holding the new renderer where start-up
/// worked, untouched where it failed.
pub open spec fn slot_after_init(slot: RendererSlot, report: InitReport) -> RendererSlot {
    match report {
        InitReport::Ready { window, renderer } => RendererSlot::holding(renderer),
        _ => slot,
    }
}

/// Whether the backend runs, given whether its tick source was registered.
pub open spec fn running(registered: bool) -> Result<(), BackendError> {
    if registered {
        Ok(())
    } else {
        Err(BackendError::TickSourceRegistration)
    }
}

/// A windowing or display backend.
pub trait CompositorBackend: Sized {
    /// Finishes start-up. With window and renderer at hand, the backend is
    /// there, the renderer is installed in the slot and its kind recorded.
    /// Without the window, or without the renderer, start-up fails with the
    /// error that says which, and the slot stays as it was.
    fn init(slot: &mut RendererSlot, report: InitReport) -> (backend: Result<Self, BackendError>)
        ensures
            match init_error(report) {
                Some(error) => backend is Err && backend->Err_0 == error,
                None => backend is Ok,
            },
            *final(slot) == slot_after_init(*old(slot), report),
    ;

    /// Hands the backend over to the scheduler: the backend runs if its tick
    /// source could be registered, and fails if not. Nothing else fails here.
    fn run(self, registered: bool) -> (outcome: Result<(), BackendError>)
        ensures
            outcome == running(registered),
    ;
}

} // verus!
