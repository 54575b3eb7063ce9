//! The windowed backend.

use vstd::prelude::*;
use crate::compositor::backend::{BackendError, CompositorBackend, InitReport};
use crate::compositor::geometry::PhysicalSize;
use crate::compositor::renderer::{RendererKind, RendererSlot};

verus! {

/// A windowed backend that has started.
#[derive(Clone, Copy, Debug, PartialEq, Eq)]
pub struct WinitBackend {
    /// The size that the window had when the renderer was built.
    pub initial_size: PhysicalSize,
    /// The kind of the renderer that the backend installed.
    pub renderer: RendererKind,
}

/// The windowed backend that start-up gives where it works.
pub open spec fn started(report: InitReport) -> Option<WinitBackend> {
    match report {
        InitReport::Ready { window, renderer } => Some(
            WinitBackend { initial_size: window, renderer },
        ),
        _ => None,
    }
}

impl CompositorBackend for WinitBackend {
    /// Where start-up works, the backend remembers the window's size and the
    /// renderer's kind.
    fn init(slot: &mut RendererSlot, report: InitReport) -> (backend: Result<Self, BackendError>)
        ensures
            backend is Ok ==> Some(backend->Ok_0) == started(report),
    {
        match report {
            InitReport::WindowFailed => Err(BackendError::WindowCreation),
            InitReport::RendererFailed { window: _ } => Err(BackendError::RendererConstruction),
            InitReport::Ready { window, renderer } => {
                slot.install(renderer);
                Ok(WinitBackend { initial_size: window, renderer })
            },
        }
    }

    fn run(self, registered: bool) -> (outcome: Result<(), BackendError>) {
        if registered {
            Ok(())
        } else {
            Err(BackendError::TickSourceRegistration)
        }
    }
}

} // verus!
