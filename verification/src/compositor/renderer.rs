//! The compositor-wide renderer slot.

use vstd::prelude::*;

verus! {

/// The concrete kinds of renderer that can sit in the slot.
#[derive(Clone, Copy, Debug, PartialEq, Eq)]
pub enum RendererKind {
    Gles,
    Wgpu,
}

/// What the shared state knows of its renderer.
#[derive(Clone, Copy, Debug, PartialEq, Eq)]
pub struct RendererSlot {
    /// The kind of the renderer that frames go to, if there is one.
    pub active: Option<RendererKind>,
    /// The kind that was recorded when a backend installed its renderer.
    pub recorded_kind: Option<RendererKind>,
}

impl RendererSlot {
    /// The slot before any backend has started.
    pub open spec fn vacant() -> RendererSlot {
        RendererSlot { active: None, recorded_kind: None }
    }

    /// The slot right after a backend has installed a renderer of `kind`.
    pub open spec fn holding(kind: RendererKind) -> RendererSlot {
        RendererSlot { active: Some(kind), recorded_kind: Some(kind) }
    }

    /// Whether the active renderer is of the recorded kind, so that the
    /// operations of that kind (resize) can be had from it.
    pub open spec fn concrete(self) -> bool {
        self.active is Some && self.recorded_kind == self.active
    }

    /// Computes [`RendererSlot::vacant`].
    pub fn empty() -> (slot: RendererSlot)
        ensures
            slot == RendererSlot::vacant(),
    {
        RendererSlot { active: None, recorded_kind: None }
    }

    /// Installs a renderer of `kind` and records the kind.
    pub fn install(&mut self, kind: RendererKind)
        ensures
            *final(self) == RendererSlot::holding(kind),
    {
        self.active = Some(kind);
        self.recorded_kind = Some(kind);
    }

    /// Computes [`RendererSlot::concrete`].
    pub fn is_concrete(&self) -> (concrete: bool)
        ensures
            concrete == self.concrete(),
    {
        match (self.active, self.recorded_kind) {
            (Some(RendererKind::Gles), Some(RendererKind::Gles)) => true,
            (Some(RendererKind::Wgpu), Some(RendererKind::Wgpu)) => true,
            _ => false,
        }
    }
}

} // verus!
