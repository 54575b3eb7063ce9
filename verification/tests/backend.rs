use novade_system::compositor::backend::winit_backend::WinitBackend;
use novade_system::compositor::backend::{BackendError, CompositorBackend, InitReport};
use novade_system::compositor::geometry::PhysicalSize;
use novade_system::compositor::renderer::{RendererKind, RendererSlot};

fn window() -> PhysicalSize {
    PhysicalSize { width: 800, height: 600 }
}

#[test]
fn empty_slot_holds_nothing() {
    let slot = RendererSlot::empty();
    assert_eq!(slot.active, None);
    assert_eq!(slot.recorded_kind, None);
    assert!(!slot.is_concrete());
}

#[test]
fn install_sets_renderer_and_kind() {
    let mut slot = RendererSlot::empty();
    slot.install(RendererKind::Wgpu);
    assert_eq!(slot.active, Some(RendererKind::Wgpu));
    assert_eq!(slot.recorded_kind, Some(RendererKind::Wgpu));
    assert!(slot.is_concrete());
    slot.install(RendererKind::Gles);
    assert_eq!(slot.active, Some(RendererKind::Gles));
    assert_eq!(slot.recorded_kind, Some(RendererKind::Gles));
    assert!(slot.is_concrete());
}

#[test]
fn renderer_of_another_kind_is_not_concrete() {
    let slot =
        RendererSlot { active: Some(RendererKind::Gles), recorded_kind: Some(RendererKind::Wgpu) };
    assert!(!slot.is_concrete());
    let slot = RendererSlot { active: Some(RendererKind::Gles), recorded_kind: None };
    assert!(!slot.is_concrete());
    let slot = RendererSlot { active: None, recorded_kind: Some(RendererKind::Wgpu) };
    assert!(!slot.is_concrete());
}

#[test]
fn init_without_window_fails_and_installs_nothing() {
    let mut slot = RendererSlot::empty();
    let backend = WinitBackend::init(&mut slot, InitReport::WindowFailed);
    assert_eq!(backend, Err(BackendError::WindowCreation));
    assert_eq!(slot, RendererSlot::empty());
}

#[test]
fn init_without_renderer_fails_and_installs_nothing() {
    let mut slot = RendererSlot::empty();
    let backend = WinitBackend::init(&mut slot, InitReport::RendererFailed { window: window() });
    assert_eq!(backend, Err(BackendError::RendererConstruction));
    assert_eq!(slot, RendererSlot::empty());
}

#[test]
fn failed_init_keeps_an_earlier_renderer() {
    let mut slot = RendererSlot::empty();
    slot.install(RendererKind::Gles);
    let before = slot;
    assert!(WinitBackend::init(&mut slot, InitReport::WindowFailed).is_err());
    assert_eq!(slot, before);
    let failed = InitReport::RendererFailed { window: window() };
    assert!(WinitBackend::init(&mut slot, failed).is_err());
    assert_eq!(slot, before);
}

#[test]
fn init_installs_the_renderer() {
    let mut slot = RendererSlot::empty();
    let report = InitReport::Ready { window: window(), renderer: RendererKind::Wgpu };
    let backend = WinitBackend::init(&mut slot, report);
    assert_eq!(
        backend,
        Ok(WinitBackend { initial_size: window(), renderer: RendererKind::Wgpu })
    );
    assert_eq!(slot.active, Some(RendererKind::Wgpu));
    assert_eq!(slot.recorded_kind, Some(RendererKind::Wgpu));
}

#[test]
fn run_needs_the_tick_source() {
    let backend = WinitBackend { initial_size: window(), renderer: RendererKind::Wgpu };
    assert_eq!(backend.run(true), Ok(()));
    assert_eq!(backend.run(false), Err(BackendError::TickSourceRegistration));
}
