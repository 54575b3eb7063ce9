//! From the scene graph's elements to the frame that the renderer gets.

use vstd::prelude::*;
use crate::compositor::geometry::{output_geometry, PhysicalSize, Rectangle};

verus! {

/// One element of the scene graph on an output, as read this tick.
#[derive(Debug, PartialEq, Eq)]
pub struct SceneElement {
    /// Whether the element is mapped.
    pub mapped: bool,
    /// The drawable surface attached to the element, by its handle.
    pub surface: Option<u64>,
    /// Where the element lies, in output-local space.
    pub geometry: Rectangle,
    /// What changed since the last frame, in surface-local space.
    pub damage: Vec<Rectangle>,
}

/// The first known output and what the scene graph holds for it.
#[derive(Debug, PartialEq, Eq)]
pub struct OutputSnapshot {
    /// Where the scene graph has the output, if it has a record of it.
    pub geometry: Option<Rectangle>,
    /// The output's scale factor, in thousandths.
    pub scale: i64,
    /// The current size of the host window.
    pub window: PhysicalSize,
    /// The elements attached to the output, bottom first.
    pub elements: Vec<SceneElement>,
}

/// One drawable surface of a frame.
#[derive(Debug, PartialEq, Eq)]
pub enum RenderElement {
    /// A client surface.
    WaylandSurface {
        /// The handle of the surface that holds the pixel buffer.
        surface: u64,
        /// Where to draw it, in output-local space.
        geometry: Rectangle,
        /// What changed since the last frame; empty where nothing did.
        damage_surface_local: Vec<Rectangle>,
    },
}

/// A [`RenderElement`] with its damage as a sequence.
pub enum RenderElementView {
    WaylandSurface { surface: u64, geometry: Rectangle, damage_surface_local: Seq<Rectangle> },
}

impl View for RenderElement {
    type V = RenderElementView;

    open spec fn view(&self) -> RenderElementView {
        match *self {
            RenderElement::WaylandSurface { surface, geometry, damage_surface_local } => {
                RenderElementView::WaylandSurface {
                    surface,
                    geometry,
                    damage_surface_local: damage_surface_local@,
                }
            },
        }
    }
}

/// What goes to the renderer for one frame.
#[derive(Debug, PartialEq, Eq)]
pub struct Frame {
    /// The elements to draw, in scene order.
    pub elements: Vec<RenderElement>,
    /// Where the output lies.
    pub output_geometry: Rectangle,
    /// The output's scale factor, in thousandths.
    pub output_scale: i64,
    /// Whether the scene graph had no record of the output, so that the
    /// window's rectangle stands in for its geometry.
    pub fallback_geometry: bool,
    /// The positions in the scene of the mapped elements that have no
    /// drawable surface and were left out, in scene order.
    pub undrawable: Vec<usize>,
}

/// What a scene element contributes to a frame: a mapped element with a
/// drawable surface is drawn as it lies, with its damage; any other
/// contributes nothing.
pub open spec fn drawn(element: SceneElement) -> Option<RenderElementView> {
    match element.surface {
        Some(surface) if element.mapped => Some(
            RenderElementView::WaylandSurface {
                surface,
                geometry: element.geometry,
                damage_surface_local: element.damage@,
            },
        ),
        _ => None,
    }
}

/// [`drawn`] as a function value.
pub open spec fn drawing() -> spec_fn(SceneElement) -> Option<RenderElementView> {
    |element: SceneElement| drawn(element)
}

/// The elements of the frame for a scene: what its elements contribute, in
/// scene order.
pub open spec fn frame_elements(scene: Seq<SceneElement>) -> Seq<RenderElementView> {
    scene.filter_map(drawing())
}

/// Whether the element at `position` is mapped and has no drawable surface.
pub open spec fn is_undrawable(scene: Seq<SceneElement>, position: int) -> bool {
    0 <= position < scene.len() && scene[position].mapped && scene[position].surface is None
}

/// The positions below `end` of the mapped elements without a drawable
/// surface, ascending.
pub open spec fn undrawable_below(scene: Seq<SceneElement>, end: int) -> Seq<usize>
    decreases end,
{
    if end <= 0 {
        Seq::empty()
    } else if is_undrawable(scene, end - 1) {
        undrawable_below(scene, end - 1).push((end - 1) as usize)
    } else {
        undrawable_below(scene, end - 1)
    }
}

/// The views of render elements.
pub open spec fn element_views(elements: Seq<RenderElement>) -> Seq<RenderElementView> {
    elements.map_values(|element: RenderElement| element@)
}

/// Whether `frame` is the frame for `output`: its geometry is the output's,
/// or the window's rectangle where the scene graph does not know the output;
/// its scale is the output's; and it has one render element for each mapped
/// scene element that has a drawable surface, and the positions of the
/// mapped elements that have none.
pub open spec fn composes(frame: Frame, output: OutputSnapshot) -> bool {
    &&& element_views(frame.elements@) == frame_elements(output.elements@)
    &&& frame.output_geometry == output_geometry(output.geometry, output.window)
    &&& frame.output_scale == output.scale
    &&& frame.fallback_geometry == (output.geometry is None)
    &&& frame.undrawable@ == undrawable_below(output.elements@, output.elements@.len() as int)
}

fn copy_damage(damage: &Vec<Rectangle>) -> (copy: Vec<Rectangle>)
    ensures
        copy@ == damage@,
{
    let mut copy: Vec<Rectangle> = Vec::new();
    let mut next: usize = 0;
    while next < damage.len()
        invariant
            next <= damage.len(),
            copy@ == damage@.take(next as int),
        decreases damage.len() - next,
    {
        copy.push(damage[next]);
        next = next + 1;
        assert(damage@.take(next as int) =~= damage@.take(next - 1).push(damage@[next - 1]));
    }
    assert(damage@.take(damage@.len() as int) =~= damage@);
    copy
}

/// Builds the frame for an output: see [`composes`].
pub fn compose_frame(output: &OutputSnapshot) -> (frame: Frame)
    ensures
        composes(frame, *output),
{
    let mut elements: Vec<RenderElement> = Vec::new();
    let mut undrawable: Vec<usize> = Vec::new();
    let mut next: usize = 0;
    assert(output.elements@.take(0).filter_map(drawing()) =~= Seq::<RenderElementView>::empty());
    while next < output.elements.len()
        invariant
            next <= output.elements.len(),
            element_views(elements@) == frame_elements(output.elements@.take(next as int)),
            undrawable@ == undrawable_below(output.elements@, next as int),
        decreases output.elements.len() - next,
    {
        let element = &output.elements[next];
        let ghost before = element_views(elements@);
        proof {
            output.elements@.lemma_filter_map_take_succ(drawing(), next as int);
        }
        if element.mapped {
            match element.surface {
                Some(surface) => {
                    let made = RenderElement::WaylandSurface {
                        surface,
                        geometry: element.geometry,
                        damage_surface_local: copy_damage(&element.damage),
                    };
                    assert(made@ == drawn(*element)->0);
                    elements.push(made);
                    assert(element_views(elements@) =~= before + seq![made@]);
                },
                None => {
                    undrawable.push(next);
                },
            }
        }
        next = next + 1;
    }
    assert(output.elements@.take(output.elements@.len() as int) =~= output.elements@);
    let fallback_geometry = output.geometry.is_none();
    Frame {
        elements,
        output_geometry: Rectangle::of_output(output.geometry, output.window),
        output_scale: output.scale,
        fallback_geometry,
        undrawable,
    }
}

} // verus!
