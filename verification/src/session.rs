//! The surface session: the ordered operations that present one rendered
//! frame on the drawable surface, including the mandatory click-through
//! input region.

use vstd::prelude::*;

verus! {

/// One rectangle of an input region.
pub struct Rect {
    pub x: i32,
    pub y: i32,
    pub width: u32,
    pub height: u32,
}

/// A model of a compositor input region: the rectangles in which the
/// surface would accept pointer and keyboard input.
pub struct InputRegion {
    pub rects: Vec<Rect>,
}

impl InputRegion {
    /// A region with no rectangles lets every input event pass through.
    pub open spec fn is_empty(self) -> bool {
        self.rects@.len() == 0
    }

    /// Build the empty region.
    pub fn empty() -> (r: InputRegion)
        ensures
            r.is_empty(),
    {
        InputRegion { rects: Vec::new() }
    }
}

/// One operation on the drawable surface.
pub enum SurfaceOp {
    /// Attach the freshly rendered buffer at the given offset.
    Attach { x: i32, y: i32 },
    /// Mark a rectangle of the surface as damaged, to be recomposited.
    Damage { x: i32, y: i32, width: u32, height: u32 },
    /// Replace the surface's input-acceptance region.
    SetInputRegion { region: InputRegion },
    /// Commit the surface, making the attached buffer visible.
    Commit,
}

/// What presenting a `width` by `height` frame must do: attach the buffer
/// at the origin, damage the whole surface, install an empty input region,
/// and commit — all four steps, in exactly that order.
pub open spec fn presents(ops: Seq<SurfaceOp>, width: u32, height: u32) -> bool {
    &&& ops.len() == 4
    &&& ops[0] == (SurfaceOp::Attach { x: 0, y: 0 })
    &&& ops[1] == (SurfaceOp::Damage { x: 0, y: 0, width, height })
    &&& (ops[2] matches SurfaceOp::SetInputRegion { region } && region.is_empty())
    &&& ops[3] == SurfaceOp::Commit
}

/// Build the presentation sequence for one frame of the given size.
pub fn present(width: u32, height: u32) -> (ops: Vec<SurfaceOp>)
    ensures
        presents(ops@, width, height),
{
    let mut ops: Vec<SurfaceOp> = Vec::new();
    ops.push(SurfaceOp::Attach { x: 0, y: 0 });
    ops.push(SurfaceOp::Damage { x: 0, y: 0, width, height });
    ops.push(SurfaceOp::SetInputRegion { region: InputRegion::empty() });
    ops.push(SurfaceOp::Commit);
    ops
}

/// Click-through law: in any presentation sequence, every input region
/// handed to the surface is empty, so the overlay never intercepts input.
pub proof fn lemma_click_through(ops: Seq<SurfaceOp>, width: u32, height: u32)
    requires
        presents(ops, width, height),
    ensures
        forall|i: int| 0 <= i < ops.len() ==>
            ((#[trigger] ops[i]) matches SurfaceOp::SetInputRegion { region }
                ==> region.is_empty()),
{
    assert forall|i: int| 0 <= i < ops.len() implies
        ((#[trigger] ops[i]) matches SurfaceOp::SetInputRegion { region }
            ==> region.is_empty()) by {
        if i == 0 || i == 1 || i == 3 {
            assert(!(ops[i] matches SurfaceOp::SetInputRegion { region }));
        }
    }
}

} // verus!
