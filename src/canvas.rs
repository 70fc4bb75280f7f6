use vstd::prelude::*;

use crate::device::{NdcMatrix, ndc_matrix, render_matrix};
use crate::path::{PathBuilder, lined, moved, polylines};
use crate::transform_stack::{StackModel, TransformStack};

verus! {

/// Which tessellation a draw call asks for.
#[derive(Clone, Copy, Debug, PartialEq, Eq, Structural)]
pub enum DrawKind {
    /// A ribbon of fixed width along each subpath, left open.
    Stroke,
    /// The region that the subpaths enclose, each closed implicitly.
    Fill,
}

/// What a canvas holds: both colours, the transform stack, and the path
/// recorded since the last draw.
pub struct CanvasModel<C, T, P> {
    pub stroke_col: C,
    pub fill_col: C,
    pub transforms: StackModel<T>,
    pub path: Seq<Seq<P>>,
}

/// One call on a canvas, for stating what a run of calls does.
pub enum CanvasOp<C, T, P> {
    StrokeColor(C),
    FillColor(C),
    MoveTo(P),
    LineTo(P),
    PushMatrix,
    PopMatrix,
    ResetTransform,
    SetTransform(T),
    Draw(DrawKind),
}

impl<C, T, P> CanvasModel<C, T, P> {
    pub open spec fn fresh(color: C, identity: T) -> Self {
        CanvasModel {
            stroke_col: color,
            fill_col: color,
            transforms: StackModel::fresh(identity),
            path: Seq::empty(),
        }
    }

    pub open spec fn with_transforms(self, s: StackModel<T>) -> Self {
        CanvasModel { stroke_col: self.stroke_col, fill_col: self.fill_col, transforms: s, path: self.path }
    }

    pub open spec fn with_path(self, path: Seq<Seq<P>>) -> Self {
        CanvasModel {
            stroke_col: self.stroke_col,
            fill_col: self.fill_col,
            transforms: self.transforms,
            path,
        }
    }

    /// The colour that a draw of `kind` is made in.
    pub open spec fn draw_color(self, kind: DrawKind) -> C {
        match kind {
            DrawKind::Stroke => self.stroke_col,
            DrawKind::Fill => self.fill_col,
        }
    }

    /// The state after one call. A draw consumes the recorded path.
    pub open spec fn step(self, op: CanvasOp<C, T, P>) -> Self {
        match op {
            CanvasOp::StrokeColor(c) => CanvasModel {
                stroke_col: c,
                fill_col: self.fill_col,
                transforms: self.transforms,
                path: self.path,
            },
            CanvasOp::FillColor(c) => CanvasModel {
                stroke_col: self.stroke_col,
                fill_col: c,
                transforms: self.transforms,
                path: self.path,
            },
            CanvasOp::MoveTo(p) => self.with_path(moved(self.path, p)),
            CanvasOp::LineTo(p) => self.with_path(lined(self.path, p)),
            CanvasOp::PushMatrix => self.with_transforms(self.transforms.push()),
            CanvasOp::PopMatrix => self.with_transforms(self.transforms.pop()),
            CanvasOp::ResetTransform => self.with_transforms(self.transforms.reset()),
            CanvasOp::SetTransform(t) => self.with_transforms(self.transforms.set(t)),
            CanvasOp::Draw(_) => self.with_path(Seq::empty()),
        }
    }

    /// The state after the calls `ops`, in order.
    pub open spec fn run(self, ops: Seq<CanvasOp<C, T, P>>) -> Self
        decreases ops.len(),
    {
        if ops.len() == 0 {
            self
        } else {
            self.run(ops.drop_last()).step(ops.last())
        }
    }
}

pub open spec fn sets_color_for<C, T, P>(op: CanvasOp<C, T, P>, kind: DrawKind) -> bool {
    match kind {
        DrawKind::Stroke => op is StrokeColor,
        DrawKind::Fill => op is FillColor,
    }
}

pub open spec fn adds_geometry<C, T, P>(op: CanvasOp<C, T, P>) -> bool {
    op is MoveTo || op is LineTo
}

/// A colour set for strokes (or fills) is the colour of every later stroke
/// (or fill) draw, unmodified, until the next call that sets it again.
pub proof fn lemma_color_reaches_draw<C, T, P>(
    m: CanvasModel<C, T, P>,
    kind: DrawKind,
    c: C,
    ops: Seq<CanvasOp<C, T, P>>,
)
    requires
        forall|i: int| 0 <= i < ops.len() ==> !sets_color_for(#[trigger] ops[i], kind),
    ensures
        m.step(
            match kind {
                DrawKind::Stroke => CanvasOp::StrokeColor(c),
                DrawKind::Fill => CanvasOp::FillColor(c),
            },
        ).run(ops).draw_color(kind) == c,
    decreases ops.len(),
{
    if ops.len() > 0 {
        let prefix = ops.drop_last();
        assert forall|i: int| 0 <= i < prefix.len() implies !sets_color_for(#[trigger] prefix[i], kind) by {
            assert(prefix[i] == ops[i]);
        }
        lemma_color_reaches_draw(m, kind, c, prefix);
        assert(!sets_color_for(ops[ops.len() - 1], kind));
    }
}

/// From a state with no recorded path, calls that add no point leave the
/// path empty, so a draw made then has no geometry. This covers a fresh
/// canvas and a second draw right after a first one.
pub proof fn lemma_no_geometry_without_points<C, T, P>(
    m: CanvasModel<C, T, P>,
    ops: Seq<CanvasOp<C, T, P>>,
)
    requires
        m.path.len() == 0,
        forall|i: int| 0 <= i < ops.len() ==> !adds_geometry(#[trigger] ops[i]),
    ensures
        m.run(ops).path.len() == 0,
    decreases ops.len(),
{
    if ops.len() > 0 {
        let prefix = ops.drop_last();
        assert forall|i: int| 0 <= i < prefix.len() implies !adds_geometry(#[trigger] prefix[i]) by {
            assert(prefix[i] == ops[i]);
        }
        lemma_no_geometry_without_points(m, prefix);
        assert(!adds_geometry(ops[ops.len() - 1]));
    }
}

/// A fresh canvas has no path to draw.
pub proof fn lemma_fresh_canvas_draws_nothing<C, T, P>(color: C, identity: T)
    ensures
        CanvasModel::<C, T, P>::fresh(color, identity).path.len() == 0,
{
}

/// A draw consumes the whole path: a second draw right after it has none,
/// whichever kinds the two are.
pub proof fn lemma_draw_drains_path<C, T, P>(m: CanvasModel<C, T, P>, first: DrawKind)
    ensures
        m.step(CanvasOp::Draw(first)).path.len() == 0,
        m.step(CanvasOp::Draw(first)).stroke_col == m.stroke_col,
        m.step(CanvasOp::Draw(first)).fill_col == m.fill_col,
        m.step(CanvasOp::Draw(first)).transforms == m.transforms,
{
}

/// Everything one stroke or fill sends to the GPU: the tessellation to run,
/// the colour, the subpaths, and the device-to-NDC matrix.
pub struct DrawCall<C, P> {
    pub kind: DrawKind,
    pub color: C,
    pub subpaths: Vec<Vec<P>>,
    pub matrix: NdcMatrix,
}

/// Drawing state of a canvas, generic over its colour, transform and point
/// types.
#[verifier::reject_recursive_types(T)]
#[verifier::reject_recursive_types(P)]
pub struct Canvas<C, T, P> {
    stroke_col: C,
    fill_col: C,
    transforms: TransformStack<T>,
    path: PathBuilder<P>,
}

impl<C, T, P> View for Canvas<C, T, P> {
    type V = CanvasModel<C, T, P>;

    closed spec fn view(&self) -> CanvasModel<C, T, P> {
        CanvasModel {
            stroke_col: self.stroke_col,
            fill_col: self.fill_col,
            transforms: self.transforms@,
            path: self.path@,
        }
    }
}

impl<C: Copy, T: Copy, P> Canvas<C, T, P> {
    /// A canvas that strokes and fills in `color`, with the transform
    /// `identity`, nothing saved, and no path.
    pub fn new(color: C, identity: T) -> (r: Self)
        ensures
            r@ == CanvasModel::<C, T, P>::fresh(color, identity),
    {
        Canvas {
            stroke_col: color,
            fill_col: color,
            transforms: TransformStack::new(identity),
            path: PathBuilder::new(),
        }
    }

    pub fn push_matrix(&mut self)
        ensures
            final(self)@ == old(self)@.step(CanvasOp::PushMatrix),
    {
        self.transforms.push_matrix();
    }

    pub fn pop_matrix(&mut self)
        ensures
            final(self)@ == old(self)@.step(CanvasOp::PopMatrix),
    {
        self.transforms.pop_matrix();
    }

    pub fn reset_transform(&mut self)
        ensures
            final(self)@ == old(self)@.step(CanvasOp::ResetTransform),
    {
        self.transforms.reset_transform();
    }

    /// Replaces the current transform; composing a rotation, scaling or
    /// translation onto it is the caller's arithmetic.
    pub fn set_transform(&mut self, t: T)
        ensures
            final(self)@ == old(self)@.step(CanvasOp::SetTransform(t)),
    {
        self.transforms.set_transform(t);
    }

    /// The current transform.
    pub fn transform(&self) -> (r: T)
        ensures
            r == self@.transforms.current,
    {
        self.transforms.transform()
    }

    /// How many transforms are saved.
    pub fn matrix_depth(&self) -> (r: usize)
        ensures
            r == self@.transforms.saved.len(),
    {
        self.transforms.depth()
    }

    pub fn stroke_color(&mut self, color: C)
        ensures
            final(self)@ == old(self)@.step(CanvasOp::StrokeColor(color)),
    {
        self.stroke_col = color;
    }

    pub fn fill_color(&mut self, color: C)
        ensures
            final(self)@ == old(self)@.step(CanvasOp::FillColor(color)),
    {
        self.fill_col = color;
    }

    /// The colour strokes are drawn in.
    pub fn current_stroke_color(&self) -> (r: C)
        ensures
            r == self@.stroke_col,
    {
        self.stroke_col
    }

    /// The colour fills are drawn in.
    pub fn current_fill_color(&self) -> (r: C)
        ensures
            r == self@.fill_col,
    {
        self.fill_col
    }

    pub fn move_to(&mut self, p: P)
        ensures
            final(self)@ == old(self)@.step(CanvasOp::MoveTo(p)),
    {
        self.path.move_to(p);
    }

    pub fn line_to(&mut self, p: P)
        ensures
            final(self)@ == old(self)@.step(CanvasOp::LineTo(p)),
    {
        self.path.line_to(p);
    }

    /// The recorded subpaths, as they stand.
    pub fn subpath_count(&self) -> (r: usize)
        ensures
            r == self@.path.len(),
    {
        self.path.len()
    }

    /// Takes the recorded path for a draw of `kind` on a framebuffer of
    /// `width` by `height` pixels, in that kind's colour. The path is left
    /// empty whatever it held, so an empty path gives a call with no
    /// geometry.
    pub fn draw(&mut self, kind: DrawKind, width: u32, height: u32) -> (r: DrawCall<C, P>)
        ensures
            final(self)@ == old(self)@.step(CanvasOp::Draw(kind)),
            r.kind == kind,
            r.color == old(self)@.draw_color(kind),
            polylines(r.subpaths@) == old(self)@.path,
            r.matrix == ndc_matrix(width, height),
    {
        let color = match kind {
            DrawKind::Stroke => self.stroke_col,
            DrawKind::Fill => self.fill_col,
        };
        let subpaths = self.path.build_and_reset();
        DrawCall { kind, color, subpaths, matrix: render_matrix(width, height) }
    }

    /// A stroke of the recorded path in the stroke colour.
    pub fn stroke(&mut self, width: u32, height: u32) -> (r: DrawCall<C, P>)
        ensures
            final(self)@ == old(self)@.step(CanvasOp::Draw(DrawKind::Stroke)),
            r.kind == DrawKind::Stroke,
            r.color == old(self)@.stroke_col,
            polylines(r.subpaths@) == old(self)@.path,
            r.matrix == ndc_matrix(width, height),
    {
        self.draw(DrawKind::Stroke, width, height)
    }

    /// A fill of the recorded path in the fill colour.
    pub fn fill(&mut self, width: u32, height: u32) -> (r: DrawCall<C, P>)
        ensures
            final(self)@ == old(self)@.step(CanvasOp::Draw(DrawKind::Fill)),
            r.kind == DrawKind::Fill,
            r.color == old(self)@.fill_col,
            polylines(r.subpaths@) == old(self)@.path,
            r.matrix == ndc_matrix(width, height),
    {
        self.draw(DrawKind::Fill, width, height)
    }
}

} // verus!
