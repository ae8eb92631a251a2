//! The tessellator: from a path to fill triangles and curve-coverage triangles.
use vstd::prelude::*;
use crate::bufs::{BufsBuilder, BufsModel, VecPathVertBufs, Vert, MAX_VERTS};
use crate::laws::{lemma_curve_indices, lemma_indices_valid};
use crate::path::{end_point, Path, PathCommands, Point};
use lyon::math::{point, Point as LyonPoint};
use lyon::path::Path as LyonPath;
use lyon::tessellation::{BuffersBuilder, FillOptions, FillTessellator as LyonFill, FillVertex, VertexBuffers};

verus! {

/// Where the pen stands before the first command.
pub open spec fn origin() -> Point {
    [0i32, 0i32]
}

/// The tessellator's state: what the sink holds, the contour start and the pen.
pub struct TessState {
    pub bufs: BufsModel,
    pub start: Vert,
    pub pen: Vert,
}

impl TessState {
    /// A fresh state over a sink that already holds `bufs`.
    pub open spec fn init(bufs: BufsModel) -> TessState {
        TessState { bufs, start: Vert::Pos(origin()), pen: Vert::Pos(origin()) }
    }

    /// A pen given as an index names a stored vertex.
    pub open spec fn valid(self) -> bool {
        &&& (self.pen is Idx ==> (self.pen->Idx_0 as int) < self.bufs.verts.len())
        &&& (self.start is Idx ==> (self.start->Idx_0 as int) < self.bufs.verts.len())
    }
}

/// Stores `v` if it is a position; gives its index either way.
pub open spec fn place(m: BufsModel, v: Vert) -> (BufsModel, u16) {
    match v {
        Vert::Pos(p) => (m.push_vert(p), m.verts.len() as u16),
        Vert::Idx(i) => (m, i),
    }
}

/// 1 when the corner `v` is a position to store, 0 when it is an index.
pub open spec fn new_corner(v: Vert) -> nat {
    if v is Pos {
        1
    } else {
        0
    }
}

/// How many of the three corners are positions to store.
pub open spec fn new_corners(verts: [Vert; 3]) -> nat {
    new_corner(verts[0]) + new_corner(verts[1]) + new_corner(verts[2])
}

/// Every corner given as an index names one of the first `n` vertices.
pub open spec fn corners_stored(verts: [Vert; 3], n: nat) -> bool {
    forall|k: int| 0 <= k < 3 ==> (verts[k] is Idx ==> (verts[k]->Idx_0 as int) < n)
}

/// Stores the position corners, in order, each at the next fresh index; index
/// corners keep their index. Gives the sink's contents and the three indices.
pub open spec fn make_tri_spec(m: BufsModel, verts: [Vert; 3]) -> (BufsModel, Seq<u16>) {
    let (m1, i0) = place(m, verts[0]);
    let (m2, i1) = place(m1, verts[1]);
    let (m3, i2) = place(m2, verts[2]);
    (m3, seq![i0, i1, i2])
}

/// How many vertices a curve appends when the pen is `pen`.
pub open spec fn room_needed(pen: Vert) -> nat {
    if pen is Pos {
        3
    } else {
        2
    }
}

/// A quadratic curve from the pen through `ctrl` to `to`: one wedge triangle
/// (pen, ctrl, to); the pen then stands on the stored end point.
pub open spec fn curve_step(s: TessState, ctrl: Point, to: Point) -> TessState {
    let (m1, i0) = place(s.bufs, s.pen);
    let (m2, i1) = place(m1, Vert::Pos(ctrl));
    let (m3, i2) = place(m2, Vert::Pos(to));
    TessState {
        bufs: BufsModel { curve_idxs: m3.curve_idxs + seq![i0, i1, i2], ..m3 },
        start: s.start,
        pen: Vert::Idx(i2),
    }
}

/// One command. Moves and lines only move the pen: straight edges are covered
/// by the fill triangulation alone.
pub open spec fn step(s: TessState, cmd: PathCommands) -> TessState {
    match cmd {
        PathCommands::MoveTo(p) => TessState { start: Vert::Pos(p), pen: Vert::Pos(p), ..s },
        PathCommands::LineTo(p) => TessState { pen: Vert::Pos(p), ..s },
        PathCommands::QuadraticCurveTo(ctrl, to) => curve_step(s, ctrl, to),
    }
}

/// The commands `cmds`, one after another, from `s`.
pub open spec fn run(s: TessState, cmds: Seq<PathCommands>) -> TessState
    decreases cmds.len(),
{
    if cmds.len() == 0 {
        s
    } else {
        step(run(s, cmds.drop_last()), cmds.last())
    }
}

pub proof fn lemma_run_grows(s: TessState, cmds: Seq<PathCommands>, i: int)
    requires
        0 <= i <= cmds.len(),
    ensures
        run(s, cmds.take(i)).bufs.verts.len() <= run(s, cmds).bufs.verts.len(),
    decreases cmds.len(),
{
    if i < cmds.len() {
        assert(cmds.drop_last().take(i) == cmds.take(i));
        lemma_run_grows(s, cmds.drop_last(), i);
    } else {
        assert(cmds.take(i) == cmds);
    }
}

/// A tessellator that walks a path's commands and hands wedge triangles for
/// its quadratic curves to a sink.
pub struct FillTessellator<B: BufsBuilder> {
    bufs: B,
    start: Vert,
    pen: Vert,
}

impl<B: BufsBuilder> View for FillTessellator<B> {
    type V = TessState;

    closed spec fn view(&self) -> TessState {
        TessState { bufs: self.bufs.model(), start: self.start, pen: self.pen }
    }
}

impl<B: BufsBuilder> FillTessellator<B> {
    pub closed spec fn wf(&self) -> bool {
        self.bufs.wf() && self@.valid()
    }

    pub fn start(bufs: B) -> (r: Self)
        requires
            bufs.wf(),
        ensures
            r.wf(),
            r@ == TessState::init(bufs.model()),
    {
        let r = FillTessellator { bufs, start: Vert::Pos([0, 0]), pen: Vert::Pos([0, 0]) };
        assert(r@.pen == Vert::Pos(origin()));
        r
    }

    pub fn move_to(self, to: Point) -> (r: Self)
        requires
            self.wf(),
        ensures
            r.wf(),
            r@ == step(self@, PathCommands::MoveTo(to)),
    {
        FillTessellator { bufs: self.bufs, start: Vert::Pos(to), pen: Vert::Pos(to) }
    }

    pub fn line_to(self, to: Point) -> (r: Self)
        requires
            self.wf(),
        ensures
            r.wf(),
            r@ == step(self@, PathCommands::LineTo(to)),
    {
        let mut t = self;
        t.line_to_impl(Vert::Pos(to));
        t
    }

    pub fn quadratic_curve_to(self, ctrl: Point, to: Point) -> (r: Self)
        requires
            self.wf(),
            self@.bufs.verts.len() + room_needed(self@.pen) <= MAX_VERTS,
            self@.bufs.curve_idxs.len() + 3 <= usize::MAX,
        ensures
            r.wf(),
            r@ == step(self@, PathCommands::QuadraticCurveTo(ctrl, to)),
    {
        let mut t = self;
        let pen = t.pen;
        let corners = [pen, Vert::Pos(ctrl), Vert::Pos(to)];
        assert(corners@ == seq![pen, Vert::Pos(ctrl), Vert::Pos(to)]);
        let tri = t.push_quadratic_tri(corners);
        t.line_to_impl(tri[2]);
        t
    }

    /// The sink, with everything handed to it.
    pub fn into_bufs(self) -> (r: B)
        requires
            self.wf(),
        ensures
            r.wf(),
            r.model() == self@.bufs,
    {
        self.bufs
    }

    fn line_to_impl(&mut self, to: Vert)
        requires
            old(self).wf(),
            to is Idx ==> (to->Idx_0 as int) < old(self)@.bufs.verts.len(),
        ensures
            final(self).wf(),
            final(self)@ == (TessState { pen: to, ..old(self)@ }),
    {
        self.pen = to;
    }

    fn push_quadratic_tri(&mut self, verts: [Vert; 3]) -> (r: [Vert; 3])
        requires
            old(self).wf(),
            corners_stored(verts, old(self)@.bufs.verts.len()),
            old(self)@.bufs.verts.len() + new_corners(verts) <= MAX_VERTS,
            old(self)@.bufs.curve_idxs.len() + 3 <= usize::MAX,
        ensures
            final(self).wf(),
            final(self)@.start == old(self)@.start,
            final(self)@.pen == old(self)@.pen,
            ({
                let (m, idxs) = make_tri_spec(old(self)@.bufs, verts);
                &&& final(self)@.bufs == (BufsModel { curve_idxs: m.curve_idxs + idxs, ..m })
                &&& r@ == seq![Vert::Idx(idxs[0]), Vert::Idx(idxs[1]), Vert::Idx(idxs[2])]
            }),
            forall|k: int| 0 <= k < 3 ==> r[k] is Idx && (r[k]->Idx_0 as int) < final(self)@.bufs.verts.len(),
    {
        let idxs = self.make_tri(verts);
        self.bufs.push_quadratic_tri(idxs);
        let r = [Vert::Idx(idxs[0]), Vert::Idx(idxs[1]), Vert::Idx(idxs[2])];
        assert(r@ =~= seq![Vert::Idx(idxs[0]), Vert::Idx(idxs[1]), Vert::Idx(idxs[2])]);
        r
    }

    fn place(&mut self, v: Vert) -> (r: u16)
        requires
            old(self).wf(),
            v is Pos ==> old(self)@.bufs.verts.len() < MAX_VERTS,
            v is Idx ==> (v->Idx_0 as int) < old(self)@.bufs.verts.len(),
        ensures
            final(self).wf(),
            final(self)@.start == old(self)@.start,
            final(self)@.pen == old(self)@.pen,
            (final(self)@.bufs, r) == place(old(self)@.bufs, v),
            (r as int) < final(self)@.bufs.verts.len(),
    {
        match v {
            Vert::Pos(pos) => {
                let idx = self.bufs.verts_len();
                self.bufs.push_vert(pos);
                idx
            },
            Vert::Idx(idx) => idx,
        }
    }

    fn make_tri(&mut self, verts: [Vert; 3]) -> (r: [u16; 3])
        requires
            old(self).wf(),
            corners_stored(verts, old(self)@.bufs.verts.len()),
            old(self)@.bufs.verts.len() + new_corners(verts) <= MAX_VERTS,
        ensures
            final(self).wf(),
            final(self)@.start == old(self)@.start,
            final(self)@.pen == old(self)@.pen,
            (final(self)@.bufs, r@) == make_tri_spec(old(self)@.bufs, verts),
            final(self)@.bufs.verts.len() == old(self)@.bufs.verts.len() + new_corners(verts),
            forall|k: int| 0 <= k < 3 ==> (r[k] as int) < final(self)@.bufs.verts.len(),
    {
        let a = self.place(verts[0]);
        let b = self.place(verts[1]);
        let c = self.place(verts[2]);
        let r = [a, b, c];
        assert(r@ =~= seq![a, b, c]);
        r
    }
}

/// Why a path could not be tessellated.
#[derive(Clone, Copy, Debug, PartialEq, Eq)]
pub enum TessellateError {
    /// The vertices would not all have a `u16` index.
    TooManyVertices,
    /// The planar fill triangulation failed.
    Triangulation,
}

/// Runs `path`'s commands through a tessellator over `bufs`. Fails, with the
/// sink dropped, exactly when the vertices would outgrow `MAX_VERTS`.
pub fn tessellate_curves<B: BufsBuilder>(path: &Path, bufs: B) -> (r: Result<B, TessellateError>)
    requires
        bufs.wf(),
        bufs.model().verts.len() <= MAX_VERTS,
        bufs.model().curve_idxs.len() + 3 * MAX_VERTS <= usize::MAX,
    ensures
        r is Ok <==> run(TessState::init(bufs.model()), path@).bufs.verts.len() <= MAX_VERTS,
        r matches Ok(b) ==> b.wf() && b.model() == run(TessState::init(bufs.model()), path@).bufs,
        r matches Err(e) ==> e == TessellateError::TooManyVertices,
{
    let cmds = path.commands();
    let ghost init = TessState::init(bufs.model());
    let mut tess = FillTessellator::start(bufs);
    let mut i: usize = 0;
    while i < cmds.len()
        invariant
            i <= cmds@.len(),
            cmds@ == path@,
            init == TessState::init(bufs.model()),
            tess.wf(),
            tess@ == run(init, cmds@.take(i as int)),
            tess@.bufs.verts.len() <= MAX_VERTS,
            init.bufs.verts.len() <= tess@.bufs.verts.len(),
            init.bufs.curve_idxs.len() <= tess@.bufs.curve_idxs.len(),
            2 * (tess@.bufs.curve_idxs.len() - init.bufs.curve_idxs.len()) <= 3 * (tess@.bufs.verts.len()
                - init.bufs.verts.len()),
            init.bufs.curve_idxs.len() + 3 * MAX_VERTS <= usize::MAX,
        decreases cmds.len() - i,
    {
        assert(cmds@.take(i + 1).drop_last() == cmds@.take(i as int));
        assert(run(init, cmds@.take(i + 1)) == step(tess@, cmds@[i as int]));
        match cmds[i] {
            PathCommands::MoveTo(to) => {
                tess = tess.move_to(to);
            },
            PathCommands::LineTo(to) => {
                tess = tess.line_to(to);
            },
            PathCommands::QuadraticCurveTo(ctrl, to) => {
                let needed: usize = match tess.pen {
                    Vert::Pos(_) => 3,
                    Vert::Idx(_) => 2,
                };
                assert(step(tess@, cmds@[i as int]).bufs.verts.len() == tess@.bufs.verts.len() + needed);
                if tess.bufs.verts_len() as usize + needed > MAX_VERTS {
                    proof {
                        lemma_run_grows(init, cmds@, i + 1);
                        assert(run(init, cmds@.take(i + 1)).bufs.verts.len() > MAX_VERTS);
                        assert(run(init, path@).bufs.verts.len() > MAX_VERTS);
                    }
                    return Err(TessellateError::TooManyVertices);
                }
                tess = tess.quadratic_curve_to(ctrl, to);
            },
        }
        i += 1;
    }
    assert(cmds@.take(i as int) == cmds@);
    Ok(tess.into_bufs())
}

/// The number of quadratic curve commands in `cmds`.
pub open spec fn curve_count(cmds: Seq<PathCommands>) -> nat
    decreases cmds.len(),
{
    if cmds.len() == 0 {
        0
    } else {
        curve_count(cmds.drop_last()) + if cmds.last() is QuadraticCurveTo {
            1nat
        } else {
            0
        }
    }
}

/// The fill indices name vertices of the fill triangulation.
pub open spec fn fill_indices_valid(fill_verts: Seq<Point>, fill_idxs: Seq<u16>) -> bool {
    forall|k: int| 0 <= k < fill_idxs.len() ==> fill_idxs[k] < fill_verts.len()
}

/// What a sink holds after the fill triangulation's vertices and indices are
/// appended to it, then the commands `cmds` are run.
pub open spec fn tessellation(cmds: Seq<PathCommands>, fill_verts: Seq<Point>, fill_idxs: Seq<u16>) -> BufsModel {
    run(TessState::init(BufsModel { verts: fill_verts, fill_idxs, curve_idxs: Seq::empty() }), cmds).bufs
}

/// `r` is the tessellation of `cmds` over the given fill triangulation, or
/// `TooManyVertices` exactly when that would hold more than `MAX_VERTS` vertices.
pub open spec fn tessellated(
    r: Result<VecPathVertBufs, TessellateError>,
    cmds: Seq<PathCommands>,
    fill_verts: Seq<Point>,
    fill_idxs: Seq<u16>,
) -> bool {
    let t = tessellation(cmds, fill_verts, fill_idxs);
    match r {
        Ok(b) => b.wf() && b.model() == t && t.verts.len() <= MAX_VERTS,
        Err(e) => e == TessellateError::TooManyVertices && t.verts.len() > MAX_VERTS,
    }
}

/// Appends the fill triangulation (`fill_verts`, and `fill_idxs` as triples)
/// to a fresh sink, then runs the path's commands over it.
pub fn tessellate_with_fill(path: &Path, fill_verts: &Vec<Point>, fill_idxs: &Vec<u16>) -> (r: Result<
    VecPathVertBufs,
    TessellateError,
>)
    requires
        fill_idxs@.len() % 3 == 0,
    ensures
        tessellated(r, path@, fill_verts@, fill_idxs@),
        r matches Ok(b) ==> b.fill_idxs@ == fill_idxs@ && b.quadratic_idxs@.len() == 3 * curve_count(path@) && (
        fill_indices_valid(fill_verts@, fill_idxs@) ==> b.model().indices_valid()),
{
    let ghost seeded = BufsModel { verts: fill_verts@, fill_idxs: fill_idxs@, curve_idxs: Seq::empty() };
    if fill_verts.len() > MAX_VERTS {
        proof {
            lemma_run_grows(TessState::init(seeded), path@, 0);
            assert(path@.take(0) == Seq::<PathCommands>::empty());
        }
        return Err(TessellateError::TooManyVertices);
    }
    let mut bufs = VecPathVertBufs::new();
    assert(fill_verts@.take(0) =~= Seq::<Point>::empty());
    assert(fill_idxs@.take(0) =~= Seq::<u16>::empty());
    let mut k: usize = 0;
    while k < fill_verts.len()
        invariant
            k <= fill_verts@.len() <= MAX_VERTS,
            bufs.wf(),
            bufs.model() == (BufsModel { verts: fill_verts@.take(k as int), ..BufsModel::empty() }),
        decreases fill_verts.len() - k,
    {
        bufs.push_vert(fill_verts[k]);
        assert(fill_verts@.take(k + 1) == fill_verts@.take(k as int).push(fill_verts@[k as int]));
        k += 1;
    }
    assert(fill_verts@.take(k as int) == fill_verts@);
    let mut k: usize = 0;
    while k < fill_idxs.len()
        invariant
            k <= fill_idxs@.len(),
            k % 3 == 0,
            fill_idxs@.len() % 3 == 0,
            bufs.wf(),
            bufs.model() == (BufsModel { fill_idxs: fill_idxs@.take(k as int), ..seeded }),
        decreases fill_idxs.len() - k,
    {
        let tri = [fill_idxs[k], fill_idxs[k + 1], fill_idxs[k + 2]];
        bufs.push_fill_tri(tri);
        assert(fill_idxs@.take(k + 3) == fill_idxs@.take(k as int) + tri@);
        k += 3;
    }
    assert(fill_idxs@.take(k as int) == fill_idxs@);
    assert(bufs.model() == seeded);
    let r = tessellate_curves(path, bufs);
    proof {
        lemma_curve_indices(TessState::init(seeded), path@);
        if r is Ok && fill_indices_valid(fill_verts@, fill_idxs@) {
            lemma_indices_valid(path@, fill_verts@, fill_idxs@);
        }
    }
    r
}

/// The closed polyline the fill triangulation covers: one contour per move,
/// through the end point of each line and curve; control points are left out.
/// Edges before the first move start from the origin.
pub open spec fn polyline(cmds: Seq<PathCommands>) -> Seq<Seq<Point>>
    decreases cmds.len(),
{
    if cmds.len() == 0 {
        Seq::empty()
    } else {
        let prev = polyline(cmds.drop_last());
        let p = end_point(cmds.last());
        if cmds.last() is MoveTo {
            prev.push(seq![p])
        } else if prev.len() == 0 {
            seq![seq![origin(), p]]
        } else {
            prev.update(prev.len() - 1, prev.last().push(p))
        }
    }
}

/// The points each vector of `vs` holds.
pub open spec fn views(vs: Seq<Vec<Point>>) -> Seq<Seq<Point>> {
    vs.map_values(|c: Vec<Point>| c@)
}

/// The contours of `path`'s closed polyline.
pub fn fill_polyline(path: &Path) -> (r: Vec<Vec<Point>>)
    ensures
        views(r@) == polyline(path@),
        forall|k: int| 0 <= k < r@.len() ==> r@[k]@.len() > 0,
{
    let cmds = path.commands();
    let mut done: Vec<Vec<Point>> = Vec::new();
    let mut current: Vec<Point> = Vec::new();
    let mut i: usize = 0;
    while i < cmds.len()
        invariant
            i <= cmds@.len(),
            cmds@ == path@,
            polyline(cmds@.take(i as int)) == if current@.len() == 0 {
                views(done@)
            } else {
                views(done@).push(current@)
            },
            forall|k: int| 0 <= k < done@.len() ==> done@[k]@.len() > 0,
            done@.len() > 0 ==> current@.len() > 0,
        decreases cmds.len() - i,
    {
        assert(cmds@.take(i + 1).drop_last() == cmds@.take(i as int));
        assert(cmds@.take(i + 1).last() == cmds@[i as int]);
        let ghost prev = polyline(cmds@.take(i as int));
        let ghost p_end = end_point(cmds@[i as int]);
        assert(polyline(cmds@.take(i + 1)) == if cmds@[i as int] is MoveTo {
            prev.push(seq![p_end])
        } else if prev.len() == 0 {
            seq![seq![origin(), p_end]]
        } else {
            prev.update(prev.len() - 1, prev.last().push(p_end))
        });
        match cmds[i] {
            PathCommands::MoveTo(p) => {
                if current.len() > 0 {
                    done.push(current);
                    assert(views(done@) == prev);
                }
                current = vec![p];
                assert(current@ == seq![p]);
                assert(polyline(cmds@.take(i + 1)) =~= views(done@).push(current@));
            },
            PathCommands::LineTo(p) | PathCommands::QuadraticCurveTo(_, p) => {
                if current.len() == 0 {
                    current = vec![[0, 0], p];
                    assert(current@ == seq![origin(), p]);
                    assert(polyline(cmds@.take(i + 1)) =~= views(done@).push(current@));
                } else {
                    current.push(p);
                    assert(polyline(cmds@.take(i + 1)) =~= views(done@).push(current@));
                }
            },
        }
        i += 1;
    }
    assert(cmds@.take(i as int) == cmds@);
    if current.len() > 0 {
        done.push(current);
    }
    assert(views(done@) =~= polyline(path@));
    done
}

/// What the planar fill triangulation gives for a set of closed contours:
/// `None` when it fails, else the vertices and the triangle index list.
pub uninterp spec fn fill_triangulation(contours: Seq<Seq<Point>>) -> Option<(Seq<Point>, Seq<u16>)>;

/// Relies on lyon's `FillTessellator::tessellate_path` writing into a
/// `BuffersBuilder` with `u16` indices: it fails as a whole or gives
/// vertices and indices, the indices pushed three at a time by
/// `add_triangle`, each the id `add_fill_vertex` gave a vertex it pushed. Each contour is closed; positions come back truncated to
/// integers.
#[verifier::external_body]
fn triangulate(contours: &Vec<Vec<Point>>) -> (r: Option<(Vec<Point>, Vec<u16>)>)
    requires
        forall|k: int| 0 <= k < contours@.len() ==> contours@[k]@.len() > 0,
    ensures
        match r {
            Some(g) => fill_triangulation(views(contours@)) == Some((g.0@, g.1@)) && g.1@.len() % 3 == 0
                && fill_indices_valid(g.0@, g.1@),
            None => fill_triangulation(views(contours@)) is None,
        },
{
    let mut builder = LyonPath::builder();
    for c in contours {
        builder.begin(point(c[0][0] as _, c[0][1] as _));
        for p in c.iter().skip(1) {
            builder.line_to(point(p[0] as _, p[1] as _));
        }
        builder.close();
    }
    let mut out: VertexBuffers<LyonPoint, u16> = VertexBuffers::new();
    let mut sink = BuffersBuilder::new(&mut out, |v: FillVertex| v.position());
    LyonFill::new().tessellate_path(&builder.build(), &FillOptions::default(), &mut sink).ok()?;
    Some((out.vertices.iter().map(|p| [p.x as i32, p.y as i32]).collect(), out.indices))
}

/// What the fill triangulation gives for the path `cmds`: nothing to
/// triangulate when it has no contour.
pub open spec fn fill_of(cmds: Seq<PathCommands>) -> Option<(Seq<Point>, Seq<u16>)> {
    if polyline(cmds).len() == 0 {
        Some((Seq::empty(), Seq::empty()))
    } else {
        fill_triangulation(polyline(cmds))
    }
}

/// Tessellates `path`: the fill triangulation of its closed polyline, then one
/// wedge triangle for each quadratic curve, all over one vertex list.
pub fn fill_tessellate(path: &Path) -> (r: Result<VecPathVertBufs, TessellateError>)
    ensures
        match fill_of(path@) {
            Some(g) => tessellated(r, path@, g.0, g.1),
            None => r == Err::<VecPathVertBufs, TessellateError>(TessellateError::Triangulation),
        },
        r matches Ok(b) ==> b.fill_idxs@.len() % 3 == 0 && b.quadratic_idxs@.len() == 3 * curve_count(path@)
            && b.model().indices_valid(),
{
    let contours = fill_polyline(path);
    if contours.len() == 0 {
        return tessellate_with_fill(path, &Vec::new(), &Vec::new());
    }
    match triangulate(&contours) {
        Some(g) => tessellate_with_fill(path, &g.0, &g.1),
        None => Err(TessellateError::Triangulation),
    }
}

} // verus!
