//! What holds of every tessellation, proved over the specifications of `tess`.
use vstd::prelude::*;
use crate::bufs::{high_corner, low_corner, BufsBuilder, BufsModel, VecPathVertBufs, Vert, MAX_VERTS};
use crate::path::{end_point, PathCommands, Point};
use crate::tess::{curve_count, fill_of, make_tri_spec, lemma_run_grows, origin, run, step, tessellation, TessState};

verus! {

/// A path with no commands has nothing to triangulate, and tessellates to an
/// empty vertex list and empty fill and curve index lists.
pub proof fn lemma_empty_path(cmds: Seq<PathCommands>)
    requires
        cmds.len() == 0,
    ensures
        fill_of(cmds) == Some((Seq::<Point>::empty(), Seq::<u16>::empty())),
        tessellation(cmds, Seq::empty(), Seq::empty()) == BufsModel::empty(),
{
}

/// Moves and lines leave the sink as it was.
pub proof fn lemma_run_without_curves(s: TessState, cmds: Seq<PathCommands>)
    requires
        forall|k: int| 0 <= k < cmds.len() ==> !(cmds[k] is QuadraticCurveTo),
    ensures
        run(s, cmds).bufs == s.bufs,
    decreases cmds.len(),
{
    if cmds.len() > 0 {
        lemma_run_without_curves(s, cmds.drop_last());
    }
}

/// A path of moves and lines only gets no curve triangle: the sink holds the
/// fill triangulation and nothing more.
pub proof fn lemma_no_curves(cmds: Seq<PathCommands>, fill_verts: Seq<Point>, fill_idxs: Seq<u16>)
    requires
        forall|k: int| 0 <= k < cmds.len() ==> !(cmds[k] is QuadraticCurveTo),
    ensures
        tessellation(cmds, fill_verts, fill_idxs).curve_idxs.len() == 0,
        tessellation(cmds, fill_verts, fill_idxs).verts == fill_verts,
        tessellation(cmds, fill_verts, fill_idxs).fill_idxs == fill_idxs,
{
    let init = TessState::init(BufsModel { verts: fill_verts, fill_idxs, curve_idxs: Seq::empty() });
    lemma_run_without_curves(init, cmds);
}

/// A move to `a` then one quadratic curve through `ctrl` to `b` gives one
/// curve triangle over three new vertices: `a`, `ctrl` and `b`, in that order.
pub proof fn lemma_one_curve(a: Point, ctrl: Point, b: Point, fill_verts: Seq<Point>, fill_idxs: Seq<u16>)
    requires
        fill_verts.len() + 3 <= MAX_VERTS,
    ensures
        ({
            let t = tessellation(
                seq![PathCommands::MoveTo(a), PathCommands::QuadraticCurveTo(ctrl, b)],
                fill_verts,
                fill_idxs,
            );
            let n = fill_verts.len();
            &&& t.curve_idxs == seq![n as u16, (n + 1) as u16, (n + 2) as u16]
            &&& t.verts == fill_verts + seq![a, ctrl, b]
            &&& t.verts[t.curve_idxs[0] as int] == a
            &&& t.verts[t.curve_idxs[1] as int] == ctrl
            &&& t.verts[t.curve_idxs[2] as int] == b
            &&& t.fill_idxs == fill_idxs
        }),
{
    let cmds = seq![PathCommands::MoveTo(a), PathCommands::QuadraticCurveTo(ctrl, b)];
    assert(cmds.drop_last() == seq![PathCommands::MoveTo(a)]);
    assert(cmds.drop_last().drop_last() == Seq::<PathCommands>::empty());
    let init = TessState::init(BufsModel { verts: fill_verts, fill_idxs, curve_idxs: Seq::empty() });
    assert(run(init, cmds.drop_last().drop_last()) == init);
    let s1 = step(init, PathCommands::MoveTo(a));
    assert(run(init, cmds.drop_last()) == s1);
    assert(run(init, cmds) == step(s1, PathCommands::QuadraticCurveTo(ctrl, b)));
    let t = tessellation(cmds, fill_verts, fill_idxs);
    assert(t.verts =~= fill_verts + seq![a, ctrl, b]);
    assert(t.curve_idxs =~= seq![fill_verts.len() as u16, (fill_verts.len() + 1) as u16, (fill_verts.len() + 2) as u16]);
}

/// Each quadratic curve command adds three curve indices, and no command
/// touches the fill indices.
pub proof fn lemma_curve_indices(s: TessState, cmds: Seq<PathCommands>)
    ensures
        run(s, cmds).bufs.curve_idxs.len() == s.bufs.curve_idxs.len() + 3 * curve_count(cmds),
        run(s, cmds).bufs.fill_idxs == s.bufs.fill_idxs,
    decreases cmds.len(),
{
    if cmds.len() > 0 {
        lemma_curve_indices(s, cmds.drop_last());
    }
}

/// The indices a triangle's corners get depend on the sink only through its
/// vertex count: a counting sink and a storing sink holding as many vertices
/// give the same indices and end with as many vertices and indices.
pub proof fn lemma_make_tri_same_indices(counted: BufsModel, stored: BufsModel, verts: [Vert; 3])
    requires
        counted.verts.len() == stored.verts.len(),
        counted.fill_idxs.len() == stored.fill_idxs.len(),
        counted.curve_idxs.len() == stored.curve_idxs.len(),
    ensures
        make_tri_spec(counted, verts).1 == make_tri_spec(stored, verts).1,
        make_tri_spec(counted, verts).0.verts.len() == make_tri_spec(stored, verts).0.verts.len(),
        make_tri_spec(counted, verts).0.fill_idxs.len() == make_tri_spec(stored, verts).0.fill_idxs.len(),
        make_tri_spec(counted, verts).0.curve_idxs.len() == make_tri_spec(stored, verts).0.curve_idxs.len(),
{
}

/// Two states whose sinks hold as many vertices and indices, and whose pens
/// are both positions or both indices, stay so after the same commands.
pub proof fn lemma_run_same_counts(s: TessState, t: TessState, cmds: Seq<PathCommands>)
    requires
        s.bufs.verts.len() == t.bufs.verts.len(),
        s.bufs.fill_idxs.len() == t.bufs.fill_idxs.len(),
        s.bufs.curve_idxs.len() == t.bufs.curve_idxs.len(),
        s.pen is Pos <==> t.pen is Pos,
    ensures
        run(s, cmds).bufs.verts.len() == run(t, cmds).bufs.verts.len(),
        run(s, cmds).bufs.fill_idxs.len() == run(t, cmds).bufs.fill_idxs.len(),
        run(s, cmds).bufs.curve_idxs.len() == run(t, cmds).bufs.curve_idxs.len(),
        run(s, cmds).pen is Pos <==> run(t, cmds).pen is Pos,
    decreases cmds.len(),
{
    if cmds.len() > 0 {
        lemma_run_same_counts(s, t, cmds.drop_last());
    }
}

/// A counting sink and a storing sink that start alike (both fresh, say) and
/// are handed the same commands report the same numbers of vertices, fill
/// indices and curve indices.
pub proof fn lemma_counts_agree(cmds: Seq<PathCommands>, counted: BufsModel, stored: BufsModel)
    requires
        counted.verts.len() == stored.verts.len(),
        counted.fill_idxs.len() == stored.fill_idxs.len(),
        counted.curve_idxs.len() == stored.curve_idxs.len(),
    ensures
        run(TessState::init(counted), cmds).bufs.verts.len() == run(TessState::init(stored), cmds).bufs.verts.len(),
        run(TessState::init(counted), cmds).bufs.fill_idxs.len() == run(
            TessState::init(stored),
            cmds,
        ).bufs.fill_idxs.len(),
        run(TessState::init(counted), cmds).bufs.curve_idxs.len() == run(
            TessState::init(stored),
            cmds,
        ).bufs.curve_idxs.len(),
{
    lemma_run_same_counts(TessState::init(counted), TessState::init(stored), cmds);
}

/// Over a non-empty list of points, along each axis, the low corner is at most
/// the high corner, every point lies between them, and each corner is the
/// coordinate of a point of the list.
pub proof fn lemma_bounding_box(pts: Seq<Point>, axis: int)
    requires
        pts.len() > 0,
        0 <= axis < 2,
    ensures
        low_corner(pts, axis) is Some,
        high_corner(pts, axis) is Some,
        low_corner(pts, axis)->0 <= high_corner(pts, axis)->0,
        forall|j: int|
            0 <= j < pts.len() ==> low_corner(pts, axis)->0 <= #[trigger] pts[j][axis] <= high_corner(
                pts,
                axis,
            )->0,
        exists|j: int| 0 <= j < pts.len() && pts[j][axis] == low_corner(pts, axis)->0,
        exists|j: int| 0 <= j < pts.len() && pts[j][axis] == high_corner(pts, axis)->0,
    decreases pts.len(),
{
    let last = pts.len() - 1;
    if pts.len() == 1 {
        assert(pts.drop_last().len() == 0);
        assert(pts[0][axis] == low_corner(pts, axis)->0);
        assert(pts[0][axis] == high_corner(pts, axis)->0);
    } else {
        let prev = pts.drop_last();
        lemma_bounding_box(prev, axis);
        let lo = choose|j: int| 0 <= j < prev.len() && prev[j][axis] == low_corner(prev, axis)->0;
        let hi = choose|j: int| 0 <= j < prev.len() && prev[j][axis] == high_corner(prev, axis)->0;
        assert(forall|j: int| 0 <= j < prev.len() ==> prev[j] == pts[j]);
        if pts[last][axis] < low_corner(prev, axis)->0 {
            assert(pts[last][axis] == low_corner(pts, axis)->0);
        } else {
            assert(pts[lo][axis] == low_corner(pts, axis)->0);
        }
        if pts[last][axis] > high_corner(prev, axis)->0 {
            assert(pts[last][axis] == high_corner(pts, axis)->0);
        } else {
            assert(pts[hi][axis] == high_corner(pts, axis)->0);
        }
        assert forall|j: int| 0 <= j < pts.len() implies low_corner(pts, axis)->0 <= #[trigger] pts[j][axis]
            <= high_corner(pts, axis)->0 by {
            if j < last {
                assert(prev[j] == pts[j]);
            }
        }
    }
}

/// A storing sink with at least one vertex keeps, along each axis, both
/// corners of its box set, the low one at most the high one, each the
/// coordinate of a stored vertex, and every stored vertex between them.
pub proof fn lemma_stored_box(b: VecPathVertBufs, axis: int)
    requires
        b.wf(),
        b.verts@.len() > 0,
        0 <= axis < 2,
    ensures
        b.left_top[axis] is Some,
        b.right_bottom[axis] is Some,
        b.left_top[axis]->0 <= b.right_bottom[axis]->0,
        exists|j: int| 0 <= j < b.verts@.len() && b.verts@[j][axis] == b.left_top[axis]->0,
        exists|j: int| 0 <= j < b.verts@.len() && b.verts@[j][axis] == b.right_bottom[axis]->0,
        forall|j: int|
            0 <= j < b.verts@.len() ==> b.left_top[axis]->0 <= #[trigger] b.verts@[j][axis]
                <= b.right_bottom[axis]->0,
{
    lemma_bounding_box(b.verts@, axis);
    assert(b.left_top[axis] == low_corner(b.verts@, axis));
    assert(b.right_bottom[axis] == high_corner(b.verts@, axis));
}

/// One step keeps the pen and every index on stored vertices, while the
/// vertex count stays within `MAX_VERTS`.
proof fn lemma_step_valid(s: TessState, cmd: PathCommands)
    requires
        s.valid(),
        s.bufs.indices_valid(),
        step(s, cmd).bufs.verts.len() <= MAX_VERTS,
    ensures
        step(s, cmd).valid(),
        step(s, cmd).bufs.indices_valid(),
        s.bufs.verts.len() <= step(s, cmd).bufs.verts.len(),
{
    if let PathCommands::QuadraticCurveTo(ctrl, to) = cmd {
        let t = step(s, cmd);
        let n = s.bufs.verts.len();
        assert forall|k: int| 0 <= k < t.bufs.curve_idxs.len() implies t.bufs.curve_idxs[k] < t.bufs.verts.len() by {
            if k < s.bufs.curve_idxs.len() {
                assert(t.bufs.curve_idxs[k] == s.bufs.curve_idxs[k]);
            }
        }
        assert forall|k: int| 0 <= k < t.bufs.fill_idxs.len() implies t.bufs.fill_idxs[k] < t.bufs.verts.len() by {
            assert(t.bufs.fill_idxs[k] == s.bufs.fill_idxs[k]);
        }
    }
}

proof fn lemma_run_valid(s: TessState, cmds: Seq<PathCommands>)
    requires
        s.valid(),
        s.bufs.indices_valid(),
        run(s, cmds).bufs.verts.len() <= MAX_VERTS,
    ensures
        run(s, cmds).valid(),
        run(s, cmds).bufs.indices_valid(),
        s.bufs.verts.len() <= run(s, cmds).bufs.verts.len(),
    decreases cmds.len(),
{
    if cmds.len() > 0 {
        let prev = run(s, cmds.drop_last());
        lemma_run_grows(s, cmds, cmds.len() - 1);
        assert(cmds.take(cmds.len() - 1) == cmds.drop_last());
        lemma_run_valid(s, cmds.drop_last());
        lemma_step_valid(prev, cmds.last());
    }
}

/// When the fill triangulation's indices name its own vertices, every index
/// of the tessellation, fill or curve, names a stored vertex.
pub proof fn lemma_indices_valid(cmds: Seq<PathCommands>, fill_verts: Seq<Point>, fill_idxs: Seq<u16>)
    requires
        forall|k: int| 0 <= k < fill_idxs.len() ==> fill_idxs[k] < fill_verts.len(),
        tessellation(cmds, fill_verts, fill_idxs).verts.len() <= MAX_VERTS,
    ensures
        tessellation(cmds, fill_verts, fill_idxs).indices_valid(),
{
    let init = TessState::init(BufsModel { verts: fill_verts, fill_idxs, curve_idxs: Seq::empty() });
    lemma_run_valid(init, cmds);
}

/// Where the pen stands after `cmds`: the end point of the last command, or
/// the origin before any.
pub open spec fn pen_point(cmds: Seq<PathCommands>) -> Point {
    if cmds.len() == 0 {
        origin()
    } else {
        end_point(cmds.last())
    }
}

/// The position a corner stands for, over the stored vertices `verts`.
pub open spec fn vert_point(v: Vert, verts: Seq<Point>) -> Point {
    match v {
        Vert::Pos(p) => p,
        Vert::Idx(i) => verts[i as int],
    }
}

/// `a` is an initial part of `b`.
pub open spec fn starts(a: Seq<u16>, b: Seq<u16>) -> bool {
    a.len() <= b.len() && a == b.subrange(0, a.len() as int)
}

/// Later commands only append: what a sink holds after the first `j` commands
/// starts what it holds after all of them.
proof fn lemma_run_prefix(s: TessState, cmds: Seq<PathCommands>, j: int)
    requires
        0 <= j <= cmds.len(),
    ensures
        run(s, cmds.take(j)).bufs.verts.len() <= run(s, cmds).bufs.verts.len(),
        run(s, cmds.take(j)).bufs.verts == run(s, cmds).bufs.verts.subrange(
            0,
            run(s, cmds.take(j)).bufs.verts.len() as int,
        ),
        starts(run(s, cmds.take(j)).bufs.curve_idxs, run(s, cmds).bufs.curve_idxs),
    decreases cmds.len(),
{
    if j < cmds.len() {
        assert(cmds.drop_last().take(j) == cmds.take(j));
        lemma_run_prefix(s, cmds.drop_last(), j);
        let a = run(s, cmds.take(j)).bufs;
        let m = run(s, cmds.drop_last()).bufs;
        let t = run(s, cmds).bufs;
        assert(m.verts =~= t.verts.subrange(0, m.verts.len() as int));
        assert(m.curve_idxs =~= t.curve_idxs.subrange(0, m.curve_idxs.len() as int));
        assert(a.verts =~= t.verts.subrange(0, a.verts.len() as int));
        assert(a.curve_idxs =~= t.curve_idxs.subrange(0, a.curve_idxs.len() as int));
    } else {
        assert(cmds.take(j) == cmds);
        assert(run(s, cmds).bufs.verts =~= run(s, cmds).bufs.verts.subrange(
            0,
            run(s, cmds).bufs.verts.len() as int,
        ));
        assert(run(s, cmds).bufs.curve_idxs =~= run(s, cmds).bufs.curve_idxs.subrange(
            0,
            run(s, cmds).bufs.curve_idxs.len() as int,
        ));
    }
}

/// The pen stands where the last command left it.
proof fn lemma_pen_tracks(s: TessState, cmds: Seq<PathCommands>)
    requires
        s.valid(),
        s.pen == Vert::Pos(origin()),
        run(s, cmds).bufs.verts.len() <= MAX_VERTS,
    ensures
        run(s, cmds).valid(),
        vert_point(run(s, cmds).pen, run(s, cmds).bufs.verts) == pen_point(cmds),
    decreases cmds.len(),
{
    if cmds.len() > 0 {
        lemma_run_grows(s, cmds, cmds.len() - 1);
        assert(cmds.take(cmds.len() - 1) == cmds.drop_last());
        lemma_pen_tracks(s, cmds.drop_last());
        let prev = run(s, cmds.drop_last());
        if let PathCommands::QuadraticCurveTo(ctrl, to) = cmds.last() {
            let t = run(s, cmds);
            assert(t.bufs.verts.last() == to);
        }
    }
}

/// Each quadratic curve through `ctrl` to `to` appends, after the curve
/// triangles of the commands before it, one triangle whose corners stand at
/// the pen position before the curve, at `ctrl` and at `to`, in that order.
pub proof fn lemma_curve_wedge(cmds: Seq<PathCommands>, fill_verts: Seq<Point>, fill_idxs: Seq<u16>, i: int)
    requires
        0 <= i < cmds.len(),
        cmds[i] is QuadraticCurveTo,
        tessellation(cmds, fill_verts, fill_idxs).verts.len() <= MAX_VERTS,
    ensures
        ({
            let t = tessellation(cmds, fill_verts, fill_idxs);
            let n = tessellation(cmds.take(i), fill_verts, fill_idxs).curve_idxs.len() as int;
            &&& n + 3 <= t.curve_idxs.len()
            &&& starts(tessellation(cmds.take(i), fill_verts, fill_idxs).curve_idxs, t.curve_idxs)
            &&& t.verts[t.curve_idxs[n] as int] == pen_point(cmds.take(i))
            &&& t.verts[t.curve_idxs[n + 1] as int] == cmds[i]->QuadraticCurveTo_0
            &&& t.verts[t.curve_idxs[n + 2] as int] == cmds[i]->QuadraticCurveTo_1
        }),
{
    let init = TessState::init(BufsModel { verts: fill_verts, fill_idxs, curve_idxs: Seq::empty() });
    let pre = cmds.take(i);
    let cur = cmds.take(i + 1);
    assert(cur.drop_last() == pre);
    assert(cur.last() == cmds[i]);
    lemma_run_prefix(init, cmds, i + 1);
    lemma_run_prefix(init, cur, i);
    assert(cur.take(i) == pre);
    lemma_run_grows(init, cmds, i);
    lemma_pen_tracks(init, pre);
    let b = run(init, pre);
    let a = run(init, cur);
    let t = run(init, cmds);
    let n = b.bufs.curve_idxs.len() as int;
    assert(a == step(b, cmds[i]));
    assert(a.bufs.curve_idxs[n] < a.bufs.verts.len());
    assert(a.bufs.curve_idxs[n + 1] < a.bufs.verts.len());
    assert(a.bufs.curve_idxs[n + 2] < a.bufs.verts.len());
    assert(a.bufs.verts[a.bufs.curve_idxs[n] as int] == pen_point(pre));
    assert(t.bufs.curve_idxs[n] == a.bufs.curve_idxs[n]);
    assert(t.bufs.curve_idxs[n + 1] == a.bufs.curve_idxs[n + 1]);
    assert(t.bufs.curve_idxs[n + 2] == a.bufs.curve_idxs[n + 2]);
    assert(b.bufs.curve_idxs =~= t.bufs.curve_idxs.subrange(0, n));
    assert(a.bufs.verts[a.bufs.curve_idxs[n + 1] as int] == cmds[i]->QuadraticCurveTo_0);
    assert(a.bufs.verts[a.bufs.curve_idxs[n + 2] as int] == cmds[i]->QuadraticCurveTo_1);
    assert forall|k: int| 0 <= k < a.bufs.verts.len() implies #[trigger] t.bufs.verts[k] == a.bufs.verts[k] by {
        assert(a.bufs.verts[k] == t.bufs.verts.subrange(0, a.bufs.verts.len() as int)[k]);
    }
}

} // verus!
