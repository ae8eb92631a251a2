//! Append sinks: the destinations a tessellator hands vertices and triangles to.
use vstd::prelude::*;
use crate::path::Point;

verus! {

/// The most vertices a sink holds, so that every vertex index fits in a `u16`.
pub const MAX_VERTS: usize = 65535;

/// A triangle corner: a position not stored yet, or the index of a stored vertex.
#[derive(Clone, Copy, Debug, PartialEq, Eq)]
pub enum Vert {
    Pos(Point),
    Idx(u16),
}

/// Everything a sink has been handed, in order.
pub struct BufsModel {
    pub verts: Seq<Point>,
    pub fill_idxs: Seq<u16>,
    pub curve_idxs: Seq<u16>,
}

impl BufsModel {
    pub open spec fn empty() -> BufsModel {
        BufsModel { verts: Seq::empty(), fill_idxs: Seq::empty(), curve_idxs: Seq::empty() }
    }

    pub open spec fn push_vert(self, pos: Point) -> BufsModel {
        BufsModel { verts: self.verts.push(pos), ..self }
    }

    pub open spec fn push_fill_tri(self, idxs: [u16; 3]) -> BufsModel {
        BufsModel { fill_idxs: self.fill_idxs + idxs@, ..self }
    }

    pub open spec fn push_curve_tri(self, idxs: [u16; 3]) -> BufsModel {
        BufsModel { curve_idxs: self.curve_idxs + idxs@, ..self }
    }

    /// Every index, fill and curve alike, names a stored vertex.
    pub open spec fn indices_valid(self) -> bool {
        &&& forall|k: int| 0 <= k < self.fill_idxs.len() ==> self.fill_idxs[k] < self.verts.len()
        &&& forall|k: int| 0 <= k < self.curve_idxs.len() ==> self.curve_idxs[k] < self.verts.len()
    }
}

/// `b` widened to take in `x` from below.
pub open spec fn min_into(b: Option<i32>, x: i32) -> Option<i32> {
    match b {
        Some(m) => Some(if x < m { x } else { m }),
        None => Some(x),
    }
}

/// `b` widened to take in `x` from above.
pub open spec fn max_into(b: Option<i32>, x: i32) -> Option<i32> {
    match b {
        Some(m) => Some(if x > m { x } else { m }),
        None => Some(x),
    }
}

/// The smallest coordinate along `axis` over `pts`; `None` when `pts` is empty.
pub open spec fn low_corner(pts: Seq<Point>, axis: int) -> Option<i32>
    decreases pts.len(),
{
    if pts.len() == 0 {
        None
    } else {
        min_into(low_corner(pts.drop_last(), axis), pts.last()[axis])
    }
}

/// The largest coordinate along `axis` over `pts`; `None` when `pts` is empty.
pub open spec fn high_corner(pts: Seq<Point>, axis: int) -> Option<i32>
    decreases pts.len(),
{
    if pts.len() == 0 {
        None
    } else {
        max_into(high_corner(pts.drop_last(), axis), pts.last()[axis])
    }
}

/// A destination for vertices and triangles. Implementations either store
/// what they are handed or only count it; either way the sequence of appends
/// is described by `model`.
pub trait BufsBuilder: Sized {
    spec fn model(&self) -> BufsModel;

    /// The sink's internal invariant.
    spec fn wf(&self) -> bool;

    /// The number of vertices appended so far.
    fn verts_len(&self) -> (r: u16)
        requires
            self.wf(),
        ensures
            r as int == self.model().verts.len(),
    ;

    fn push_vert(&mut self, pos: Point)
        requires
            old(self).wf(),
            old(self).model().verts.len() < MAX_VERTS,
        ensures
            final(self).wf(),
            final(self).model() == old(self).model().push_vert(pos),
    ;

    fn push_fill_tri(&mut self, idxs: [u16; 3])
        requires
            old(self).wf(),
            old(self).model().fill_idxs.len() + 3 <= usize::MAX,
        ensures
            final(self).wf(),
            final(self).model() == old(self).model().push_fill_tri(idxs),
    ;

    fn push_quadratic_tri(&mut self, idxs: [u16; 3])
        requires
            old(self).wf(),
            old(self).model().curve_idxs.len() + 3 <= usize::MAX,
        ensures
            final(self).wf(),
            final(self).model() == old(self).model().push_curve_tri(idxs),
    ;
}

/// A sink that only counts what it is handed, to size buffers ahead of time.
pub struct VertCounter {
    vert_count: u16,
    fill_idx_count: usize,
    quadratic_idx_count: usize,
    appended: Ghost<BufsModel>,
}

impl Default for VertCounter {
    fn default() -> (r: Self)
        ensures
            r.wf(),
            r.model() == BufsModel::empty(),
    {
        VertCounter {
            vert_count: 0,
            fill_idx_count: 0,
            quadratic_idx_count: 0,
            appended: Ghost(BufsModel::empty()),
        }
    }
}

impl VertCounter {
    /// The number of fill indices appended so far.
    pub fn fill_idx_count(&self) -> (r: usize)
        requires
            self.wf(),
        ensures
            r == self.model().fill_idxs.len(),
    {
        self.fill_idx_count
    }

    /// The number of curve indices appended so far.
    pub fn quadratic_idx_count(&self) -> (r: usize)
        requires
            self.wf(),
        ensures
            r == self.model().curve_idxs.len(),
    {
        self.quadratic_idx_count
    }
}

impl BufsBuilder for VertCounter {
    closed spec fn model(&self) -> BufsModel {
        self.appended@
    }

    closed spec fn wf(&self) -> bool {
        &&& self.vert_count == self.appended@.verts.len()
        &&& self.fill_idx_count == self.appended@.fill_idxs.len()
        &&& self.quadratic_idx_count == self.appended@.curve_idxs.len()
    }

    fn verts_len(&self) -> (r: u16) {
        self.vert_count
    }

    fn push_vert(&mut self, pos: Point) {
        self.vert_count = self.vert_count + 1;
        self.appended = Ghost(self.appended@.push_vert(pos));
    }

    fn push_fill_tri(&mut self, idxs: [u16; 3]) {
        self.fill_idx_count = self.fill_idx_count + 3;
        self.appended = Ghost(self.appended@.push_fill_tri(idxs));
    }

    fn push_quadratic_tri(&mut self, idxs: [u16; 3]) {
        self.quadratic_idx_count = self.quadratic_idx_count + 3;
        self.appended = Ghost(self.appended@.push_curve_tri(idxs));
    }
}

/// A sink that stores vertices and indices, and keeps the bounding box of the
/// stored vertices.
#[derive(Clone, Debug)]
pub struct VecPathVertBufs {
    pub verts: Vec<Point>,
    pub fill_idxs: Vec<u16>,
    pub quadratic_idxs: Vec<u16>,
    pub left_top: [Option<i32>; 2],
    pub right_bottom: [Option<i32>; 2],
}

impl VecPathVertBufs {
    pub fn new() -> (r: Self)
        ensures
            r.wf(),
            r.model() == BufsModel::empty(),
            r.left_top@ == seq![None::<i32>, None],
            r.right_bottom@ == seq![None::<i32>, None],
    {
        VecPathVertBufs {
            verts: Vec::new(),
            fill_idxs: Vec::new(),
            quadratic_idxs: Vec::new(),
            left_top: [None, None],
            right_bottom: [None, None],
        }
    }
}

impl BufsBuilder for VecPathVertBufs {
    open spec fn model(&self) -> BufsModel {
        BufsModel { verts: self.verts@, fill_idxs: self.fill_idxs@, curve_idxs: self.quadratic_idxs@ }
    }

    /// At most `MAX_VERTS` vertices, and the corners are the extremes of the
    /// stored vertices.
    open spec fn wf(&self) -> bool {
        &&& self.verts@.len() <= MAX_VERTS
        &&& self.left_top[0] == low_corner(self.verts@, 0)
        &&& self.left_top[1] == low_corner(self.verts@, 1)
        &&& self.right_bottom[0] == high_corner(self.verts@, 0)
        &&& self.right_bottom[1] == high_corner(self.verts@, 1)
    }

    fn verts_len(&self) -> (r: u16) {
        self.verts.len() as u16
    }

    fn push_vert(&mut self, pos: Point) {
        let ghost before = self.verts@;
        self.left_top = [widen_min(self.left_top[0], pos[0]), widen_min(self.left_top[1], pos[1])];
        self.right_bottom = [
            widen_max(self.right_bottom[0], pos[0]),
            widen_max(self.right_bottom[1], pos[1]),
        ];
        self.verts.push(pos);
        assert(self.verts@.drop_last() == before);
    }

    fn push_fill_tri(&mut self, idxs: [u16; 3]) {
        self.fill_idxs.push(idxs[0]);
        self.fill_idxs.push(idxs[1]);
        self.fill_idxs.push(idxs[2]);
        assert(self.fill_idxs@ =~= old(self).fill_idxs@ + idxs@);
    }

    fn push_quadratic_tri(&mut self, idxs: [u16; 3]) {
        self.quadratic_idxs.push(idxs[0]);
        self.quadratic_idxs.push(idxs[1]);
        self.quadratic_idxs.push(idxs[2]);
        assert(self.quadratic_idxs@ =~= old(self).quadratic_idxs@ + idxs@);
    }
}

fn widen_min(b: Option<i32>, x: i32) -> (r: Option<i32>)
    ensures
        r == min_into(b, x),
{
    match b {
        Some(m) => Some(if x < m { x } else { m }),
        None => Some(x),
    }
}

fn widen_max(b: Option<i32>, x: i32) -> (r: Option<i32>)
    ensures
        r == max_into(b, x),
{
    match b {
        Some(m) => Some(if x > m { x } else { m }),
        None => Some(x),
    }
}

} // verus!
