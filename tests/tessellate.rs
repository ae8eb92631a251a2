use nice_path::bufs::{BufsBuilder, VecPathVertBufs, VertCounter};
use nice_path::path::{Path, PathCommands};
use nice_path::tess::{fill_polyline, fill_tessellate, tessellate_curves, tessellate_with_fill, TessellateError};

fn square() -> Path {
    Path::start().move_to([0, 0]).line_to([10, 0]).line_to([10, 10]).line_to([0, 10])
}

fn triangle_area_twice(v: &[[i32; 2]], a: u16, b: u16, c: u16) -> i64 {
    let (a, b, c) = (v[a as usize], v[b as usize], v[c as usize]);
    let cross = (b[0] as i64 - a[0] as i64) * (c[1] as i64 - a[1] as i64)
        - (b[1] as i64 - a[1] as i64) * (c[0] as i64 - a[0] as i64);
    cross.abs()
}

#[test]
fn path_builder_appends_in_order() {
    let path = Path::start().move_to([1, 2]).line_to([3, 4]).quadratic_curve_to([5, 6], [7, 8]);
    assert_eq!(
        path.commands(),
        &vec![
            PathCommands::MoveTo([1, 2]),
            PathCommands::LineTo([3, 4]),
            PathCommands::QuadraticCurveTo([5, 6], [7, 8]),
        ]
    );
}

#[test]
fn empty_path_tessellates_to_nothing() {
    let bufs = fill_tessellate(&Path::start()).unwrap();
    assert!(bufs.verts.is_empty());
    assert!(bufs.fill_idxs.is_empty());
    assert!(bufs.quadratic_idxs.is_empty());
    assert_eq!(bufs.left_top, [None, None]);
    assert_eq!(bufs.right_bottom, [None, None]);
}

#[test]
fn lines_only_give_no_curve_indices() {
    let bufs = fill_tessellate(&square()).unwrap();
    assert!(bufs.quadratic_idxs.is_empty());
    let path = Path::start().move_to([0, 0]).line_to([5, 0]).move_to([20, 20]).line_to([30, 20]).line_to([25, 30]);
    let bufs = fill_tessellate(&path).unwrap();
    assert!(bufs.quadratic_idxs.is_empty());
}

#[test]
fn one_curve_gives_one_wedge() {
    let path = Path::start().move_to([0, 0]).quadratic_curve_to([5, 10], [10, 0]);
    let bufs = fill_tessellate(&path).unwrap();
    assert_eq!(bufs.quadratic_idxs.len(), 3);
    let n = bufs.verts.len();
    assert!(n >= 3);
    let base = (n - 3) as u16;
    assert_eq!(bufs.quadratic_idxs, vec![base, base + 1, base + 2]);
    assert_eq!(bufs.verts[bufs.quadratic_idxs[0] as usize], [0, 0]);
    assert_eq!(bufs.verts[bufs.quadratic_idxs[1] as usize], [5, 10]);
    assert_eq!(bufs.verts[bufs.quadratic_idxs[2] as usize], [10, 0]);
}

#[test]
fn one_curve_over_given_fill() {
    let path = Path::start().move_to([1, 1]).quadratic_curve_to([2, 3], [4, 1]);
    let bufs = tessellate_with_fill(&path, &vec![[7, 7], [8, 8], [9, 7]], &vec![0, 1, 2]).unwrap();
    assert_eq!(bufs.verts, vec![[7, 7], [8, 8], [9, 7], [1, 1], [2, 3], [4, 1]]);
    assert_eq!(bufs.fill_idxs, vec![0, 1, 2]);
    assert_eq!(bufs.quadratic_idxs, vec![3, 4, 5]);
    assert_eq!(bufs.left_top, [Some(1), Some(1)]);
    assert_eq!(bufs.right_bottom, [Some(9), Some(8)]);
}

#[test]
fn consecutive_curves_share_the_pen_vertex() {
    let path = Path::start().move_to([0, 0]).quadratic_curve_to([1, 2], [2, 0]).quadratic_curve_to([3, -2], [4, 0]);
    let bufs = tessellate_with_fill(&path, &vec![], &vec![]).unwrap();
    assert_eq!(bufs.verts, vec![[0, 0], [1, 2], [2, 0], [3, -2], [4, 0]]);
    assert_eq!(bufs.quadratic_idxs, vec![0, 1, 2, 2, 3, 4]);
}

#[test]
fn pen_starts_at_origin() {
    let path = Path::start().quadratic_curve_to([3, 3], [6, 0]);
    let bufs = tessellate_with_fill(&path, &vec![], &vec![]).unwrap();
    assert_eq!(bufs.verts, vec![[0, 0], [3, 3], [6, 0]]);
    assert_eq!(bufs.quadratic_idxs, vec![0, 1, 2]);
}

#[test]
fn counter_and_vec_sink_agree() {
    let path = Path::start()
        .move_to([100, 100])
        .quadratic_curve_to([150, 50], [200, 100])
        .line_to([200, 200])
        .quadratic_curve_to([150, 250], [100, 200])
        .quadratic_curve_to([50, 150], [100, 100]);
    let counted = tessellate_curves(&path, VertCounter::default()).unwrap();
    let stored = tessellate_curves(&path, VecPathVertBufs::new()).unwrap();
    assert_eq!(counted.verts_len(), stored.verts_len());
    assert_eq!(counted.verts_len(), 8);
    assert_eq!(counted.fill_idx_count(), stored.fill_idxs.len());
    assert_eq!(counted.quadratic_idx_count(), stored.quadratic_idxs.len());
    assert_eq!(counted.quadratic_idx_count(), 9);
}

#[test]
fn counter_counts_each_push() {
    let mut c = VertCounter::default();
    c.push_vert([1, 1]);
    c.push_vert([2, 2]);
    c.push_fill_tri([0, 1, 0]);
    c.push_quadratic_tri([1, 0, 1]);
    c.push_quadratic_tri([0, 0, 1]);
    assert_eq!(c.verts_len(), 2);
    assert_eq!(c.fill_idx_count(), 3);
    assert_eq!(c.quadratic_idx_count(), 6);
}

#[test]
fn bounding_box_spans_pushed_vertices() {
    let mut b = VecPathVertBufs::new();
    b.push_vert([3, -4]);
    assert_eq!(b.left_top, [Some(3), Some(-4)]);
    assert_eq!(b.right_bottom, [Some(3), Some(-4)]);
    b.push_vert([-2, 7]);
    b.push_vert([5, 1]);
    assert_eq!(b.left_top, [Some(-2), Some(-4)]);
    assert_eq!(b.right_bottom, [Some(5), Some(7)]);
    for axis in 0..2 {
        assert!(b.left_top[axis].unwrap() <= b.right_bottom[axis].unwrap());
        assert!(b.verts.iter().any(|p| Some(p[axis]) == b.left_top[axis]));
        assert!(b.verts.iter().any(|p| Some(p[axis]) == b.right_bottom[axis]));
    }
}

#[test]
fn square_scenario() {
    let bufs = fill_tessellate(&square()).unwrap();
    assert!(bufs.quadratic_idxs.is_empty());
    assert_eq!(bufs.fill_idxs.len() % 3, 0);
    assert!(bufs.fill_idxs.iter().all(|&i| (i as usize) < bufs.verts.len()));
    let twice_area: i64 = bufs
        .fill_idxs
        .chunks(3)
        .map(|t| triangle_area_twice(&bufs.verts, t[0], t[1], t[2]))
        .sum();
    assert_eq!(twice_area, 200);
    assert_eq!(bufs.left_top, [Some(0), Some(0)]);
    assert_eq!(bufs.right_bottom, [Some(10), Some(10)]);
}

#[test]
fn curved_shape_shares_one_vertex_list() {
    let path = Path::start()
        .move_to([100, 100])
        .quadratic_curve_to([150, 50], [200, 100])
        .line_to([200, 200])
        .line_to([155, 200])
        .line_to([175, 125])
        .line_to([125, 125])
        .line_to([145, 200])
        .line_to([100, 200]);
    let bufs = fill_tessellate(&path).unwrap();
    assert!(!bufs.fill_idxs.is_empty());
    assert!(bufs.fill_idxs.iter().all(|&i| (i as usize) < bufs.verts.len()));
    let n = bufs.verts.len() as u16;
    assert_eq!(bufs.quadratic_idxs, vec![n - 3, n - 2, n - 1]);
    assert_eq!(bufs.verts[(n - 2) as usize], [150, 50]);
    assert_eq!(bufs.left_top, [Some(100), Some(50)]);
    assert_eq!(bufs.right_bottom, [Some(200), Some(200)]);
}

#[test]
fn polyline_leaves_out_control_points() {
    let path = Path::start()
        .move_to([0, 0])
        .quadratic_curve_to([5, 9], [10, 0])
        .line_to([10, 10])
        .move_to([20, 20])
        .line_to([30, 20]);
    assert_eq!(fill_polyline(&path), vec![vec![[0, 0], [10, 0], [10, 10]], vec![[20, 20], [30, 20]]]);
    let path = Path::start().line_to([4, 0]).line_to([4, 4]);
    assert_eq!(fill_polyline(&path), vec![vec![[0, 0], [4, 0], [4, 4]]]);
    assert!(fill_polyline(&Path::start()).is_empty());
}

#[test]
fn too_many_vertices_is_refused() {
    let mut path = Path::start();
    for k in 0..21846 {
        path = path.move_to([k, 0]).quadratic_curve_to([k, 1], [k + 1, 0]);
    }
    assert_eq!(
        tessellate_with_fill(&path, &vec![], &vec![]).unwrap_err(),
        TessellateError::TooManyVertices
    );
    assert!(tessellate_curves(&path, VertCounter::default()).is_err());
    let mut path = Path::start();
    for k in 0..21845 {
        path = path.move_to([k, 0]).quadratic_curve_to([k, 1], [k + 1, 0]);
    }
    let bufs = tessellate_with_fill(&path, &vec![], &vec![]).unwrap();
    assert_eq!(bufs.verts.len(), 65535);
}

#[test]
fn three_curve_indices_per_curve() {
    let path = Path::start()
        .move_to([0, 0])
        .quadratic_curve_to([5, -5], [10, 0])
        .line_to([10, 10])
        .quadratic_curve_to([5, 15], [0, 10])
        .quadratic_curve_to([-5, 5], [0, 0]);
    let bufs = fill_tessellate(&path).unwrap();
    assert_eq!(bufs.quadratic_idxs.len(), 9);
    assert_eq!(bufs.fill_idxs.len() % 3, 0);
    assert!(bufs.fill_idxs.iter().chain(bufs.quadratic_idxs.iter()).all(|&i| (i as usize) < bufs.verts.len()));
}
