use vstd::prelude::*;
use crate::entities::{EntityTypeView, ImageView, LeaderView, Point};

verus! {

fn min_len(a: usize, b: usize) -> (r: usize)
    ensures
        r as int == if a <= b { a as int } else { b as int },
{
    if a <= b { a } else { b }
}

/// Points from two parallel component lists, paired in index order, with a
/// zero z; as many as the shorter list holds.
pub open spec fn zip_points_2(xs: Seq<u64>, ys: Seq<u64>) -> Seq<Point> {
    Seq::new(
        if xs.len() <= ys.len() { xs.len() } else { ys.len() },
        |i: int| Point { x: xs[i], y: ys[i], z: 0 },
    )
}

/// Points from three parallel component lists, combined in index order; as
/// many as the shortest list holds.
pub open spec fn zip_points_3(xs: Seq<u64>, ys: Seq<u64>, zs: Seq<u64>) -> Seq<Point> {
    Seq::new(
        if xs.len() <= ys.len() && xs.len() <= zs.len() {
            xs.len()
        } else if ys.len() <= zs.len() {
            ys.len()
        } else {
            zs.len()
        },
        |i: int| Point { x: xs[i], y: ys[i], z: zs[i] },
    )
}

/// Moves the points made from two component lists onto the end of
/// `result`; the component lists are left empty.
pub fn combine_points_2(xs: &mut Vec<u64>, ys: &mut Vec<u64>, result: &mut Vec<Point>)
    ensures
        final(result)@ == old(result)@ + zip_points_2(old(xs)@, old(ys)@),
        final(xs)@.len() == 0,
        final(ys)@.len() == 0,
{
    let n = min_len(xs.len(), ys.len());
    let ghost start = result@;
    let mut i: usize = 0;
    while i < n
        invariant
            i <= n,
            n as int == zip_points_2(xs@, ys@).len(),
            n <= xs@.len(),
            n <= ys@.len(),
            result@ == start + zip_points_2(xs@, ys@).subrange(0, i as int),
        decreases n - i,
    {
        result.push(Point { x: xs[i], y: ys[i], z: 0 });
        i = i + 1;
        assert(result@ =~= start + zip_points_2(xs@, ys@).subrange(0, i as int));
    }
    assert(zip_points_2(xs@, ys@).subrange(0, i as int) =~= zip_points_2(xs@, ys@));
    xs.clear();
    ys.clear();
}

/// Moves the points made from three component lists onto the end of
/// `result`; the component lists are left empty.
pub fn combine_points_3(xs: &mut Vec<u64>, ys: &mut Vec<u64>, zs: &mut Vec<u64>, result: &mut Vec<Point>)
    ensures
        final(result)@ == old(result)@ + zip_points_3(old(xs)@, old(ys)@, old(zs)@),
        final(xs)@.len() == 0,
        final(ys)@.len() == 0,
        final(zs)@.len() == 0,
{
    let n = min_len(min_len(xs.len(), ys.len()), zs.len());
    let ghost start = result@;
    let mut i: usize = 0;
    while i < n
        invariant
            i <= n,
            n as int == zip_points_3(xs@, ys@, zs@).len(),
            n <= xs@.len(),
            n <= ys@.len(),
            n <= zs@.len(),
            result@ == start + zip_points_3(xs@, ys@, zs@).subrange(0, i as int),
        decreases n - i,
    {
        result.push(Point { x: xs[i], y: ys[i], z: zs[i] });
        i = i + 1;
        assert(result@ =~= start + zip_points_3(xs@, ys@, zs@).subrange(0, i as int));
    }
    assert(zip_points_3(xs@, ys@, zs@).subrange(0, i as int) =~= zip_points_3(xs@, ys@, zs@));
    xs.clear();
    ys.clear();
    zs.clear();
}

/// What the pass after the last record does to an entity that received
/// coordinates as parallel component lists; other kinds are unchanged.
pub open spec fn post_parse(v: EntityTypeView) -> EntityTypeView {
    match v {
        EntityTypeView::Image(i) => EntityTypeView::Image(
            ImageView {
                clipping_vertices: i.clipping_vertices + zip_points_2(
                    i.clipping_vertices_x,
                    i.clipping_vertices_y,
                ),
                clipping_vertices_x: Seq::empty(),
                clipping_vertices_y: Seq::empty(),
                ..i
            },
        ),
        EntityTypeView::Leader(l) => EntityTypeView::Leader(
            LeaderView {
                vertices: l.vertices + zip_points_3(l.vertices_x, l.vertices_y, l.vertices_z),
                vertices_x: Seq::empty(),
                vertices_y: Seq::empty(),
                vertices_z: Seq::empty(),
                ..l
            },
        ),
        _ => v,
    }
}

} // verus!
