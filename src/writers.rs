use vstd::prelude::*;
use crate::code_pair::{emit, is_zero_real, pairs_view, real_is_zero, rec, CodePair, CodePairView, ValueView, REAL_ONE};
use crate::entities::{AngularThreePointDimension, AngularThreePointDimensionView, Arc, Attribute, AttributeDefinition, AttributeDefinitionView, AttributeFields, AttributeFieldsView, AttributeView, Circle, DiameterDimension, DiameterDimensionView, DimensionBase, DimensionBaseView, EntityType, EntityTypeView, Face3D, Image, ImageView, Insert, InsertView, Leader, LeaderView, Line, LwPolyline, LwPolylineVertex, LwPolylineView, MText, MTextView, ModelPoint, OrdinateDimension, OrdinateDimensionView, Point, Polyline, PolylineView, ProxyEntity, RadialDimension, RadialDimensionView, RotatedDimension, RotatedDimensionView, Seqend, Solid, Solid3D, Solid3DView, Trace, Vertex};
use crate::enums::{AcadVersion, PolylineCurvedAndSmoothSurfaceType};

verus! {

/// Whether a direction is the unit z axis (zeros compare as in floating
/// point: `-0.0` equals `0.0`).
pub open spec fn is_z_axis(p: Point) -> bool {
    is_zero_real(p.x) && is_zero_real(p.y) && p.z == REAL_ONE
}

pub fn point_is_z_axis(p: Point) -> (r: bool)
    ensures
        r == is_z_axis(p),
{
    real_is_zero(p.x) && real_is_zero(p.y) && p.z == REAL_ONE
}

/// The three records of a point: x under `base`, y under `base + 10`, z
/// under `base + 20`.
pub open spec fn point_records(base: u16, p: Point) -> Seq<CodePairView> {
    seq![
        rec(base, ValueView::Double(p.x)),
        rec((base + 10) as u16, ValueView::Double(p.y)),
        rec((base + 20) as u16, ValueView::Double(p.z)),
    ]
}

pub fn emit_point(out: &mut Vec<CodePair>, base: u16, p: Point)
    requires
        base + 20 <= u16::MAX,
    ensures
        pairs_view(final(out)@) == pairs_view(old(out)@) + point_records(base, p),
{
    emit(out, CodePair::new_real(base, p.x));
    emit(out, CodePair::new_real(base + 10, p.y));
    emit(out, CodePair::new_real(base + 20, p.z));
    assert(pairs_view(out@) =~= pairs_view(old(out)@) + point_records(base, p));
}

pub fn emit_real_unless_zero(out: &mut Vec<CodePair>, code: u16, v: u64)
    ensures
        pairs_view(final(out)@) == pairs_view(old(out)@) + (if !is_zero_real(v) {
            seq![rec(code, ValueView::Double(v))]
        } else {
            Seq::empty()
        }),
{
    if !real_is_zero(v) {
        emit(out, CodePair::new_real(code, v));
    }
    assert(pairs_view(out@) =~= pairs_view(old(out)@) + (if !is_zero_real(v) {
        seq![rec(code, ValueView::Double(v))]
    } else {
        Seq::empty()
    }));
}

pub fn emit_real_unless_one(out: &mut Vec<CodePair>, code: u16, v: u64)
    ensures
        pairs_view(final(out)@) == pairs_view(old(out)@) + (if v != REAL_ONE {
            seq![rec(code, ValueView::Double(v))]
        } else {
            Seq::empty()
        }),
{
    if v != REAL_ONE {
        emit(out, CodePair::new_real(code, v));
    }
    assert(pairs_view(out@) =~= pairs_view(old(out)@) + (if v != REAL_ONE {
        seq![rec(code, ValueView::Double(v))]
    } else {
        Seq::empty()
    }));
}

pub fn emit_point_unless_z_axis(out: &mut Vec<CodePair>, base: u16, p: Point)
    requires
        base + 20 <= u16::MAX,
    ensures
        pairs_view(final(out)@) == pairs_view(old(out)@) + (if !is_z_axis(p) {
            point_records(base, p)
        } else {
            Seq::empty()
        }),
{
    if !point_is_z_axis(p) {
        emit_point(out, base, p);
    }
    assert(pairs_view(out@) =~= pairs_view(old(out)@) + (if !is_z_axis(p) {
        point_records(base, p)
    } else {
        Seq::empty()
    }));
}

pub fn emit_short_unless_zero(out: &mut Vec<CodePair>, code: u16, v: i16)
    ensures
        pairs_view(final(out)@) == pairs_view(old(out)@) + (if v != 0 {
            seq![rec(code, ValueView::Short(v))]
        } else {
            Seq::empty()
        }),
{
    if v != 0 {
        emit(out, CodePair::new_i16(code, v));
    }
    assert(pairs_view(out@) =~= pairs_view(old(out)@) + (if v != 0 {
        seq![rec(code, ValueView::Short(v))]
    } else {
        Seq::empty()
    }));
}

pub fn emit_int_as_short_unless_zero(out: &mut Vec<CodePair>, code: u16, v: i32)
    ensures
        pairs_view(final(out)@) == pairs_view(old(out)@) + (if v != 0 {
            seq![rec(code, ValueView::Short(v as i16))]
        } else {
            Seq::empty()
        }),
{
    if v != 0 {
        emit(out, CodePair::new_i16(code, v as i16));
    }
    assert(pairs_view(out@) =~= pairs_view(old(out)@) + (if v != 0 {
        seq![rec(code, ValueView::Short(v as i16))]
    } else {
        Seq::empty()
    }));
}

/// One record per string, in order.
pub open spec fn strings_records(code: u16, s: Seq<Seq<char>>) -> Seq<CodePairView> {
    s.map_values(|x: Seq<char>| rec(code, ValueView::Str(x)))
}

pub fn emit_strings(out: &mut Vec<CodePair>, code: u16, s: &Vec<String>)
    ensures
        pairs_view(final(out)@) == pairs_view(old(out)@) + strings_records(
            code,
            s@.map_values(|x: String| x@),
        ),
{
    let ghost start = pairs_view(out@);
    let ghost sv = s@.map_values(|x: String| x@);
    let mut i: usize = 0;
    while i < s.len()
        invariant
            i <= s.len(),
            sv == s@.map_values(|x: String| x@),
            pairs_view(out@) == start + strings_records(code, sv.subrange(0, i as int)),
        decreases s.len() - i,
    {
        emit(out, CodePair::new_string(code, &s[i]));
        assert(strings_records(code, sv.subrange(0, i + 1)) =~= strings_records(
            code,
            sv.subrange(0, i as int),
        ).push(rec(code, ValueView::Str(s@[i as int]@))));
        i = i + 1;
    }
    assert(sv.subrange(0, i as int) =~= sv);
}

/// Two records per point, x under `cx` and y under `cy`, in order.
pub open spec fn points_2d_records(cx: u16, cy: u16, s: Seq<Point>) -> Seq<CodePairView>
    decreases s.len(),
{
    if s.len() == 0 {
        Seq::empty()
    } else {
        points_2d_records(cx, cy, s.drop_last()) + seq![
            rec(cx, ValueView::Double(s.last().x)),
            rec(cy, ValueView::Double(s.last().y)),
        ]
    }
}

pub fn emit_points_2d(out: &mut Vec<CodePair>, cx: u16, cy: u16, s: &Vec<Point>)
    ensures
        pairs_view(final(out)@) == pairs_view(old(out)@) + points_2d_records(cx, cy, s@),
{
    let ghost start = pairs_view(out@);
    let mut i: usize = 0;
    while i < s.len()
        invariant
            i <= s.len(),
            pairs_view(out@) == start + points_2d_records(cx, cy, s@.subrange(0, i as int)),
        decreases s.len() - i,
    {
        let p = s[i];
        emit(out, CodePair::new_real(cx, p.x));
        emit(out, CodePair::new_real(cy, p.y));
        assert(s@.subrange(0, i + 1).drop_last() =~= s@.subrange(0, i as int));
        assert(pairs_view(out@) =~= start + points_2d_records(cx, cy, s@.subrange(0, i + 1)));
        i = i + 1;
    }
    assert(s@.subrange(0, i as int) =~= s@);
}

/// Three records per point, under `base`, `base + 10` and `base + 20`, in
/// order.
pub open spec fn points_3d_records(base: u16, s: Seq<Point>) -> Seq<CodePairView>
    decreases s.len(),
{
    if s.len() == 0 {
        Seq::empty()
    } else {
        points_3d_records(base, s.drop_last()) + point_records(base, s.last())
    }
}

pub fn emit_points_3d(out: &mut Vec<CodePair>, base: u16, s: &Vec<Point>)
    requires
        base + 20 <= u16::MAX,
    ensures
        pairs_view(final(out)@) == pairs_view(old(out)@) + points_3d_records(base, s@),
{
    let ghost start = pairs_view(out@);
    let mut i: usize = 0;
    while i < s.len()
        invariant
            i <= s.len(),
            base + 20 <= u16::MAX,
            pairs_view(out@) == start + points_3d_records(base, s@.subrange(0, i as int)),
        decreases s.len() - i,
    {
        emit_point(out, base, s[i]);
        assert(s@.subrange(0, i + 1).drop_last() =~= s@.subrange(0, i as int));
        assert(pairs_view(out@) =~= start + points_3d_records(base, s@.subrange(0, i + 1)));
        i = i + 1;
    }
    assert(s@.subrange(0, i as int) =~= s@);
}

/// The records of one light-weight polyline vertex: its position, its
/// identifier (from R2013 on), then the widths and bulge that are not zero.
pub open spec fn lw_vertex_records(p: LwPolylineVertex, version: AcadVersion) -> Seq<CodePairView> {
    seq![rec(10, ValueView::Double(p.x)), rec(20, ValueView::Double(p.y))]
        + (if version.spec_at_least(AcadVersion::R2013) { seq![rec(91, ValueView::Integer(p.id))] } else { Seq::empty() })
        + (if !is_zero_real(p.starting_width) { seq![rec(40, ValueView::Double(p.starting_width))] } else { Seq::empty() })
        + (if !is_zero_real(p.ending_width) { seq![rec(41, ValueView::Double(p.ending_width))] } else { Seq::empty() })
        + (if !is_zero_real(p.bulge) { seq![rec(42, ValueView::Double(p.bulge))] } else { Seq::empty() })
}

pub open spec fn lw_vertices_records(s: Seq<LwPolylineVertex>, version: AcadVersion) -> Seq<CodePairView>
    decreases s.len(),
{
    if s.len() == 0 {
        Seq::empty()
    } else {
        lw_vertices_records(s.drop_last(), version) + lw_vertex_records(s.last(), version)
    }
}

pub fn emit_lw_vertices(out: &mut Vec<CodePair>, s: &Vec<LwPolylineVertex>, version: AcadVersion)
    ensures
        pairs_view(final(out)@) == pairs_view(old(out)@) + lw_vertices_records(s@, version),
{
    let ghost start = pairs_view(out@);
    let mut i: usize = 0;
    while i < s.len()
        invariant
            i <= s.len(),
            pairs_view(out@) == start + lw_vertices_records(s@.subrange(0, i as int), version),
        decreases s.len() - i,
    {
        let p = s[i];
        let ghost before = pairs_view(out@);
        emit(out, CodePair::new_real(10, p.x));
        emit(out, CodePair::new_real(20, p.y));
        if version.at_least(AcadVersion::R2013) {
            emit(out, CodePair::new_i32(91, p.id));
        }
        if !real_is_zero(p.starting_width) {
            emit(out, CodePair::new_real(40, p.starting_width));
        }
        if !real_is_zero(p.ending_width) {
            emit(out, CodePair::new_real(41, p.ending_width));
        }
        if !real_is_zero(p.bulge) {
            emit(out, CodePair::new_real(42, p.bulge));
        }
        assert(pairs_view(out@) =~= before + lw_vertex_records(p, version));
        assert(s@.subrange(0, i + 1).drop_last() =~= s@.subrange(0, i as int));
        assert(pairs_view(out@) =~= start + lw_vertices_records(s@.subrange(0, i + 1), version));
        i = i + 1;
    }
    assert(s@.subrange(0, i as int) =~= s@);
}

/// The value written under code 70 for a dimension: its type in the lower
/// four bits and its flags in bits 32, 64 and 128.
pub open spec fn dimension_type_code(v: DimensionBaseView) -> i16 {
    v.dimension_type.spec_to_i16()
        | (if v.is_block_reference_referenced_by_this_block_only { 32i16 } else { 0i16 })
        | (if v.is_ordinate_x_type { 64i16 } else { 0i16 })
        | (if v.is_at_user_defined_location { 128i16 } else { 0i16 })
}

impl DimensionBase {
    pub fn get_dimension_type(&self) -> (r: i16)
        ensures
            r == dimension_type_code(self@),
    {
        self.dimension_type.to_i16() | (if self.is_block_reference_referenced_by_this_block_only {
            32i16
        } else {
            0i16
        }) | (if self.is_ordinate_x_type {
            64i16
        } else {
            0i16
        }) | (if self.is_at_user_defined_location {
            128i16
        } else {
            0i16
        })
    }
}

/// The records that describe a `Line`'s own fields in the given version.
pub open spec fn line_records(v: Line, version: AcadVersion) -> Seq<CodePairView> {
    seq![rec(100, ValueView::Str("AcDbLine"@))]
        + (if !is_zero_real(v.thickness) { seq![rec(39, ValueView::Double(v.thickness))] } else { Seq::empty() })
        + point_records(10, v.p1)
        + point_records(11, v.p2)
        + (if !is_z_axis(v.extrusion_direction) { point_records(210, v.extrusion_direction) } else { Seq::empty() })
}

/// Writes a `Line`'s own fields.
#[verifier::rlimit(60)]
pub fn write_line(e: &Line, version: AcadVersion, out: &mut Vec<CodePair>)
    ensures
        pairs_view(final(out)@) == pairs_view(old(out)@) + line_records(*e, version),
{
    let ghost start = pairs_view(out@);
    let ghost v = *e;
    let ghost mut acc: Seq<CodePairView> = Seq::empty();
    let ghost prev = pairs_view(out@);
    emit(out, CodePair::new_str(100, "AcDbLine"));
    assert(pairs_view(out@) =~= prev + seq![rec(100, ValueView::Str("AcDbLine"@))]);
    proof {
        acc = seq![rec(100, ValueView::Str("AcDbLine"@))];
        assert(pairs_view(out@) =~= start + acc);
    }
    let ghost prev = pairs_view(out@);
    emit_real_unless_zero(out, 39, e.thickness);
    assert(pairs_view(out@) =~= prev + (if !is_zero_real(v.thickness) { seq![rec(39, ValueView::Double(v.thickness))] } else { Seq::empty() }));
    proof {
        assert(start + (acc + (if !is_zero_real(v.thickness) { seq![rec(39, ValueView::Double(v.thickness))] } else { Seq::empty() })) =~= (start + acc) + (if !is_zero_real(v.thickness) { seq![rec(39, ValueView::Double(v.thickness))] } else { Seq::empty() }));
        acc = acc + (if !is_zero_real(v.thickness) { seq![rec(39, ValueView::Double(v.thickness))] } else { Seq::empty() });
    }
    let ghost prev = pairs_view(out@);
    emit_point(out, 10, e.p1);
    assert(pairs_view(out@) =~= prev + point_records(10, v.p1));
    proof {
        assert(start + (acc + point_records(10, v.p1)) =~= (start + acc) + point_records(10, v.p1));
        acc = acc + point_records(10, v.p1);
    }
    let ghost prev = pairs_view(out@);
    emit_point(out, 11, e.p2);
    assert(pairs_view(out@) =~= prev + point_records(11, v.p2));
    proof {
        assert(start + (acc + point_records(11, v.p2)) =~= (start + acc) + point_records(11, v.p2));
        acc = acc + point_records(11, v.p2);
    }
    let ghost prev = pairs_view(out@);
    emit_point_unless_z_axis(out, 210, e.extrusion_direction);
    assert(pairs_view(out@) =~= prev + (if !is_z_axis(v.extrusion_direction) { point_records(210, v.extrusion_direction) } else { Seq::empty() }));
    proof {
        assert(start + (acc + (if !is_z_axis(v.extrusion_direction) { point_records(210, v.extrusion_direction) } else { Seq::empty() })) =~= (start + acc) + (if !is_z_axis(v.extrusion_direction) { point_records(210, v.extrusion_direction) } else { Seq::empty() }));
        acc = acc + (if !is_z_axis(v.extrusion_direction) { point_records(210, v.extrusion_direction) } else { Seq::empty() });
    }
}

/// The records that describe a `Circle`'s own fields in the given version.
pub open spec fn circle_records(v: Circle, version: AcadVersion) -> Seq<CodePairView> {
    seq![rec(100, ValueView::Str("AcDbCircle"@))]
        + (if !is_zero_real(v.thickness) { seq![rec(39, ValueView::Double(v.thickness))] } else { Seq::empty() })
        + point_records(10, v.center)
        + seq![rec(40, ValueView::Double(v.radius))]
        + (if !is_z_axis(v.normal) { point_records(210, v.normal) } else { Seq::empty() })
}

/// Writes a `Circle`'s own fields.
#[verifier::rlimit(60)]
pub fn write_circle(e: &Circle, version: AcadVersion, out: &mut Vec<CodePair>)
    ensures
        pairs_view(final(out)@) == pairs_view(old(out)@) + circle_records(*e, version),
{
    let ghost start = pairs_view(out@);
    let ghost v = *e;
    let ghost mut acc: Seq<CodePairView> = Seq::empty();
    let ghost prev = pairs_view(out@);
    emit(out, CodePair::new_str(100, "AcDbCircle"));
    assert(pairs_view(out@) =~= prev + seq![rec(100, ValueView::Str("AcDbCircle"@))]);
    proof {
        acc = seq![rec(100, ValueView::Str("AcDbCircle"@))];
        assert(pairs_view(out@) =~= start + acc);
    }
    let ghost prev = pairs_view(out@);
    emit_real_unless_zero(out, 39, e.thickness);
    assert(pairs_view(out@) =~= prev + (if !is_zero_real(v.thickness) { seq![rec(39, ValueView::Double(v.thickness))] } else { Seq::empty() }));
    proof {
        assert(start + (acc + (if !is_zero_real(v.thickness) { seq![rec(39, ValueView::Double(v.thickness))] } else { Seq::empty() })) =~= (start + acc) + (if !is_zero_real(v.thickness) { seq![rec(39, ValueView::Double(v.thickness))] } else { Seq::empty() }));
        acc = acc + (if !is_zero_real(v.thickness) { seq![rec(39, ValueView::Double(v.thickness))] } else { Seq::empty() });
    }
    let ghost prev = pairs_view(out@);
    emit_point(out, 10, e.center);
    assert(pairs_view(out@) =~= prev + point_records(10, v.center));
    proof {
        assert(start + (acc + point_records(10, v.center)) =~= (start + acc) + point_records(10, v.center));
        acc = acc + point_records(10, v.center);
    }
    let ghost prev = pairs_view(out@);
    emit(out, CodePair::new_real(40, e.radius));
    assert(pairs_view(out@) =~= prev + seq![rec(40, ValueView::Double(v.radius))]);
    proof {
        assert(start + (acc + seq![rec(40, ValueView::Double(v.radius))]) =~= (start + acc) + seq![rec(40, ValueView::Double(v.radius))]);
        acc = acc + seq![rec(40, ValueView::Double(v.radius))];
    }
    let ghost prev = pairs_view(out@);
    emit_point_unless_z_axis(out, 210, e.normal);
    assert(pairs_view(out@) =~= prev + (if !is_z_axis(v.normal) { point_records(210, v.normal) } else { Seq::empty() }));
    proof {
        assert(start + (acc + (if !is_z_axis(v.normal) { point_records(210, v.normal) } else { Seq::empty() })) =~= (start + acc) + (if !is_z_axis(v.normal) { point_records(210, v.normal) } else { Seq::empty() }));
        acc = acc + (if !is_z_axis(v.normal) { point_records(210, v.normal) } else { Seq::empty() });
    }
}

/// One part of the records of a `Arc`.
pub open spec fn arc_1_records(v: Arc, version: AcadVersion) -> Seq<CodePairView> {
    seq![rec(100, ValueView::Str("AcDbCircle"@))]
        + (if !is_zero_real(v.thickness) { seq![rec(39, ValueView::Double(v.thickness))] } else { Seq::empty() })
        + point_records(10, v.center)
        + seq![rec(40, ValueView::Double(v.radius))]
        + (if !is_z_axis(v.normal) { point_records(210, v.normal) } else { Seq::empty() })
        + seq![rec(100, ValueView::Str("AcDbArc"@))]
}

/// Writes one part of a `Arc`'s own fields.
#[verifier::rlimit(60)]
pub fn write_arc_1(e: &Arc, version: AcadVersion, out: &mut Vec<CodePair>)
    ensures
        pairs_view(final(out)@) == pairs_view(old(out)@) + arc_1_records(*e, version),
{
    let ghost start = pairs_view(out@);
    let ghost v = *e;
    let ghost mut acc: Seq<CodePairView> = Seq::empty();
    let ghost prev = pairs_view(out@);
    emit(out, CodePair::new_str(100, "AcDbCircle"));
    assert(pairs_view(out@) =~= prev + seq![rec(100, ValueView::Str("AcDbCircle"@))]);
    proof {
        acc = seq![rec(100, ValueView::Str("AcDbCircle"@))];
        assert(pairs_view(out@) =~= start + acc);
    }
    let ghost prev = pairs_view(out@);
    emit_real_unless_zero(out, 39, e.thickness);
    assert(pairs_view(out@) =~= prev + (if !is_zero_real(v.thickness) { seq![rec(39, ValueView::Double(v.thickness))] } else { Seq::empty() }));
    proof {
        assert(start + (acc + (if !is_zero_real(v.thickness) { seq![rec(39, ValueView::Double(v.thickness))] } else { Seq::empty() })) =~= (start + acc) + (if !is_zero_real(v.thickness) { seq![rec(39, ValueView::Double(v.thickness))] } else { Seq::empty() }));
        acc = acc + (if !is_zero_real(v.thickness) { seq![rec(39, ValueView::Double(v.thickness))] } else { Seq::empty() });
    }
    let ghost prev = pairs_view(out@);
    emit_point(out, 10, e.center);
    assert(pairs_view(out@) =~= prev + point_records(10, v.center));
    proof {
        assert(start + (acc + point_records(10, v.center)) =~= (start + acc) + point_records(10, v.center));
        acc = acc + point_records(10, v.center);
    }
    let ghost prev = pairs_view(out@);
    emit(out, CodePair::new_real(40, e.radius));
    assert(pairs_view(out@) =~= prev + seq![rec(40, ValueView::Double(v.radius))]);
    proof {
        assert(start + (acc + seq![rec(40, ValueView::Double(v.radius))]) =~= (start + acc) + seq![rec(40, ValueView::Double(v.radius))]);
        acc = acc + seq![rec(40, ValueView::Double(v.radius))];
    }
    let ghost prev = pairs_view(out@);
    emit_point_unless_z_axis(out, 210, e.normal);
    assert(pairs_view(out@) =~= prev + (if !is_z_axis(v.normal) { point_records(210, v.normal) } else { Seq::empty() }));
    proof {
        assert(start + (acc + (if !is_z_axis(v.normal) { point_records(210, v.normal) } else { Seq::empty() })) =~= (start + acc) + (if !is_z_axis(v.normal) { point_records(210, v.normal) } else { Seq::empty() }));
        acc = acc + (if !is_z_axis(v.normal) { point_records(210, v.normal) } else { Seq::empty() });
    }
    let ghost prev = pairs_view(out@);
    emit(out, CodePair::new_str(100, "AcDbArc"));
    assert(pairs_view(out@) =~= prev + seq![rec(100, ValueView::Str("AcDbArc"@))]);
    proof {
        assert(start + (acc + seq![rec(100, ValueView::Str("AcDbArc"@))]) =~= (start + acc) + seq![rec(100, ValueView::Str("AcDbArc"@))]);
        acc = acc + seq![rec(100, ValueView::Str("AcDbArc"@))];
    }
}

/// One part of the records of a `Arc`.
pub open spec fn arc_2_records(v: Arc, version: AcadVersion) -> Seq<CodePairView> {
    seq![rec(50, ValueView::Double(v.start_angle))]
        + seq![rec(51, ValueView::Double(v.end_angle))]
}

/// Writes one part of a `Arc`'s own fields.
pub fn write_arc_2(e: &Arc, version: AcadVersion, out: &mut Vec<CodePair>)
    ensures
        pairs_view(final(out)@) == pairs_view(old(out)@) + arc_2_records(*e, version),
{
    let ghost start = pairs_view(out@);
    let ghost v = *e;
    let ghost mut acc: Seq<CodePairView> = Seq::empty();
    let ghost prev = pairs_view(out@);
    emit(out, CodePair::new_real(50, e.start_angle));
    assert(pairs_view(out@) =~= prev + seq![rec(50, ValueView::Double(v.start_angle))]);
    proof {
        acc = seq![rec(50, ValueView::Double(v.start_angle))];
        assert(pairs_view(out@) =~= start + acc);
    }
    let ghost prev = pairs_view(out@);
    emit(out, CodePair::new_real(51, e.end_angle));
    assert(pairs_view(out@) =~= prev + seq![rec(51, ValueView::Double(v.end_angle))]);
    proof {
        assert(start + (acc + seq![rec(51, ValueView::Double(v.end_angle))]) =~= (start + acc) + seq![rec(51, ValueView::Double(v.end_angle))]);
        acc = acc + seq![rec(51, ValueView::Double(v.end_angle))];
    }
}

/// The records that describe a `Arc`'s own fields in the given version.
pub open spec fn arc_records(v: Arc, version: AcadVersion) -> Seq<CodePairView> {
    arc_1_records(v, version)
        + arc_2_records(v, version)
}

/// Writes a `Arc`'s own fields.
pub fn write_arc(e: &Arc, version: AcadVersion, out: &mut Vec<CodePair>)
    ensures
        pairs_view(final(out)@) == pairs_view(old(out)@) + arc_records(*e, version),
{
    let ghost start = pairs_view(out@);
    let ghost v = *e;
    let ghost mut acc: Seq<CodePairView> = Seq::empty();
    let ghost prev = pairs_view(out@);
    write_arc_1(e, version, out);
    assert(pairs_view(out@) =~= prev + arc_1_records(v, version));
    proof {
        acc = arc_1_records(v, version);
        assert(pairs_view(out@) =~= start + acc);
    }
    let ghost prev = pairs_view(out@);
    write_arc_2(e, version, out);
    assert(pairs_view(out@) =~= prev + arc_2_records(v, version));
    proof {
        assert(start + (acc + arc_2_records(v, version)) =~= (start + acc) + arc_2_records(v, version));
        acc = acc + arc_2_records(v, version);
    }
}

/// The records that describe a `Face3D`'s own fields in the given version.
pub open spec fn face3d_records(v: Face3D, version: AcadVersion) -> Seq<CodePairView> {
    seq![rec(100, ValueView::Str("AcDbFace"@))]
        + point_records(10, v.first_corner)
        + point_records(11, v.second_corner)
        + point_records(12, v.third_corner)
        + point_records(13, v.fourth_corner)
        + (if v.edge_flags != 0 { seq![rec(70, ValueView::Short(v.edge_flags as i16))] } else { Seq::empty() })
}

/// Writes a `Face3D`'s own fields.
#[verifier::rlimit(60)]
pub fn write_face3d(e: &Face3D, version: AcadVersion, out: &mut Vec<CodePair>)
    ensures
        pairs_view(final(out)@) == pairs_view(old(out)@) + face3d_records(*e, version),
{
    let ghost start = pairs_view(out@);
    let ghost v = *e;
    let ghost mut acc: Seq<CodePairView> = Seq::empty();
    let ghost prev = pairs_view(out@);
    emit(out, CodePair::new_str(100, "AcDbFace"));
    assert(pairs_view(out@) =~= prev + seq![rec(100, ValueView::Str("AcDbFace"@))]);
    proof {
        acc = seq![rec(100, ValueView::Str("AcDbFace"@))];
        assert(pairs_view(out@) =~= start + acc);
    }
    let ghost prev = pairs_view(out@);
    emit_point(out, 10, e.first_corner);
    assert(pairs_view(out@) =~= prev + point_records(10, v.first_corner));
    proof {
        assert(start + (acc + point_records(10, v.first_corner)) =~= (start + acc) + point_records(10, v.first_corner));
        acc = acc + point_records(10, v.first_corner);
    }
    let ghost prev = pairs_view(out@);
    emit_point(out, 11, e.second_corner);
    assert(pairs_view(out@) =~= prev + point_records(11, v.second_corner));
    proof {
        assert(start + (acc + point_records(11, v.second_corner)) =~= (start + acc) + point_records(11, v.second_corner));
        acc = acc + point_records(11, v.second_corner);
    }
    let ghost prev = pairs_view(out@);
    emit_point(out, 12, e.third_corner);
    assert(pairs_view(out@) =~= prev + point_records(12, v.third_corner));
    proof {
        assert(start + (acc + point_records(12, v.third_corner)) =~= (start + acc) + point_records(12, v.third_corner));
        acc = acc + point_records(12, v.third_corner);
    }
    let ghost prev = pairs_view(out@);
    emit_point(out, 13, e.fourth_corner);
    assert(pairs_view(out@) =~= prev + point_records(13, v.fourth_corner));
    proof {
        assert(start + (acc + point_records(13, v.fourth_corner)) =~= (start + acc) + point_records(13, v.fourth_corner));
        acc = acc + point_records(13, v.fourth_corner);
    }
    let ghost prev = pairs_view(out@);
    emit_int_as_short_unless_zero(out, 70, e.edge_flags);
    assert(pairs_view(out@) =~= prev + (if v.edge_flags != 0 { seq![rec(70, ValueView::Short(v.edge_flags as i16))] } else { Seq::empty() }));
    proof {
        assert(start + (acc + (if v.edge_flags != 0 { seq![rec(70, ValueView::Short(v.edge_flags as i16))] } else { Seq::empty() })) =~= (start + acc) + (if v.edge_flags != 0 { seq![rec(70, ValueView::Short(v.edge_flags as i16))] } else { Seq::empty() }));
        acc = acc + (if v.edge_flags != 0 { seq![rec(70, ValueView::Short(v.edge_flags as i16))] } else { Seq::empty() });
    }
}

/// The records that describe a `Solid`'s own fields in the given version.
pub open spec fn solid_records(v: Solid, version: AcadVersion) -> Seq<CodePairView> {
    seq![rec(100, ValueView::Str("AcDbTrace"@))]
        + point_records(10, v.first_corner)
        + point_records(11, v.second_corner)
        + point_records(12, v.third_corner)
        + point_records(13, v.fourth_corner)
        + (if !is_zero_real(v.thickness) { seq![rec(39, ValueView::Double(v.thickness))] } else { Seq::empty() })
        + (if !is_z_axis(v.extrusion_direction) { point_records(210, v.extrusion_direction) } else { Seq::empty() })
}

/// Writes a `Solid`'s own fields.
#[verifier::rlimit(60)]
pub fn write_solid(e: &Solid, version: AcadVersion, out: &mut Vec<CodePair>)
    ensures
        pairs_view(final(out)@) == pairs_view(old(out)@) + solid_records(*e, version),
{
    let ghost start = pairs_view(out@);
    let ghost v = *e;
    let ghost mut acc: Seq<CodePairView> = Seq::empty();
    let ghost prev = pairs_view(out@);
    emit(out, CodePair::new_str(100, "AcDbTrace"));
    assert(pairs_view(out@) =~= prev + seq![rec(100, ValueView::Str("AcDbTrace"@))]);
    proof {
        acc = seq![rec(100, ValueView::Str("AcDbTrace"@))];
        assert(pairs_view(out@) =~= start + acc);
    }
    let ghost prev = pairs_view(out@);
    emit_point(out, 10, e.first_corner);
    assert(pairs_view(out@) =~= prev + point_records(10, v.first_corner));
    proof {
        assert(start + (acc + point_records(10, v.first_corner)) =~= (start + acc) + point_records(10, v.first_corner));
        acc = acc + point_records(10, v.first_corner);
    }
    let ghost prev = pairs_view(out@);
    emit_point(out, 11, e.second_corner);
    assert(pairs_view(out@) =~= prev + point_records(11, v.second_corner));
    proof {
        assert(start + (acc + point_records(11, v.second_corner)) =~= (start + acc) + point_records(11, v.second_corner));
        acc = acc + point_records(11, v.second_corner);
    }
    let ghost prev = pairs_view(out@);
    emit_point(out, 12, e.third_corner);
    assert(pairs_view(out@) =~= prev + point_records(12, v.third_corner));
    proof {
        assert(start + (acc + point_records(12, v.third_corner)) =~= (start + acc) + point_records(12, v.third_corner));
        acc = acc + point_records(12, v.third_corner);
    }
    let ghost prev = pairs_view(out@);
    emit_point(out, 13, e.fourth_corner);
    assert(pairs_view(out@) =~= prev + point_records(13, v.fourth_corner));
    proof {
        assert(start + (acc + point_records(13, v.fourth_corner)) =~= (start + acc) + point_records(13, v.fourth_corner));
        acc = acc + point_records(13, v.fourth_corner);
    }
    let ghost prev = pairs_view(out@);
    emit_real_unless_zero(out, 39, e.thickness);
    assert(pairs_view(out@) =~= prev + (if !is_zero_real(v.thickness) { seq![rec(39, ValueView::Double(v.thickness))] } else { Seq::empty() }));
    proof {
        assert(start + (acc + (if !is_zero_real(v.thickness) { seq![rec(39, ValueView::Double(v.thickness))] } else { Seq::empty() })) =~= (start + acc) + (if !is_zero_real(v.thickness) { seq![rec(39, ValueView::Double(v.thickness))] } else { Seq::empty() }));
        acc = acc + (if !is_zero_real(v.thickness) { seq![rec(39, ValueView::Double(v.thickness))] } else { Seq::empty() });
    }
    let ghost prev = pairs_view(out@);
    emit_point_unless_z_axis(out, 210, e.extrusion_direction);
    assert(pairs_view(out@) =~= prev + (if !is_z_axis(v.extrusion_direction) { point_records(210, v.extrusion_direction) } else { Seq::empty() }));
    proof {
        assert(start + (acc + (if !is_z_axis(v.extrusion_direction) { point_records(210, v.extrusion_direction) } else { Seq::empty() })) =~= (start + acc) + (if !is_z_axis(v.extrusion_direction) { point_records(210, v.extrusion_direction) } else { Seq::empty() }));
        acc = acc + (if !is_z_axis(v.extrusion_direction) { point_records(210, v.extrusion_direction) } else { Seq::empty() });
    }
}

/// The records that describe a `Trace`'s own fields in the given version.
pub open spec fn trace_records(v: Trace, version: AcadVersion) -> Seq<CodePairView> {
    seq![rec(100, ValueView::Str("AcDbTrace"@))]
        + point_records(10, v.first_corner)
        + point_records(11, v.second_corner)
        + point_records(12, v.third_corner)
        + point_records(13, v.fourth_corner)
        + (if !is_zero_real(v.thickness) { seq![rec(39, ValueView::Double(v.thickness))] } else { Seq::empty() })
        + (if !is_z_axis(v.extrusion_direction) { point_records(210, v.extrusion_direction) } else { Seq::empty() })
}

/// Writes a `Trace`'s own fields.
#[verifier::rlimit(60)]
pub fn write_trace(e: &Trace, version: AcadVersion, out: &mut Vec<CodePair>)
    ensures
        pairs_view(final(out)@) == pairs_view(old(out)@) + trace_records(*e, version),
{
    let ghost start = pairs_view(out@);
    let ghost v = *e;
    let ghost mut acc: Seq<CodePairView> = Seq::empty();
    let ghost prev = pairs_view(out@);
    emit(out, CodePair::new_str(100, "AcDbTrace"));
    assert(pairs_view(out@) =~= prev + seq![rec(100, ValueView::Str("AcDbTrace"@))]);
    proof {
        acc = seq![rec(100, ValueView::Str("AcDbTrace"@))];
        assert(pairs_view(out@) =~= start + acc);
    }
    let ghost prev = pairs_view(out@);
    emit_point(out, 10, e.first_corner);
    assert(pairs_view(out@) =~= prev + point_records(10, v.first_corner));
    proof {
        assert(start + (acc + point_records(10, v.first_corner)) =~= (start + acc) + point_records(10, v.first_corner));
        acc = acc + point_records(10, v.first_corner);
    }
    let ghost prev = pairs_view(out@);
    emit_point(out, 11, e.second_corner);
    assert(pairs_view(out@) =~= prev + point_records(11, v.second_corner));
    proof {
        assert(start + (acc + point_records(11, v.second_corner)) =~= (start + acc) + point_records(11, v.second_corner));
        acc = acc + point_records(11, v.second_corner);
    }
    let ghost prev = pairs_view(out@);
    emit_point(out, 12, e.third_corner);
    assert(pairs_view(out@) =~= prev + point_records(12, v.third_corner));
    proof {
        assert(start + (acc + point_records(12, v.third_corner)) =~= (start + acc) + point_records(12, v.third_corner));
        acc = acc + point_records(12, v.third_corner);
    }
    let ghost prev = pairs_view(out@);
    emit_point(out, 13, e.fourth_corner);
    assert(pairs_view(out@) =~= prev + point_records(13, v.fourth_corner));
    proof {
        assert(start + (acc + point_records(13, v.fourth_corner)) =~= (start + acc) + point_records(13, v.fourth_corner));
        acc = acc + point_records(13, v.fourth_corner);
    }
    let ghost prev = pairs_view(out@);
    emit_real_unless_zero(out, 39, e.thickness);
    assert(pairs_view(out@) =~= prev + (if !is_zero_real(v.thickness) { seq![rec(39, ValueView::Double(v.thickness))] } else { Seq::empty() }));
    proof {
        assert(start + (acc + (if !is_zero_real(v.thickness) { seq![rec(39, ValueView::Double(v.thickness))] } else { Seq::empty() })) =~= (start + acc) + (if !is_zero_real(v.thickness) { seq![rec(39, ValueView::Double(v.thickness))] } else { Seq::empty() }));
        acc = acc + (if !is_zero_real(v.thickness) { seq![rec(39, ValueView::Double(v.thickness))] } else { Seq::empty() });
    }
    let ghost prev = pairs_view(out@);
    emit_point_unless_z_axis(out, 210, e.extrusion_direction);
    assert(pairs_view(out@) =~= prev + (if !is_z_axis(v.extrusion_direction) { point_records(210, v.extrusion_direction) } else { Seq::empty() }));
    proof {
        assert(start + (acc + (if !is_z_axis(v.extrusion_direction) { point_records(210, v.extrusion_direction) } else { Seq::empty() })) =~= (start + acc) + (if !is_z_axis(v.extrusion_direction) { point_records(210, v.extrusion_direction) } else { Seq::empty() }));
        acc = acc + (if !is_z_axis(v.extrusion_direction) { point_records(210, v.extrusion_direction) } else { Seq::empty() });
    }
}

/// The records that describe a `ModelPoint`'s own fields in the given version.
pub open spec fn model_point_records(v: ModelPoint, version: AcadVersion) -> Seq<CodePairView> {
    seq![rec(100, ValueView::Str("AcDbPoint"@))]
        + point_records(10, v.location)
        + (if !is_zero_real(v.thickness) { seq![rec(39, ValueView::Double(v.thickness))] } else { Seq::empty() })
        + (if !is_z_axis(v.extrusion_direction) { point_records(210, v.extrusion_direction) } else { Seq::empty() })
        + (if !is_zero_real(v.angle) { seq![rec(50, ValueView::Double(v.angle))] } else { Seq::empty() })
}

/// Writes a `ModelPoint`'s own fields.
#[verifier::rlimit(60)]
pub fn write_model_point(e: &ModelPoint, version: AcadVersion, out: &mut Vec<CodePair>)
    ensures
        pairs_view(final(out)@) == pairs_view(old(out)@) + model_point_records(*e, version),
{
    let ghost start = pairs_view(out@);
    let ghost v = *e;
    let ghost mut acc: Seq<CodePairView> = Seq::empty();
    let ghost prev = pairs_view(out@);
    emit(out, CodePair::new_str(100, "AcDbPoint"));
    assert(pairs_view(out@) =~= prev + seq![rec(100, ValueView::Str("AcDbPoint"@))]);
    proof {
        acc = seq![rec(100, ValueView::Str("AcDbPoint"@))];
        assert(pairs_view(out@) =~= start + acc);
    }
    let ghost prev = pairs_view(out@);
    emit_point(out, 10, e.location);
    assert(pairs_view(out@) =~= prev + point_records(10, v.location));
    proof {
        assert(start + (acc + point_records(10, v.location)) =~= (start + acc) + point_records(10, v.location));
        acc = acc + point_records(10, v.location);
    }
    let ghost prev = pairs_view(out@);
    emit_real_unless_zero(out, 39, e.thickness);
    assert(pairs_view(out@) =~= prev + (if !is_zero_real(v.thickness) { seq![rec(39, ValueView::Double(v.thickness))] } else { Seq::empty() }));
    proof {
        assert(start + (acc + (if !is_zero_real(v.thickness) { seq![rec(39, ValueView::Double(v.thickness))] } else { Seq::empty() })) =~= (start + acc) + (if !is_zero_real(v.thickness) { seq![rec(39, ValueView::Double(v.thickness))] } else { Seq::empty() }));
        acc = acc + (if !is_zero_real(v.thickness) { seq![rec(39, ValueView::Double(v.thickness))] } else { Seq::empty() });
    }
    let ghost prev = pairs_view(out@);
    emit_point_unless_z_axis(out, 210, e.extrusion_direction);
    assert(pairs_view(out@) =~= prev + (if !is_z_axis(v.extrusion_direction) { point_records(210, v.extrusion_direction) } else { Seq::empty() }));
    proof {
        assert(start + (acc + (if !is_z_axis(v.extrusion_direction) { point_records(210, v.extrusion_direction) } else { Seq::empty() })) =~= (start + acc) + (if !is_z_axis(v.extrusion_direction) { point_records(210, v.extrusion_direction) } else { Seq::empty() }));
        acc = acc + (if !is_z_axis(v.extrusion_direction) { point_records(210, v.extrusion_direction) } else { Seq::empty() });
    }
    let ghost prev = pairs_view(out@);
    emit_real_unless_zero(out, 50, e.angle);
    assert(pairs_view(out@) =~= prev + (if !is_zero_real(v.angle) { seq![rec(50, ValueView::Double(v.angle))] } else { Seq::empty() }));
    proof {
        assert(start + (acc + (if !is_zero_real(v.angle) { seq![rec(50, ValueView::Double(v.angle))] } else { Seq::empty() })) =~= (start + acc) + (if !is_zero_real(v.angle) { seq![rec(50, ValueView::Double(v.angle))] } else { Seq::empty() }));
        acc = acc + (if !is_zero_real(v.angle) { seq![rec(50, ValueView::Double(v.angle))] } else { Seq::empty() });
    }
}

/// The records that describe a `ProxyEntity`'s own fields in the given version.
pub open spec fn proxy_entity_records(v: ProxyEntity, version: AcadVersion) -> Seq<CodePairView> {
    seq![rec(100, ValueView::Str("AcDbProxyEntity"@))]
        + seq![rec(90, ValueView::Integer(v.proxy_entity_class_id))]
        + seq![rec(91, ValueView::Integer(v.application_entity_class_id))]
        + (if version.spec_at_least(AcadVersion::R2000) { seq![rec(95, ValueView::Integer(v.object_drawing_format as i32))] } else { Seq::empty() })
}

/// Writes a `ProxyEntity`'s own fields.
pub fn write_proxy_entity(e: &ProxyEntity, version: AcadVersion, out: &mut Vec<CodePair>)
    ensures
        pairs_view(final(out)@) == pairs_view(old(out)@) + proxy_entity_records(*e, version),
{
    let ghost start = pairs_view(out@);
    let ghost v = *e;
    let ghost mut acc: Seq<CodePairView> = Seq::empty();
    let ghost prev = pairs_view(out@);
    emit(out, CodePair::new_str(100, "AcDbProxyEntity"));
    assert(pairs_view(out@) =~= prev + seq![rec(100, ValueView::Str("AcDbProxyEntity"@))]);
    proof {
        acc = seq![rec(100, ValueView::Str("AcDbProxyEntity"@))];
        assert(pairs_view(out@) =~= start + acc);
    }
    let ghost prev = pairs_view(out@);
    emit(out, CodePair::new_i32(90, e.proxy_entity_class_id));
    assert(pairs_view(out@) =~= prev + seq![rec(90, ValueView::Integer(v.proxy_entity_class_id))]);
    proof {
        assert(start + (acc + seq![rec(90, ValueView::Integer(v.proxy_entity_class_id))]) =~= (start + acc) + seq![rec(90, ValueView::Integer(v.proxy_entity_class_id))]);
        acc = acc + seq![rec(90, ValueView::Integer(v.proxy_entity_class_id))];
    }
    let ghost prev = pairs_view(out@);
    emit(out, CodePair::new_i32(91, e.application_entity_class_id));
    assert(pairs_view(out@) =~= prev + seq![rec(91, ValueView::Integer(v.application_entity_class_id))]);
    proof {
        assert(start + (acc + seq![rec(91, ValueView::Integer(v.application_entity_class_id))]) =~= (start + acc) + seq![rec(91, ValueView::Integer(v.application_entity_class_id))]);
        acc = acc + seq![rec(91, ValueView::Integer(v.application_entity_class_id))];
    }
    let ghost prev = pairs_view(out@);
    write_proxy_entity_part_3(e, version, out);
    assert(pairs_view(out@) =~= prev + (if version.spec_at_least(AcadVersion::R2000) { seq![rec(95, ValueView::Integer(v.object_drawing_format as i32))] } else { Seq::empty() }));
    proof {
        assert(start + (acc + (if version.spec_at_least(AcadVersion::R2000) { seq![rec(95, ValueView::Integer(v.object_drawing_format as i32))] } else { Seq::empty() })) =~= (start + acc) + (if version.spec_at_least(AcadVersion::R2000) { seq![rec(95, ValueView::Integer(v.object_drawing_format as i32))] } else { Seq::empty() }));
        acc = acc + (if version.spec_at_least(AcadVersion::R2000) { seq![rec(95, ValueView::Integer(v.object_drawing_format as i32))] } else { Seq::empty() });
    }
}

fn write_proxy_entity_part_3(e: &ProxyEntity, version: AcadVersion, out: &mut Vec<CodePair>)
    ensures
        pairs_view(final(out)@) == pairs_view(old(out)@) + ((if version.spec_at_least(AcadVersion::R2000) { seq![rec(95, ValueView::Integer(e.object_drawing_format as i32))] } else { Seq::empty() })),
{
    let ghost start = pairs_view(out@);
    if version.at_least(AcadVersion::R2000) {
        let ghost prev0 = pairs_view(out@);
        emit(out, CodePair::new_i32(95, e.object_drawing_format as i32));
        assert(pairs_view(out@) =~= prev0 + seq![rec(95, ValueView::Integer(e.object_drawing_format as i32))]);
        assert(pairs_view(out@) =~= start + ((if version.spec_at_least(AcadVersion::R2000) { seq![rec(95, ValueView::Integer(e.object_drawing_format as i32))] } else { Seq::empty() })));
    } else {
        assert(pairs_view(out@) =~= start + ((if version.spec_at_least(AcadVersion::R2000) { seq![rec(95, ValueView::Integer(e.object_drawing_format as i32))] } else { Seq::empty() })));
    }
}

/// The records that describe a `Solid3D`'s own fields in the given version.
pub open spec fn solid3d_records(v: Solid3DView, version: AcadVersion) -> Seq<CodePairView> {
    seq![rec(100, ValueView::Str("AcDbModelerGeometry"@))]
        + seq![rec(70, ValueView::Short(v.format_version))]
        + strings_records(1, v.custom_data)
        + strings_records(3, v.custom_data2)
        + (if version.spec_at_least(AcadVersion::R2007) { seq![rec(100, ValueView::Str("AcDb3dSolid"@))] + seq![rec(350, ValueView::Handle(v.history_object_handle))] } else { Seq::empty() })
}

/// Writes a `Solid3D`'s own fields.
#[verifier::rlimit(60)]
pub fn write_solid3d(e: &Solid3D, version: AcadVersion, out: &mut Vec<CodePair>)
    ensures
        pairs_view(final(out)@) == pairs_view(old(out)@) + solid3d_records(e@, version),
{
    let ghost start = pairs_view(out@);
    let ghost v = e@;
    let ghost mut acc: Seq<CodePairView> = Seq::empty();
    let ghost prev = pairs_view(out@);
    emit(out, CodePair::new_str(100, "AcDbModelerGeometry"));
    assert(pairs_view(out@) =~= prev + seq![rec(100, ValueView::Str("AcDbModelerGeometry"@))]);
    proof {
        acc = seq![rec(100, ValueView::Str("AcDbModelerGeometry"@))];
        assert(pairs_view(out@) =~= start + acc);
    }
    let ghost prev = pairs_view(out@);
    emit(out, CodePair::new_i16(70, e.format_version));
    assert(pairs_view(out@) =~= prev + seq![rec(70, ValueView::Short(v.format_version))]);
    proof {
        assert(start + (acc + seq![rec(70, ValueView::Short(v.format_version))]) =~= (start + acc) + seq![rec(70, ValueView::Short(v.format_version))]);
        acc = acc + seq![rec(70, ValueView::Short(v.format_version))];
    }
    let ghost prev = pairs_view(out@);
    emit_strings(out, 1, &e.custom_data);
    assert(pairs_view(out@) =~= prev + strings_records(1, v.custom_data));
    proof {
        assert(start + (acc + strings_records(1, v.custom_data)) =~= (start + acc) + strings_records(1, v.custom_data));
        acc = acc + strings_records(1, v.custom_data);
    }
    let ghost prev = pairs_view(out@);
    emit_strings(out, 3, &e.custom_data2);
    assert(pairs_view(out@) =~= prev + strings_records(3, v.custom_data2));
    proof {
        assert(start + (acc + strings_records(3, v.custom_data2)) =~= (start + acc) + strings_records(3, v.custom_data2));
        acc = acc + strings_records(3, v.custom_data2);
    }
    let ghost prev = pairs_view(out@);
    write_solid3d_part_4(e, version, out);
    assert(pairs_view(out@) =~= prev + (if version.spec_at_least(AcadVersion::R2007) { seq![rec(100, ValueView::Str("AcDb3dSolid"@))] + seq![rec(350, ValueView::Handle(v.history_object_handle))] } else { Seq::empty() }));
    proof {
        assert(start + (acc + (if version.spec_at_least(AcadVersion::R2007) { seq![rec(100, ValueView::Str("AcDb3dSolid"@))] + seq![rec(350, ValueView::Handle(v.history_object_handle))] } else { Seq::empty() })) =~= (start + acc) + (if version.spec_at_least(AcadVersion::R2007) { seq![rec(100, ValueView::Str("AcDb3dSolid"@))] + seq![rec(350, ValueView::Handle(v.history_object_handle))] } else { Seq::empty() }));
        acc = acc + (if version.spec_at_least(AcadVersion::R2007) { seq![rec(100, ValueView::Str("AcDb3dSolid"@))] + seq![rec(350, ValueView::Handle(v.history_object_handle))] } else { Seq::empty() });
    }
}

fn write_solid3d_part_4(e: &Solid3D, version: AcadVersion, out: &mut Vec<CodePair>)
    ensures
        pairs_view(final(out)@) == pairs_view(old(out)@) + ((if version.spec_at_least(AcadVersion::R2007) { seq![rec(100, ValueView::Str("AcDb3dSolid"@))] + seq![rec(350, ValueView::Handle(e@.history_object_handle))] } else { Seq::empty() })),
{
    let ghost start = pairs_view(out@);
    if version.at_least(AcadVersion::R2007) {
        let ghost prev0 = pairs_view(out@);
        emit(out, CodePair::new_str(100, "AcDb3dSolid"));
        assert(pairs_view(out@) =~= prev0 + seq![rec(100, ValueView::Str("AcDb3dSolid"@))]);
        let ghost prev1 = pairs_view(out@);
        emit(out, CodePair::new_handle(350, e.history_object_handle));
        assert(pairs_view(out@) =~= prev1 + seq![rec(350, ValueView::Handle(e@.history_object_handle))]);
        assert(pairs_view(out@) =~= start + ((if version.spec_at_least(AcadVersion::R2007) { seq![rec(100, ValueView::Str("AcDb3dSolid"@))] + seq![rec(350, ValueView::Handle(e@.history_object_handle))] } else { Seq::empty() })));
    } else {
        assert(pairs_view(out@) =~= start + ((if version.spec_at_least(AcadVersion::R2007) { seq![rec(100, ValueView::Str("AcDb3dSolid"@))] + seq![rec(350, ValueView::Handle(e@.history_object_handle))] } else { Seq::empty() })));
    }
}

/// One part of the records of a `Image`.
pub open spec fn image_1_records(v: ImageView, version: AcadVersion) -> Seq<CodePairView> {
    seq![rec(100, ValueView::Str("AcDbRasterImage"@))]
        + point_records(10, v.location)
        + seq![rec(340, ValueView::Handle(v.image_def_handle))]
        + seq![rec(70, ValueView::Short(v.display_options_flags as i16))]
        + seq![rec(280, ValueView::Short(if v.clipping_state { 1 } else { 0 }))]
        + seq![rec(281, ValueView::Short(v.brightness))]
}

/// Writes one part of a `Image`'s own fields.
#[verifier::rlimit(60)]
pub fn write_image_1(e: &Image, version: AcadVersion, out: &mut Vec<CodePair>)
    ensures
        pairs_view(final(out)@) == pairs_view(old(out)@) + image_1_records(e@, version),
{
    let ghost start = pairs_view(out@);
    let ghost v = e@;
    let ghost mut acc: Seq<CodePairView> = Seq::empty();
    let ghost prev = pairs_view(out@);
    emit(out, CodePair::new_str(100, "AcDbRasterImage"));
    assert(pairs_view(out@) =~= prev + seq![rec(100, ValueView::Str("AcDbRasterImage"@))]);
    proof {
        acc = seq![rec(100, ValueView::Str("AcDbRasterImage"@))];
        assert(pairs_view(out@) =~= start + acc);
    }
    let ghost prev = pairs_view(out@);
    emit_point(out, 10, e.location);
    assert(pairs_view(out@) =~= prev + point_records(10, v.location));
    proof {
        assert(start + (acc + point_records(10, v.location)) =~= (start + acc) + point_records(10, v.location));
        acc = acc + point_records(10, v.location);
    }
    let ghost prev = pairs_view(out@);
    emit(out, CodePair::new_handle(340, e.image_def_handle));
    assert(pairs_view(out@) =~= prev + seq![rec(340, ValueView::Handle(v.image_def_handle))]);
    proof {
        assert(start + (acc + seq![rec(340, ValueView::Handle(v.image_def_handle))]) =~= (start + acc) + seq![rec(340, ValueView::Handle(v.image_def_handle))]);
        acc = acc + seq![rec(340, ValueView::Handle(v.image_def_handle))];
    }
    let ghost prev = pairs_view(out@);
    emit(out, CodePair::new_i16(70, e.display_options_flags as i16));
    assert(pairs_view(out@) =~= prev + seq![rec(70, ValueView::Short(v.display_options_flags as i16))]);
    proof {
        assert(start + (acc + seq![rec(70, ValueView::Short(v.display_options_flags as i16))]) =~= (start + acc) + seq![rec(70, ValueView::Short(v.display_options_flags as i16))]);
        acc = acc + seq![rec(70, ValueView::Short(v.display_options_flags as i16))];
    }
    let ghost prev = pairs_view(out@);
    emit(out, CodePair::new_i16(280, if e.clipping_state { 1 } else { 0 }));
    assert(pairs_view(out@) =~= prev + seq![rec(280, ValueView::Short(if v.clipping_state { 1 } else { 0 }))]);
    proof {
        assert(start + (acc + seq![rec(280, ValueView::Short(if v.clipping_state { 1 } else { 0 }))]) =~= (start + acc) + seq![rec(280, ValueView::Short(if v.clipping_state { 1 } else { 0 }))]);
        acc = acc + seq![rec(280, ValueView::Short(if v.clipping_state { 1 } else { 0 }))];
    }
    let ghost prev = pairs_view(out@);
    emit(out, CodePair::new_i16(281, e.brightness));
    assert(pairs_view(out@) =~= prev + seq![rec(281, ValueView::Short(v.brightness))]);
    proof {
        assert(start + (acc + seq![rec(281, ValueView::Short(v.brightness))]) =~= (start + acc) + seq![rec(281, ValueView::Short(v.brightness))]);
        acc = acc + seq![rec(281, ValueView::Short(v.brightness))];
    }
}

/// One part of the records of a `Image`.
pub open spec fn image_2_records(v: ImageView, version: AcadVersion) -> Seq<CodePairView> {
    seq![rec(282, ValueView::Short(v.contrast))]
        + seq![rec(283, ValueView::Short(v.fade))]
        + seq![rec(71, ValueView::Short(v.clipping_type))]
        + seq![rec(91, ValueView::Integer(v.clipping_vertices.len() as i32))]
        + points_2d_records(14, 24, v.clipping_vertices)
}

/// Writes one part of a `Image`'s own fields.
#[verifier::rlimit(60)]
pub fn write_image_2(e: &Image, version: AcadVersion, out: &mut Vec<CodePair>)
    ensures
        pairs_view(final(out)@) == pairs_view(old(out)@) + image_2_records(e@, version),
{
    let ghost start = pairs_view(out@);
    let ghost v = e@;
    let ghost mut acc: Seq<CodePairView> = Seq::empty();
    let ghost prev = pairs_view(out@);
    emit(out, CodePair::new_i16(282, e.contrast));
    assert(pairs_view(out@) =~= prev + seq![rec(282, ValueView::Short(v.contrast))]);
    proof {
        acc = seq![rec(282, ValueView::Short(v.contrast))];
        assert(pairs_view(out@) =~= start + acc);
    }
    let ghost prev = pairs_view(out@);
    emit(out, CodePair::new_i16(283, e.fade));
    assert(pairs_view(out@) =~= prev + seq![rec(283, ValueView::Short(v.fade))]);
    proof {
        assert(start + (acc + seq![rec(283, ValueView::Short(v.fade))]) =~= (start + acc) + seq![rec(283, ValueView::Short(v.fade))]);
        acc = acc + seq![rec(283, ValueView::Short(v.fade))];
    }
    let ghost prev = pairs_view(out@);
    emit(out, CodePair::new_i16(71, e.clipping_type));
    assert(pairs_view(out@) =~= prev + seq![rec(71, ValueView::Short(v.clipping_type))]);
    proof {
        assert(start + (acc + seq![rec(71, ValueView::Short(v.clipping_type))]) =~= (start + acc) + seq![rec(71, ValueView::Short(v.clipping_type))]);
        acc = acc + seq![rec(71, ValueView::Short(v.clipping_type))];
    }
    let ghost prev = pairs_view(out@);
    emit(out, CodePair::new_i32(91, e.clipping_vertices.len() as i32));
    assert(pairs_view(out@) =~= prev + seq![rec(91, ValueView::Integer(v.clipping_vertices.len() as i32))]);
    proof {
        assert(start + (acc + seq![rec(91, ValueView::Integer(v.clipping_vertices.len() as i32))]) =~= (start + acc) + seq![rec(91, ValueView::Integer(v.clipping_vertices.len() as i32))]);
        acc = acc + seq![rec(91, ValueView::Integer(v.clipping_vertices.len() as i32))];
    }
    let ghost prev = pairs_view(out@);
    emit_points_2d(out, 14, 24, &e.clipping_vertices);
    assert(pairs_view(out@) =~= prev + points_2d_records(14, 24, v.clipping_vertices));
    proof {
        assert(start + (acc + points_2d_records(14, 24, v.clipping_vertices)) =~= (start + acc) + points_2d_records(14, 24, v.clipping_vertices));
        acc = acc + points_2d_records(14, 24, v.clipping_vertices);
    }
}

/// The records that describe a `Image`'s own fields in the given version.
pub open spec fn image_records(v: ImageView, version: AcadVersion) -> Seq<CodePairView> {
    image_1_records(v, version)
        + image_2_records(v, version)
}

/// Writes a `Image`'s own fields.
pub fn write_image(e: &Image, version: AcadVersion, out: &mut Vec<CodePair>)
    ensures
        pairs_view(final(out)@) == pairs_view(old(out)@) + image_records(e@, version),
{
    let ghost start = pairs_view(out@);
    let ghost v = e@;
    let ghost mut acc: Seq<CodePairView> = Seq::empty();
    let ghost prev = pairs_view(out@);
    write_image_1(e, version, out);
    assert(pairs_view(out@) =~= prev + image_1_records(v, version));
    proof {
        acc = image_1_records(v, version);
        assert(pairs_view(out@) =~= start + acc);
    }
    let ghost prev = pairs_view(out@);
    write_image_2(e, version, out);
    assert(pairs_view(out@) =~= prev + image_2_records(v, version));
    proof {
        assert(start + (acc + image_2_records(v, version)) =~= (start + acc) + image_2_records(v, version));
        acc = acc + image_2_records(v, version);
    }
}

/// The records that describe a `Leader`'s own fields in the given version.
pub open spec fn leader_records(v: LeaderView, version: AcadVersion) -> Seq<CodePairView> {
    seq![rec(100, ValueView::Str("AcDbLeader"@))]
        + seq![rec(3, ValueView::Str(v.dimension_style_name))]
        + seq![rec(71, ValueView::Short(if v.use_arrowheads { 1 } else { 0 }))]
        + seq![rec(76, ValueView::Integer(v.vertices.len() as i32))]
        + points_3d_records(10, v.vertices)
}

/// Writes a `Leader`'s own fields.
#[verifier::rlimit(60)]
pub fn write_leader(e: &Leader, version: AcadVersion, out: &mut Vec<CodePair>)
    ensures
        pairs_view(final(out)@) == pairs_view(old(out)@) + leader_records(e@, version),
{
    let ghost start = pairs_view(out@);
    let ghost v = e@;
    let ghost mut acc: Seq<CodePairView> = Seq::empty();
    let ghost prev = pairs_view(out@);
    emit(out, CodePair::new_str(100, "AcDbLeader"));
    assert(pairs_view(out@) =~= prev + seq![rec(100, ValueView::Str("AcDbLeader"@))]);
    proof {
        acc = seq![rec(100, ValueView::Str("AcDbLeader"@))];
        assert(pairs_view(out@) =~= start + acc);
    }
    let ghost prev = pairs_view(out@);
    emit(out, CodePair::new_string(3, &e.dimension_style_name));
    assert(pairs_view(out@) =~= prev + seq![rec(3, ValueView::Str(v.dimension_style_name))]);
    proof {
        assert(start + (acc + seq![rec(3, ValueView::Str(v.dimension_style_name))]) =~= (start + acc) + seq![rec(3, ValueView::Str(v.dimension_style_name))]);
        acc = acc + seq![rec(3, ValueView::Str(v.dimension_style_name))];
    }
    let ghost prev = pairs_view(out@);
    emit(out, CodePair::new_i16(71, if e.use_arrowheads { 1 } else { 0 }));
    assert(pairs_view(out@) =~= prev + seq![rec(71, ValueView::Short(if v.use_arrowheads { 1 } else { 0 }))]);
    proof {
        assert(start + (acc + seq![rec(71, ValueView::Short(if v.use_arrowheads { 1 } else { 0 }))]) =~= (start + acc) + seq![rec(71, ValueView::Short(if v.use_arrowheads { 1 } else { 0 }))]);
        acc = acc + seq![rec(71, ValueView::Short(if v.use_arrowheads { 1 } else { 0 }))];
    }
    let ghost prev = pairs_view(out@);
    emit(out, CodePair::new_i32(76, e.vertices.len() as i32));
    assert(pairs_view(out@) =~= prev + seq![rec(76, ValueView::Integer(v.vertices.len() as i32))]);
    proof {
        assert(start + (acc + seq![rec(76, ValueView::Integer(v.vertices.len() as i32))]) =~= (start + acc) + seq![rec(76, ValueView::Integer(v.vertices.len() as i32))]);
        acc = acc + seq![rec(76, ValueView::Integer(v.vertices.len() as i32))];
    }
    let ghost prev = pairs_view(out@);
    emit_points_3d(out, 10, &e.vertices);
    assert(pairs_view(out@) =~= prev + points_3d_records(10, v.vertices));
    proof {
        assert(start + (acc + points_3d_records(10, v.vertices)) =~= (start + acc) + points_3d_records(10, v.vertices));
        acc = acc + points_3d_records(10, v.vertices);
    }
}

/// One part of the records of a `MText`.
pub open spec fn m_text_1_records(v: MTextView, version: AcadVersion) -> Seq<CodePairView> {
    seq![rec(100, ValueView::Str("AcDbMText"@))]
        + point_records(10, v.insertion_point)
        + seq![rec(40, ValueView::Double(v.initial_text_height))]
        + seq![rec(41, ValueView::Double(v.reference_rectangle_width))]
        + seq![rec(71, ValueView::Short(v.attachment_point.spec_to_i16()))]
        + seq![rec(72, ValueView::Short(v.drawing_direction.spec_to_i16()))]
}

/// Writes one part of a `MText`'s own fields.
#[verifier::rlimit(60)]
pub fn write_m_text_1(e: &MText, version: AcadVersion, out: &mut Vec<CodePair>)
    ensures
        pairs_view(final(out)@) == pairs_view(old(out)@) + m_text_1_records(e@, version),
{
    let ghost start = pairs_view(out@);
    let ghost v = e@;
    let ghost mut acc: Seq<CodePairView> = Seq::empty();
    let ghost prev = pairs_view(out@);
    emit(out, CodePair::new_str(100, "AcDbMText"));
    assert(pairs_view(out@) =~= prev + seq![rec(100, ValueView::Str("AcDbMText"@))]);
    proof {
        acc = seq![rec(100, ValueView::Str("AcDbMText"@))];
        assert(pairs_view(out@) =~= start + acc);
    }
    let ghost prev = pairs_view(out@);
    emit_point(out, 10, e.insertion_point);
    assert(pairs_view(out@) =~= prev + point_records(10, v.insertion_point));
    proof {
        assert(start + (acc + point_records(10, v.insertion_point)) =~= (start + acc) + point_records(10, v.insertion_point));
        acc = acc + point_records(10, v.insertion_point);
    }
    let ghost prev = pairs_view(out@);
    emit(out, CodePair::new_real(40, e.initial_text_height));
    assert(pairs_view(out@) =~= prev + seq![rec(40, ValueView::Double(v.initial_text_height))]);
    proof {
        assert(start + (acc + seq![rec(40, ValueView::Double(v.initial_text_height))]) =~= (start + acc) + seq![rec(40, ValueView::Double(v.initial_text_height))]);
        acc = acc + seq![rec(40, ValueView::Double(v.initial_text_height))];
    }
    let ghost prev = pairs_view(out@);
    emit(out, CodePair::new_real(41, e.reference_rectangle_width));
    assert(pairs_view(out@) =~= prev + seq![rec(41, ValueView::Double(v.reference_rectangle_width))]);
    proof {
        assert(start + (acc + seq![rec(41, ValueView::Double(v.reference_rectangle_width))]) =~= (start + acc) + seq![rec(41, ValueView::Double(v.reference_rectangle_width))]);
        acc = acc + seq![rec(41, ValueView::Double(v.reference_rectangle_width))];
    }
    let ghost prev = pairs_view(out@);
    emit(out, CodePair::new_i16(71, e.attachment_point.to_i16()));
    assert(pairs_view(out@) =~= prev + seq![rec(71, ValueView::Short(v.attachment_point.spec_to_i16()))]);
    proof {
        assert(start + (acc + seq![rec(71, ValueView::Short(v.attachment_point.spec_to_i16()))]) =~= (start + acc) + seq![rec(71, ValueView::Short(v.attachment_point.spec_to_i16()))]);
        acc = acc + seq![rec(71, ValueView::Short(v.attachment_point.spec_to_i16()))];
    }
    let ghost prev = pairs_view(out@);
    emit(out, CodePair::new_i16(72, e.drawing_direction.to_i16()));
    assert(pairs_view(out@) =~= prev + seq![rec(72, ValueView::Short(v.drawing_direction.spec_to_i16()))]);
    proof {
        assert(start + (acc + seq![rec(72, ValueView::Short(v.drawing_direction.spec_to_i16()))]) =~= (start + acc) + seq![rec(72, ValueView::Short(v.drawing_direction.spec_to_i16()))]);
        acc = acc + seq![rec(72, ValueView::Short(v.drawing_direction.spec_to_i16()))];
    }
}

/// One part of the records of a `MText`.
pub open spec fn m_text_2_records(v: MTextView, version: AcadVersion) -> Seq<CodePairView> {
    strings_records(3, v.extended_text)
        + seq![rec(1, ValueView::Str(v.text))]
        + seq![rec(7, ValueView::Str(v.text_style_name))]
        + (if !is_z_axis(v.extrusion_direction) { point_records(210, v.extrusion_direction) } else { Seq::empty() })
        + point_records(11, v.x_axis_direction)
        + seq![rec(42, ValueView::Double(v.horizontal_width))]
}

/// Writes one part of a `MText`'s own fields.
#[verifier::rlimit(60)]
pub fn write_m_text_2(e: &MText, version: AcadVersion, out: &mut Vec<CodePair>)
    ensures
        pairs_view(final(out)@) == pairs_view(old(out)@) + m_text_2_records(e@, version),
{
    let ghost start = pairs_view(out@);
    let ghost v = e@;
    let ghost mut acc: Seq<CodePairView> = Seq::empty();
    let ghost prev = pairs_view(out@);
    emit_strings(out, 3, &e.extended_text);
    assert(pairs_view(out@) =~= prev + strings_records(3, v.extended_text));
    proof {
        acc = strings_records(3, v.extended_text);
        assert(pairs_view(out@) =~= start + acc);
    }
    let ghost prev = pairs_view(out@);
    emit(out, CodePair::new_string(1, &e.text));
    assert(pairs_view(out@) =~= prev + seq![rec(1, ValueView::Str(v.text))]);
    proof {
        assert(start + (acc + seq![rec(1, ValueView::Str(v.text))]) =~= (start + acc) + seq![rec(1, ValueView::Str(v.text))]);
        acc = acc + seq![rec(1, ValueView::Str(v.text))];
    }
    let ghost prev = pairs_view(out@);
    emit(out, CodePair::new_string(7, &e.text_style_name));
    assert(pairs_view(out@) =~= prev + seq![rec(7, ValueView::Str(v.text_style_name))]);
    proof {
        assert(start + (acc + seq![rec(7, ValueView::Str(v.text_style_name))]) =~= (start + acc) + seq![rec(7, ValueView::Str(v.text_style_name))]);
        acc = acc + seq![rec(7, ValueView::Str(v.text_style_name))];
    }
    let ghost prev = pairs_view(out@);
    emit_point_unless_z_axis(out, 210, e.extrusion_direction);
    assert(pairs_view(out@) =~= prev + (if !is_z_axis(v.extrusion_direction) { point_records(210, v.extrusion_direction) } else { Seq::empty() }));
    proof {
        assert(start + (acc + (if !is_z_axis(v.extrusion_direction) { point_records(210, v.extrusion_direction) } else { Seq::empty() })) =~= (start + acc) + (if !is_z_axis(v.extrusion_direction) { point_records(210, v.extrusion_direction) } else { Seq::empty() }));
        acc = acc + (if !is_z_axis(v.extrusion_direction) { point_records(210, v.extrusion_direction) } else { Seq::empty() });
    }
    let ghost prev = pairs_view(out@);
    emit_point(out, 11, e.x_axis_direction);
    assert(pairs_view(out@) =~= prev + point_records(11, v.x_axis_direction));
    proof {
        assert(start + (acc + point_records(11, v.x_axis_direction)) =~= (start + acc) + point_records(11, v.x_axis_direction));
        acc = acc + point_records(11, v.x_axis_direction);
    }
    let ghost prev = pairs_view(out@);
    emit(out, CodePair::new_real(42, e.horizontal_width));
    assert(pairs_view(out@) =~= prev + seq![rec(42, ValueView::Double(v.horizontal_width))]);
    proof {
        assert(start + (acc + seq![rec(42, ValueView::Double(v.horizontal_width))]) =~= (start + acc) + seq![rec(42, ValueView::Double(v.horizontal_width))]);
        acc = acc + seq![rec(42, ValueView::Double(v.horizontal_width))];
    }
}

/// One part of the records of a `MText`.
pub open spec fn m_text_3_records(v: MTextView, version: AcadVersion) -> Seq<CodePairView> {
    seq![rec(43, ValueView::Double(v.vertical_height))]
        + (if !is_zero_real(v.rotation_angle) { seq![rec(50, ValueView::Double(v.rotation_angle))] } else { Seq::empty() })
        + seq![rec(73, ValueView::Short(v.line_spacing_style.spec_to_i16()))]
        + seq![rec(44, ValueView::Double(v.line_spacing_factor))]
}

/// Writes one part of a `MText`'s own fields.
pub fn write_m_text_3(e: &MText, version: AcadVersion, out: &mut Vec<CodePair>)
    ensures
        pairs_view(final(out)@) == pairs_view(old(out)@) + m_text_3_records(e@, version),
{
    let ghost start = pairs_view(out@);
    let ghost v = e@;
    let ghost mut acc: Seq<CodePairView> = Seq::empty();
    let ghost prev = pairs_view(out@);
    emit(out, CodePair::new_real(43, e.vertical_height));
    assert(pairs_view(out@) =~= prev + seq![rec(43, ValueView::Double(v.vertical_height))]);
    proof {
        acc = seq![rec(43, ValueView::Double(v.vertical_height))];
        assert(pairs_view(out@) =~= start + acc);
    }
    let ghost prev = pairs_view(out@);
    emit_real_unless_zero(out, 50, e.rotation_angle);
    assert(pairs_view(out@) =~= prev + (if !is_zero_real(v.rotation_angle) { seq![rec(50, ValueView::Double(v.rotation_angle))] } else { Seq::empty() }));
    proof {
        assert(start + (acc + (if !is_zero_real(v.rotation_angle) { seq![rec(50, ValueView::Double(v.rotation_angle))] } else { Seq::empty() })) =~= (start + acc) + (if !is_zero_real(v.rotation_angle) { seq![rec(50, ValueView::Double(v.rotation_angle))] } else { Seq::empty() }));
        acc = acc + (if !is_zero_real(v.rotation_angle) { seq![rec(50, ValueView::Double(v.rotation_angle))] } else { Seq::empty() });
    }
    let ghost prev = pairs_view(out@);
    emit(out, CodePair::new_i16(73, e.line_spacing_style.to_i16()));
    assert(pairs_view(out@) =~= prev + seq![rec(73, ValueView::Short(v.line_spacing_style.spec_to_i16()))]);
    proof {
        assert(start + (acc + seq![rec(73, ValueView::Short(v.line_spacing_style.spec_to_i16()))]) =~= (start + acc) + seq![rec(73, ValueView::Short(v.line_spacing_style.spec_to_i16()))]);
        acc = acc + seq![rec(73, ValueView::Short(v.line_spacing_style.spec_to_i16()))];
    }
    let ghost prev = pairs_view(out@);
    emit(out, CodePair::new_real(44, e.line_spacing_factor));
    assert(pairs_view(out@) =~= prev + seq![rec(44, ValueView::Double(v.line_spacing_factor))]);
    proof {
        assert(start + (acc + seq![rec(44, ValueView::Double(v.line_spacing_factor))]) =~= (start + acc) + seq![rec(44, ValueView::Double(v.line_spacing_factor))]);
        acc = acc + seq![rec(44, ValueView::Double(v.line_spacing_factor))];
    }
}

/// The records that describe a `MText`'s own fields in the given version.
pub open spec fn m_text_records(v: MTextView, version: AcadVersion) -> Seq<CodePairView> {
    m_text_1_records(v, version)
        + m_text_2_records(v, version)
        + m_text_3_records(v, version)
}

/// Writes a `MText`'s own fields.
pub fn write_m_text(e: &MText, version: AcadVersion, out: &mut Vec<CodePair>)
    ensures
        pairs_view(final(out)@) == pairs_view(old(out)@) + m_text_records(e@, version),
{
    let ghost start = pairs_view(out@);
    let ghost v = e@;
    let ghost mut acc: Seq<CodePairView> = Seq::empty();
    let ghost prev = pairs_view(out@);
    write_m_text_1(e, version, out);
    assert(pairs_view(out@) =~= prev + m_text_1_records(v, version));
    proof {
        acc = m_text_1_records(v, version);
        assert(pairs_view(out@) =~= start + acc);
    }
    let ghost prev = pairs_view(out@);
    write_m_text_2(e, version, out);
    assert(pairs_view(out@) =~= prev + m_text_2_records(v, version));
    proof {
        assert(start + (acc + m_text_2_records(v, version)) =~= (start + acc) + m_text_2_records(v, version));
        acc = acc + m_text_2_records(v, version);
    }
    let ghost prev = pairs_view(out@);
    write_m_text_3(e, version, out);
    assert(pairs_view(out@) =~= prev + m_text_3_records(v, version));
    proof {
        assert(start + (acc + m_text_3_records(v, version)) =~= (start + acc) + m_text_3_records(v, version));
        acc = acc + m_text_3_records(v, version);
    }
}

/// The records that describe a `LwPolyline`'s own fields in the given version.
pub open spec fn lw_polyline_records(v: LwPolylineView, version: AcadVersion) -> Seq<CodePairView> {
    seq![rec(100, ValueView::Str("AcDbPolyline"@))]
        + seq![rec(90, ValueView::Integer(v.vertices.len() as i32))]
        + seq![rec(70, ValueView::Short(v.flags as i16))]
        + seq![rec(43, ValueView::Double(v.constant_width))]
        + (if !is_zero_real(v.thickness) { seq![rec(39, ValueView::Double(v.thickness))] } else { Seq::empty() })
        + lw_vertices_records(v.vertices, version)
        + (if !is_z_axis(v.extrusion_direction) { point_records(210, v.extrusion_direction) } else { Seq::empty() })
}

/// Writes a `LwPolyline`'s own fields.
#[verifier::rlimit(60)]
pub fn write_lw_polyline(e: &LwPolyline, version: AcadVersion, out: &mut Vec<CodePair>)
    ensures
        pairs_view(final(out)@) == pairs_view(old(out)@) + lw_polyline_records(e@, version),
{
    let ghost start = pairs_view(out@);
    let ghost v = e@;
    let ghost mut acc: Seq<CodePairView> = Seq::empty();
    let ghost prev = pairs_view(out@);
    emit(out, CodePair::new_str(100, "AcDbPolyline"));
    assert(pairs_view(out@) =~= prev + seq![rec(100, ValueView::Str("AcDbPolyline"@))]);
    proof {
        acc = seq![rec(100, ValueView::Str("AcDbPolyline"@))];
        assert(pairs_view(out@) =~= start + acc);
    }
    let ghost prev = pairs_view(out@);
    emit(out, CodePair::new_i32(90, e.vertices.len() as i32));
    assert(pairs_view(out@) =~= prev + seq![rec(90, ValueView::Integer(v.vertices.len() as i32))]);
    proof {
        assert(start + (acc + seq![rec(90, ValueView::Integer(v.vertices.len() as i32))]) =~= (start + acc) + seq![rec(90, ValueView::Integer(v.vertices.len() as i32))]);
        acc = acc + seq![rec(90, ValueView::Integer(v.vertices.len() as i32))];
    }
    let ghost prev = pairs_view(out@);
    emit(out, CodePair::new_i16(70, e.flags as i16));
    assert(pairs_view(out@) =~= prev + seq![rec(70, ValueView::Short(v.flags as i16))]);
    proof {
        assert(start + (acc + seq![rec(70, ValueView::Short(v.flags as i16))]) =~= (start + acc) + seq![rec(70, ValueView::Short(v.flags as i16))]);
        acc = acc + seq![rec(70, ValueView::Short(v.flags as i16))];
    }
    let ghost prev = pairs_view(out@);
    emit(out, CodePair::new_real(43, e.constant_width));
    assert(pairs_view(out@) =~= prev + seq![rec(43, ValueView::Double(v.constant_width))]);
    proof {
        assert(start + (acc + seq![rec(43, ValueView::Double(v.constant_width))]) =~= (start + acc) + seq![rec(43, ValueView::Double(v.constant_width))]);
        acc = acc + seq![rec(43, ValueView::Double(v.constant_width))];
    }
    let ghost prev = pairs_view(out@);
    emit_real_unless_zero(out, 39, e.thickness);
    assert(pairs_view(out@) =~= prev + (if !is_zero_real(v.thickness) { seq![rec(39, ValueView::Double(v.thickness))] } else { Seq::empty() }));
    proof {
        assert(start + (acc + (if !is_zero_real(v.thickness) { seq![rec(39, ValueView::Double(v.thickness))] } else { Seq::empty() })) =~= (start + acc) + (if !is_zero_real(v.thickness) { seq![rec(39, ValueView::Double(v.thickness))] } else { Seq::empty() }));
        acc = acc + (if !is_zero_real(v.thickness) { seq![rec(39, ValueView::Double(v.thickness))] } else { Seq::empty() });
    }
    let ghost prev = pairs_view(out@);
    emit_lw_vertices(out, &e.vertices, version);
    assert(pairs_view(out@) =~= prev + lw_vertices_records(v.vertices, version));
    proof {
        assert(start + (acc + lw_vertices_records(v.vertices, version)) =~= (start + acc) + lw_vertices_records(v.vertices, version));
        acc = acc + lw_vertices_records(v.vertices, version);
    }
    let ghost prev = pairs_view(out@);
    emit_point_unless_z_axis(out, 210, e.extrusion_direction);
    assert(pairs_view(out@) =~= prev + (if !is_z_axis(v.extrusion_direction) { point_records(210, v.extrusion_direction) } else { Seq::empty() }));
    proof {
        assert(start + (acc + (if !is_z_axis(v.extrusion_direction) { point_records(210, v.extrusion_direction) } else { Seq::empty() })) =~= (start + acc) + (if !is_z_axis(v.extrusion_direction) { point_records(210, v.extrusion_direction) } else { Seq::empty() }));
        acc = acc + (if !is_z_axis(v.extrusion_direction) { point_records(210, v.extrusion_direction) } else { Seq::empty() });
    }
}

/// One part of the records of a `Attribute`.
pub open spec fn attribute_1_records(v: AttributeView, version: AcadVersion) -> Seq<CodePairView> {
    seq![rec(100, ValueView::Str("AcDbText"@))]
        + (if !is_zero_real(v.fields.thickness) { seq![rec(39, ValueView::Double(v.fields.thickness))] } else { Seq::empty() })
        + point_records(10, v.fields.location)
        + seq![rec(40, ValueView::Double(v.fields.text_height))]
        + seq![rec(1, ValueView::Str(v.fields.value))]
        + (if !is_zero_real(v.fields.rotation) { seq![rec(50, ValueView::Double(v.fields.rotation))] } else { Seq::empty() })
}

/// Writes one part of a `Attribute`'s own fields.
#[verifier::rlimit(60)]
pub fn write_attribute_1(e: &Attribute, version: AcadVersion, out: &mut Vec<CodePair>)
    ensures
        pairs_view(final(out)@) == pairs_view(old(out)@) + attribute_1_records(e@, version),
{
    let ghost start = pairs_view(out@);
    let ghost v = e@;
    let ghost mut acc: Seq<CodePairView> = Seq::empty();
    let ghost prev = pairs_view(out@);
    emit(out, CodePair::new_str(100, "AcDbText"));
    assert(pairs_view(out@) =~= prev + seq![rec(100, ValueView::Str("AcDbText"@))]);
    proof {
        acc = seq![rec(100, ValueView::Str("AcDbText"@))];
        assert(pairs_view(out@) =~= start + acc);
    }
    let ghost prev = pairs_view(out@);
    emit_real_unless_zero(out, 39, e.fields.thickness);
    assert(pairs_view(out@) =~= prev + (if !is_zero_real(v.fields.thickness) { seq![rec(39, ValueView::Double(v.fields.thickness))] } else { Seq::empty() }));
    proof {
        assert(start + (acc + (if !is_zero_real(v.fields.thickness) { seq![rec(39, ValueView::Double(v.fields.thickness))] } else { Seq::empty() })) =~= (start + acc) + (if !is_zero_real(v.fields.thickness) { seq![rec(39, ValueView::Double(v.fields.thickness))] } else { Seq::empty() }));
        acc = acc + (if !is_zero_real(v.fields.thickness) { seq![rec(39, ValueView::Double(v.fields.thickness))] } else { Seq::empty() });
    }
    let ghost prev = pairs_view(out@);
    emit_point(out, 10, e.fields.location);
    assert(pairs_view(out@) =~= prev + point_records(10, v.fields.location));
    proof {
        assert(start + (acc + point_records(10, v.fields.location)) =~= (start + acc) + point_records(10, v.fields.location));
        acc = acc + point_records(10, v.fields.location);
    }
    let ghost prev = pairs_view(out@);
    emit(out, CodePair::new_real(40, e.fields.text_height));
    assert(pairs_view(out@) =~= prev + seq![rec(40, ValueView::Double(v.fields.text_height))]);
    proof {
        assert(start + (acc + seq![rec(40, ValueView::Double(v.fields.text_height))]) =~= (start + acc) + seq![rec(40, ValueView::Double(v.fields.text_height))]);
        acc = acc + seq![rec(40, ValueView::Double(v.fields.text_height))];
    }
    let ghost prev = pairs_view(out@);
    emit(out, CodePair::new_string(1, &e.fields.value));
    assert(pairs_view(out@) =~= prev + seq![rec(1, ValueView::Str(v.fields.value))]);
    proof {
        assert(start + (acc + seq![rec(1, ValueView::Str(v.fields.value))]) =~= (start + acc) + seq![rec(1, ValueView::Str(v.fields.value))]);
        acc = acc + seq![rec(1, ValueView::Str(v.fields.value))];
    }
    let ghost prev = pairs_view(out@);
    emit_real_unless_zero(out, 50, e.fields.rotation);
    assert(pairs_view(out@) =~= prev + (if !is_zero_real(v.fields.rotation) { seq![rec(50, ValueView::Double(v.fields.rotation))] } else { Seq::empty() }));
    proof {
        assert(start + (acc + (if !is_zero_real(v.fields.rotation) { seq![rec(50, ValueView::Double(v.fields.rotation))] } else { Seq::empty() })) =~= (start + acc) + (if !is_zero_real(v.fields.rotation) { seq![rec(50, ValueView::Double(v.fields.rotation))] } else { Seq::empty() }));
        acc = acc + (if !is_zero_real(v.fields.rotation) { seq![rec(50, ValueView::Double(v.fields.rotation))] } else { Seq::empty() });
    }
}

/// One part of the records of a `Attribute`.
pub open spec fn attribute_2_records(v: AttributeView, version: AcadVersion) -> Seq<CodePairView> {
    seq![rec(7, ValueView::Str(v.fields.text_style_name))]
        + seq![rec(72, ValueView::Short(v.fields.horizontal_text_justification.spec_to_i16()))]
        + point_records(11, v.fields.second_alignment_point)
        + (if !is_z_axis(v.fields.normal) { point_records(210, v.fields.normal) } else { Seq::empty() })
        + seq![rec(100, ValueView::Str("AcDbAttribute"@))]
        + (if version.spec_at_least(AcadVersion::R2010) { seq![rec(280, ValueView::Short(v.fields.version.spec_to_i16()))] } else { Seq::empty() })
}

/// Writes one part of a `Attribute`'s own fields.
#[verifier::rlimit(60)]
pub fn write_attribute_2(e: &Attribute, version: AcadVersion, out: &mut Vec<CodePair>)
    ensures
        pairs_view(final(out)@) == pairs_view(old(out)@) + attribute_2_records(e@, version),
{
    let ghost start = pairs_view(out@);
    let ghost v = e@;
    let ghost mut acc: Seq<CodePairView> = Seq::empty();
    let ghost prev = pairs_view(out@);
    emit(out, CodePair::new_string(7, &e.fields.text_style_name));
    assert(pairs_view(out@) =~= prev + seq![rec(7, ValueView::Str(v.fields.text_style_name))]);
    proof {
        acc = seq![rec(7, ValueView::Str(v.fields.text_style_name))];
        assert(pairs_view(out@) =~= start + acc);
    }
    let ghost prev = pairs_view(out@);
    emit(out, CodePair::new_i16(72, e.fields.horizontal_text_justification.to_i16()));
    assert(pairs_view(out@) =~= prev + seq![rec(72, ValueView::Short(v.fields.horizontal_text_justification.spec_to_i16()))]);
    proof {
        assert(start + (acc + seq![rec(72, ValueView::Short(v.fields.horizontal_text_justification.spec_to_i16()))]) =~= (start + acc) + seq![rec(72, ValueView::Short(v.fields.horizontal_text_justification.spec_to_i16()))]);
        acc = acc + seq![rec(72, ValueView::Short(v.fields.horizontal_text_justification.spec_to_i16()))];
    }
    let ghost prev = pairs_view(out@);
    emit_point(out, 11, e.fields.second_alignment_point);
    assert(pairs_view(out@) =~= prev + point_records(11, v.fields.second_alignment_point));
    proof {
        assert(start + (acc + point_records(11, v.fields.second_alignment_point)) =~= (start + acc) + point_records(11, v.fields.second_alignment_point));
        acc = acc + point_records(11, v.fields.second_alignment_point);
    }
    let ghost prev = pairs_view(out@);
    emit_point_unless_z_axis(out, 210, e.fields.normal);
    assert(pairs_view(out@) =~= prev + (if !is_z_axis(v.fields.normal) { point_records(210, v.fields.normal) } else { Seq::empty() }));
    proof {
        assert(start + (acc + (if !is_z_axis(v.fields.normal) { point_records(210, v.fields.normal) } else { Seq::empty() })) =~= (start + acc) + (if !is_z_axis(v.fields.normal) { point_records(210, v.fields.normal) } else { Seq::empty() }));
        acc = acc + (if !is_z_axis(v.fields.normal) { point_records(210, v.fields.normal) } else { Seq::empty() });
    }
    let ghost prev = pairs_view(out@);
    emit(out, CodePair::new_str(100, "AcDbAttribute"));
    assert(pairs_view(out@) =~= prev + seq![rec(100, ValueView::Str("AcDbAttribute"@))]);
    proof {
        assert(start + (acc + seq![rec(100, ValueView::Str("AcDbAttribute"@))]) =~= (start + acc) + seq![rec(100, ValueView::Str("AcDbAttribute"@))]);
        acc = acc + seq![rec(100, ValueView::Str("AcDbAttribute"@))];
    }
    let ghost prev = pairs_view(out@);
    write_attribute_2_part_5(e, version, out);
    assert(pairs_view(out@) =~= prev + (if version.spec_at_least(AcadVersion::R2010) { seq![rec(280, ValueView::Short(v.fields.version.spec_to_i16()))] } else { Seq::empty() }));
    proof {
        assert(start + (acc + (if version.spec_at_least(AcadVersion::R2010) { seq![rec(280, ValueView::Short(v.fields.version.spec_to_i16()))] } else { Seq::empty() })) =~= (start + acc) + (if version.spec_at_least(AcadVersion::R2010) { seq![rec(280, ValueView::Short(v.fields.version.spec_to_i16()))] } else { Seq::empty() }));
        acc = acc + (if version.spec_at_least(AcadVersion::R2010) { seq![rec(280, ValueView::Short(v.fields.version.spec_to_i16()))] } else { Seq::empty() });
    }
}

fn write_attribute_2_part_5(e: &Attribute, version: AcadVersion, out: &mut Vec<CodePair>)
    ensures
        pairs_view(final(out)@) == pairs_view(old(out)@) + ((if version.spec_at_least(AcadVersion::R2010) { seq![rec(280, ValueView::Short(e@.fields.version.spec_to_i16()))] } else { Seq::empty() })),
{
    let ghost start = pairs_view(out@);
    if version.at_least(AcadVersion::R2010) {
        let ghost prev0 = pairs_view(out@);
        emit(out, CodePair::new_i16(280, e.fields.version.to_i16()));
        assert(pairs_view(out@) =~= prev0 + seq![rec(280, ValueView::Short(e@.fields.version.spec_to_i16()))]);
        assert(pairs_view(out@) =~= start + ((if version.spec_at_least(AcadVersion::R2010) { seq![rec(280, ValueView::Short(e@.fields.version.spec_to_i16()))] } else { Seq::empty() })));
    } else {
        assert(pairs_view(out@) =~= start + ((if version.spec_at_least(AcadVersion::R2010) { seq![rec(280, ValueView::Short(e@.fields.version.spec_to_i16()))] } else { Seq::empty() })));
    }
}

/// One part of the records of a `Attribute`.
pub open spec fn attribute_3_records(v: AttributeView, version: AcadVersion) -> Seq<CodePairView> {
    seq![rec(2, ValueView::Str(v.attribute_tag))]
        + seq![rec(70, ValueView::Short(v.fields.flags as i16))]
        + (if v.fields.field_length != 0 { seq![rec(73, ValueView::Short(v.fields.field_length))] } else { Seq::empty() })
        + seq![rec(74, ValueView::Short(v.fields.vertical_text_justification.spec_to_i16()))]
        + (if version.spec_at_least(AcadVersion::R2010) { seq![rec(280, ValueView::Short(if v.fields.is_locked_in_block { 1 } else { 0 }))] } else { Seq::empty() })
}

/// Writes one part of a `Attribute`'s own fields.
#[verifier::rlimit(60)]
pub fn write_attribute_3(e: &Attribute, version: AcadVersion, out: &mut Vec<CodePair>)
    ensures
        pairs_view(final(out)@) == pairs_view(old(out)@) + attribute_3_records(e@, version),
{
    let ghost start = pairs_view(out@);
    let ghost v = e@;
    let ghost mut acc: Seq<CodePairView> = Seq::empty();
    let ghost prev = pairs_view(out@);
    emit(out, CodePair::new_string(2, &e.attribute_tag));
    assert(pairs_view(out@) =~= prev + seq![rec(2, ValueView::Str(v.attribute_tag))]);
    proof {
        acc = seq![rec(2, ValueView::Str(v.attribute_tag))];
        assert(pairs_view(out@) =~= start + acc);
    }
    let ghost prev = pairs_view(out@);
    emit(out, CodePair::new_i16(70, e.fields.flags as i16));
    assert(pairs_view(out@) =~= prev + seq![rec(70, ValueView::Short(v.fields.flags as i16))]);
    proof {
        assert(start + (acc + seq![rec(70, ValueView::Short(v.fields.flags as i16))]) =~= (start + acc) + seq![rec(70, ValueView::Short(v.fields.flags as i16))]);
        acc = acc + seq![rec(70, ValueView::Short(v.fields.flags as i16))];
    }
    let ghost prev = pairs_view(out@);
    emit_short_unless_zero(out, 73, e.fields.field_length);
    assert(pairs_view(out@) =~= prev + (if v.fields.field_length != 0 { seq![rec(73, ValueView::Short(v.fields.field_length))] } else { Seq::empty() }));
    proof {
        assert(start + (acc + (if v.fields.field_length != 0 { seq![rec(73, ValueView::Short(v.fields.field_length))] } else { Seq::empty() })) =~= (start + acc) + (if v.fields.field_length != 0 { seq![rec(73, ValueView::Short(v.fields.field_length))] } else { Seq::empty() }));
        acc = acc + (if v.fields.field_length != 0 { seq![rec(73, ValueView::Short(v.fields.field_length))] } else { Seq::empty() });
    }
    let ghost prev = pairs_view(out@);
    emit(out, CodePair::new_i16(74, e.fields.vertical_text_justification.to_i16()));
    assert(pairs_view(out@) =~= prev + seq![rec(74, ValueView::Short(v.fields.vertical_text_justification.spec_to_i16()))]);
    proof {
        assert(start + (acc + seq![rec(74, ValueView::Short(v.fields.vertical_text_justification.spec_to_i16()))]) =~= (start + acc) + seq![rec(74, ValueView::Short(v.fields.vertical_text_justification.spec_to_i16()))]);
        acc = acc + seq![rec(74, ValueView::Short(v.fields.vertical_text_justification.spec_to_i16()))];
    }
    let ghost prev = pairs_view(out@);
    write_attribute_3_part_4(e, version, out);
    assert(pairs_view(out@) =~= prev + (if version.spec_at_least(AcadVersion::R2010) { seq![rec(280, ValueView::Short(if v.fields.is_locked_in_block { 1 } else { 0 }))] } else { Seq::empty() }));
    proof {
        assert(start + (acc + (if version.spec_at_least(AcadVersion::R2010) { seq![rec(280, ValueView::Short(if v.fields.is_locked_in_block { 1 } else { 0 }))] } else { Seq::empty() })) =~= (start + acc) + (if version.spec_at_least(AcadVersion::R2010) { seq![rec(280, ValueView::Short(if v.fields.is_locked_in_block { 1 } else { 0 }))] } else { Seq::empty() }));
        acc = acc + (if version.spec_at_least(AcadVersion::R2010) { seq![rec(280, ValueView::Short(if v.fields.is_locked_in_block { 1 } else { 0 }))] } else { Seq::empty() });
    }
}

fn write_attribute_3_part_4(e: &Attribute, version: AcadVersion, out: &mut Vec<CodePair>)
    ensures
        pairs_view(final(out)@) == pairs_view(old(out)@) + ((if version.spec_at_least(AcadVersion::R2010) { seq![rec(280, ValueView::Short(if e@.fields.is_locked_in_block { 1 } else { 0 }))] } else { Seq::empty() })),
{
    let ghost start = pairs_view(out@);
    if version.at_least(AcadVersion::R2010) {
        let ghost prev0 = pairs_view(out@);
        emit(out, CodePair::new_i16(280, if e.fields.is_locked_in_block { 1 } else { 0 }));
        assert(pairs_view(out@) =~= prev0 + seq![rec(280, ValueView::Short(if e@.fields.is_locked_in_block { 1 } else { 0 }))]);
        assert(pairs_view(out@) =~= start + ((if version.spec_at_least(AcadVersion::R2010) { seq![rec(280, ValueView::Short(if e@.fields.is_locked_in_block { 1 } else { 0 }))] } else { Seq::empty() })));
    } else {
        assert(pairs_view(out@) =~= start + ((if version.spec_at_least(AcadVersion::R2010) { seq![rec(280, ValueView::Short(if e@.fields.is_locked_in_block { 1 } else { 0 }))] } else { Seq::empty() })));
    }
}

/// The records that describe a `Attribute`'s own fields in the given version.
pub open spec fn attribute_records(v: AttributeView, version: AcadVersion) -> Seq<CodePairView> {
    attribute_1_records(v, version)
        + attribute_2_records(v, version)
        + attribute_3_records(v, version)
}

/// Writes a `Attribute`'s own fields.
pub fn write_attribute(e: &Attribute, version: AcadVersion, out: &mut Vec<CodePair>)
    ensures
        pairs_view(final(out)@) == pairs_view(old(out)@) + attribute_records(e@, version),
{
    let ghost start = pairs_view(out@);
    let ghost v = e@;
    let ghost mut acc: Seq<CodePairView> = Seq::empty();
    let ghost prev = pairs_view(out@);
    write_attribute_1(e, version, out);
    assert(pairs_view(out@) =~= prev + attribute_1_records(v, version));
    proof {
        acc = attribute_1_records(v, version);
        assert(pairs_view(out@) =~= start + acc);
    }
    let ghost prev = pairs_view(out@);
    write_attribute_2(e, version, out);
    assert(pairs_view(out@) =~= prev + attribute_2_records(v, version));
    proof {
        assert(start + (acc + attribute_2_records(v, version)) =~= (start + acc) + attribute_2_records(v, version));
        acc = acc + attribute_2_records(v, version);
    }
    let ghost prev = pairs_view(out@);
    write_attribute_3(e, version, out);
    assert(pairs_view(out@) =~= prev + attribute_3_records(v, version));
    proof {
        assert(start + (acc + attribute_3_records(v, version)) =~= (start + acc) + attribute_3_records(v, version));
        acc = acc + attribute_3_records(v, version);
    }
}

/// One part of the records of a `AttributeDefinition`.
pub open spec fn attribute_definition_1_records(v: AttributeDefinitionView, version: AcadVersion) -> Seq<CodePairView> {
    seq![rec(100, ValueView::Str("AcDbText"@))]
        + (if !is_zero_real(v.fields.thickness) { seq![rec(39, ValueView::Double(v.fields.thickness))] } else { Seq::empty() })
        + point_records(10, v.fields.location)
        + seq![rec(40, ValueView::Double(v.fields.text_height))]
        + seq![rec(1, ValueView::Str(v.fields.value))]
        + (if !is_zero_real(v.fields.rotation) { seq![rec(50, ValueView::Double(v.fields.rotation))] } else { Seq::empty() })
}

/// Writes one part of a `AttributeDefinition`'s own fields.
#[verifier::rlimit(60)]
pub fn write_attribute_definition_1(e: &AttributeDefinition, version: AcadVersion, out: &mut Vec<CodePair>)
    ensures
        pairs_view(final(out)@) == pairs_view(old(out)@) + attribute_definition_1_records(e@, version),
{
    let ghost start = pairs_view(out@);
    let ghost v = e@;
    let ghost mut acc: Seq<CodePairView> = Seq::empty();
    let ghost prev = pairs_view(out@);
    emit(out, CodePair::new_str(100, "AcDbText"));
    assert(pairs_view(out@) =~= prev + seq![rec(100, ValueView::Str("AcDbText"@))]);
    proof {
        acc = seq![rec(100, ValueView::Str("AcDbText"@))];
        assert(pairs_view(out@) =~= start + acc);
    }
    let ghost prev = pairs_view(out@);
    emit_real_unless_zero(out, 39, e.fields.thickness);
    assert(pairs_view(out@) =~= prev + (if !is_zero_real(v.fields.thickness) { seq![rec(39, ValueView::Double(v.fields.thickness))] } else { Seq::empty() }));
    proof {
        assert(start + (acc + (if !is_zero_real(v.fields.thickness) { seq![rec(39, ValueView::Double(v.fields.thickness))] } else { Seq::empty() })) =~= (start + acc) + (if !is_zero_real(v.fields.thickness) { seq![rec(39, ValueView::Double(v.fields.thickness))] } else { Seq::empty() }));
        acc = acc + (if !is_zero_real(v.fields.thickness) { seq![rec(39, ValueView::Double(v.fields.thickness))] } else { Seq::empty() });
    }
    let ghost prev = pairs_view(out@);
    emit_point(out, 10, e.fields.location);
    assert(pairs_view(out@) =~= prev + point_records(10, v.fields.location));
    proof {
        assert(start + (acc + point_records(10, v.fields.location)) =~= (start + acc) + point_records(10, v.fields.location));
        acc = acc + point_records(10, v.fields.location);
    }
    let ghost prev = pairs_view(out@);
    emit(out, CodePair::new_real(40, e.fields.text_height));
    assert(pairs_view(out@) =~= prev + seq![rec(40, ValueView::Double(v.fields.text_height))]);
    proof {
        assert(start + (acc + seq![rec(40, ValueView::Double(v.fields.text_height))]) =~= (start + acc) + seq![rec(40, ValueView::Double(v.fields.text_height))]);
        acc = acc + seq![rec(40, ValueView::Double(v.fields.text_height))];
    }
    let ghost prev = pairs_view(out@);
    emit(out, CodePair::new_string(1, &e.fields.value));
    assert(pairs_view(out@) =~= prev + seq![rec(1, ValueView::Str(v.fields.value))]);
    proof {
        assert(start + (acc + seq![rec(1, ValueView::Str(v.fields.value))]) =~= (start + acc) + seq![rec(1, ValueView::Str(v.fields.value))]);
        acc = acc + seq![rec(1, ValueView::Str(v.fields.value))];
    }
    let ghost prev = pairs_view(out@);
    emit_real_unless_zero(out, 50, e.fields.rotation);
    assert(pairs_view(out@) =~= prev + (if !is_zero_real(v.fields.rotation) { seq![rec(50, ValueView::Double(v.fields.rotation))] } else { Seq::empty() }));
    proof {
        assert(start + (acc + (if !is_zero_real(v.fields.rotation) { seq![rec(50, ValueView::Double(v.fields.rotation))] } else { Seq::empty() })) =~= (start + acc) + (if !is_zero_real(v.fields.rotation) { seq![rec(50, ValueView::Double(v.fields.rotation))] } else { Seq::empty() }));
        acc = acc + (if !is_zero_real(v.fields.rotation) { seq![rec(50, ValueView::Double(v.fields.rotation))] } else { Seq::empty() });
    }
}

/// One part of the records of a `AttributeDefinition`.
pub open spec fn attribute_definition_2_records(v: AttributeDefinitionView, version: AcadVersion) -> Seq<CodePairView> {
    seq![rec(7, ValueView::Str(v.fields.text_style_name))]
        + seq![rec(72, ValueView::Short(v.fields.horizontal_text_justification.spec_to_i16()))]
        + point_records(11, v.fields.second_alignment_point)
        + (if !is_z_axis(v.fields.normal) { point_records(210, v.fields.normal) } else { Seq::empty() })
        + seq![rec(100, ValueView::Str("AcDbAttributeDefinition"@))]
        + (if version.spec_at_least(AcadVersion::R2010) { seq![rec(280, ValueView::Short(v.fields.version.spec_to_i16()))] } else { Seq::empty() })
}

/// Writes one part of a `AttributeDefinition`'s own fields.
#[verifier::rlimit(60)]
pub fn write_attribute_definition_2(e: &AttributeDefinition, version: AcadVersion, out: &mut Vec<CodePair>)
    ensures
        pairs_view(final(out)@) == pairs_view(old(out)@) + attribute_definition_2_records(e@, version),
{
    let ghost start = pairs_view(out@);
    let ghost v = e@;
    let ghost mut acc: Seq<CodePairView> = Seq::empty();
    let ghost prev = pairs_view(out@);
    emit(out, CodePair::new_string(7, &e.fields.text_style_name));
    assert(pairs_view(out@) =~= prev + seq![rec(7, ValueView::Str(v.fields.text_style_name))]);
    proof {
        acc = seq![rec(7, ValueView::Str(v.fields.text_style_name))];
        assert(pairs_view(out@) =~= start + acc);
    }
    let ghost prev = pairs_view(out@);
    emit(out, CodePair::new_i16(72, e.fields.horizontal_text_justification.to_i16()));
    assert(pairs_view(out@) =~= prev + seq![rec(72, ValueView::Short(v.fields.horizontal_text_justification.spec_to_i16()))]);
    proof {
        assert(start + (acc + seq![rec(72, ValueView::Short(v.fields.horizontal_text_justification.spec_to_i16()))]) =~= (start + acc) + seq![rec(72, ValueView::Short(v.fields.horizontal_text_justification.spec_to_i16()))]);
        acc = acc + seq![rec(72, ValueView::Short(v.fields.horizontal_text_justification.spec_to_i16()))];
    }
    let ghost prev = pairs_view(out@);
    emit_point(out, 11, e.fields.second_alignment_point);
    assert(pairs_view(out@) =~= prev + point_records(11, v.fields.second_alignment_point));
    proof {
        assert(start + (acc + point_records(11, v.fields.second_alignment_point)) =~= (start + acc) + point_records(11, v.fields.second_alignment_point));
        acc = acc + point_records(11, v.fields.second_alignment_point);
    }
    let ghost prev = pairs_view(out@);
    emit_point_unless_z_axis(out, 210, e.fields.normal);
    assert(pairs_view(out@) =~= prev + (if !is_z_axis(v.fields.normal) { point_records(210, v.fields.normal) } else { Seq::empty() }));
    proof {
        assert(start + (acc + (if !is_z_axis(v.fields.normal) { point_records(210, v.fields.normal) } else { Seq::empty() })) =~= (start + acc) + (if !is_z_axis(v.fields.normal) { point_records(210, v.fields.normal) } else { Seq::empty() }));
        acc = acc + (if !is_z_axis(v.fields.normal) { point_records(210, v.fields.normal) } else { Seq::empty() });
    }
    let ghost prev = pairs_view(out@);
    emit(out, CodePair::new_str(100, "AcDbAttributeDefinition"));
    assert(pairs_view(out@) =~= prev + seq![rec(100, ValueView::Str("AcDbAttributeDefinition"@))]);
    proof {
        assert(start + (acc + seq![rec(100, ValueView::Str("AcDbAttributeDefinition"@))]) =~= (start + acc) + seq![rec(100, ValueView::Str("AcDbAttributeDefinition"@))]);
        acc = acc + seq![rec(100, ValueView::Str("AcDbAttributeDefinition"@))];
    }
    let ghost prev = pairs_view(out@);
    write_attribute_definition_2_part_5(e, version, out);
    assert(pairs_view(out@) =~= prev + (if version.spec_at_least(AcadVersion::R2010) { seq![rec(280, ValueView::Short(v.fields.version.spec_to_i16()))] } else { Seq::empty() }));
    proof {
        assert(start + (acc + (if version.spec_at_least(AcadVersion::R2010) { seq![rec(280, ValueView::Short(v.fields.version.spec_to_i16()))] } else { Seq::empty() })) =~= (start + acc) + (if version.spec_at_least(AcadVersion::R2010) { seq![rec(280, ValueView::Short(v.fields.version.spec_to_i16()))] } else { Seq::empty() }));
        acc = acc + (if version.spec_at_least(AcadVersion::R2010) { seq![rec(280, ValueView::Short(v.fields.version.spec_to_i16()))] } else { Seq::empty() });
    }
}

fn write_attribute_definition_2_part_5(e: &AttributeDefinition, version: AcadVersion, out: &mut Vec<CodePair>)
    ensures
        pairs_view(final(out)@) == pairs_view(old(out)@) + ((if version.spec_at_least(AcadVersion::R2010) { seq![rec(280, ValueView::Short(e@.fields.version.spec_to_i16()))] } else { Seq::empty() })),
{
    let ghost start = pairs_view(out@);
    if version.at_least(AcadVersion::R2010) {
        let ghost prev0 = pairs_view(out@);
        emit(out, CodePair::new_i16(280, e.fields.version.to_i16()));
        assert(pairs_view(out@) =~= prev0 + seq![rec(280, ValueView::Short(e@.fields.version.spec_to_i16()))]);
        assert(pairs_view(out@) =~= start + ((if version.spec_at_least(AcadVersion::R2010) { seq![rec(280, ValueView::Short(e@.fields.version.spec_to_i16()))] } else { Seq::empty() })));
    } else {
        assert(pairs_view(out@) =~= start + ((if version.spec_at_least(AcadVersion::R2010) { seq![rec(280, ValueView::Short(e@.fields.version.spec_to_i16()))] } else { Seq::empty() })));
    }
}

/// One part of the records of a `AttributeDefinition`.
pub open spec fn attribute_definition_3_records(v: AttributeDefinitionView, version: AcadVersion) -> Seq<CodePairView> {
    seq![rec(3, ValueView::Str(v.prompt))]
        + seq![rec(2, ValueView::Str(v.text_tag))]
        + seq![rec(70, ValueView::Short(v.fields.flags as i16))]
        + (if v.fields.field_length != 0 { seq![rec(73, ValueView::Short(v.fields.field_length))] } else { Seq::empty() })
        + seq![rec(74, ValueView::Short(v.fields.vertical_text_justification.spec_to_i16()))]
        + (if version.spec_at_least(AcadVersion::R2010) { seq![rec(280, ValueView::Short(if v.fields.is_locked_in_block { 1 } else { 0 }))] } else { Seq::empty() })
}

/// Writes one part of a `AttributeDefinition`'s own fields.
#[verifier::rlimit(60)]
pub fn write_attribute_definition_3(e: &AttributeDefinition, version: AcadVersion, out: &mut Vec<CodePair>)
    ensures
        pairs_view(final(out)@) == pairs_view(old(out)@) + attribute_definition_3_records(e@, version),
{
    let ghost start = pairs_view(out@);
    let ghost v = e@;
    let ghost mut acc: Seq<CodePairView> = Seq::empty();
    let ghost prev = pairs_view(out@);
    emit(out, CodePair::new_string(3, &e.prompt));
    assert(pairs_view(out@) =~= prev + seq![rec(3, ValueView::Str(v.prompt))]);
    proof {
        acc = seq![rec(3, ValueView::Str(v.prompt))];
        assert(pairs_view(out@) =~= start + acc);
    }
    let ghost prev = pairs_view(out@);
    emit(out, CodePair::new_string(2, &e.text_tag));
    assert(pairs_view(out@) =~= prev + seq![rec(2, ValueView::Str(v.text_tag))]);
    proof {
        assert(start + (acc + seq![rec(2, ValueView::Str(v.text_tag))]) =~= (start + acc) + seq![rec(2, ValueView::Str(v.text_tag))]);
        acc = acc + seq![rec(2, ValueView::Str(v.text_tag))];
    }
    let ghost prev = pairs_view(out@);
    emit(out, CodePair::new_i16(70, e.fields.flags as i16));
    assert(pairs_view(out@) =~= prev + seq![rec(70, ValueView::Short(v.fields.flags as i16))]);
    proof {
        assert(start + (acc + seq![rec(70, ValueView::Short(v.fields.flags as i16))]) =~= (start + acc) + seq![rec(70, ValueView::Short(v.fields.flags as i16))]);
        acc = acc + seq![rec(70, ValueView::Short(v.fields.flags as i16))];
    }
    let ghost prev = pairs_view(out@);
    emit_short_unless_zero(out, 73, e.fields.field_length);
    assert(pairs_view(out@) =~= prev + (if v.fields.field_length != 0 { seq![rec(73, ValueView::Short(v.fields.field_length))] } else { Seq::empty() }));
    proof {
        assert(start + (acc + (if v.fields.field_length != 0 { seq![rec(73, ValueView::Short(v.fields.field_length))] } else { Seq::empty() })) =~= (start + acc) + (if v.fields.field_length != 0 { seq![rec(73, ValueView::Short(v.fields.field_length))] } else { Seq::empty() }));
        acc = acc + (if v.fields.field_length != 0 { seq![rec(73, ValueView::Short(v.fields.field_length))] } else { Seq::empty() });
    }
    let ghost prev = pairs_view(out@);
    emit(out, CodePair::new_i16(74, e.fields.vertical_text_justification.to_i16()));
    assert(pairs_view(out@) =~= prev + seq![rec(74, ValueView::Short(v.fields.vertical_text_justification.spec_to_i16()))]);
    proof {
        assert(start + (acc + seq![rec(74, ValueView::Short(v.fields.vertical_text_justification.spec_to_i16()))]) =~= (start + acc) + seq![rec(74, ValueView::Short(v.fields.vertical_text_justification.spec_to_i16()))]);
        acc = acc + seq![rec(74, ValueView::Short(v.fields.vertical_text_justification.spec_to_i16()))];
    }
    let ghost prev = pairs_view(out@);
    write_attribute_definition_3_part_5(e, version, out);
    assert(pairs_view(out@) =~= prev + (if version.spec_at_least(AcadVersion::R2010) { seq![rec(280, ValueView::Short(if v.fields.is_locked_in_block { 1 } else { 0 }))] } else { Seq::empty() }));
    proof {
        assert(start + (acc + (if version.spec_at_least(AcadVersion::R2010) { seq![rec(280, ValueView::Short(if v.fields.is_locked_in_block { 1 } else { 0 }))] } else { Seq::empty() })) =~= (start + acc) + (if version.spec_at_least(AcadVersion::R2010) { seq![rec(280, ValueView::Short(if v.fields.is_locked_in_block { 1 } else { 0 }))] } else { Seq::empty() }));
        acc = acc + (if version.spec_at_least(AcadVersion::R2010) { seq![rec(280, ValueView::Short(if v.fields.is_locked_in_block { 1 } else { 0 }))] } else { Seq::empty() });
    }
}

fn write_attribute_definition_3_part_5(e: &AttributeDefinition, version: AcadVersion, out: &mut Vec<CodePair>)
    ensures
        pairs_view(final(out)@) == pairs_view(old(out)@) + ((if version.spec_at_least(AcadVersion::R2010) { seq![rec(280, ValueView::Short(if e@.fields.is_locked_in_block { 1 } else { 0 }))] } else { Seq::empty() })),
{
    let ghost start = pairs_view(out@);
    if version.at_least(AcadVersion::R2010) {
        let ghost prev0 = pairs_view(out@);
        emit(out, CodePair::new_i16(280, if e.fields.is_locked_in_block { 1 } else { 0 }));
        assert(pairs_view(out@) =~= prev0 + seq![rec(280, ValueView::Short(if e@.fields.is_locked_in_block { 1 } else { 0 }))]);
        assert(pairs_view(out@) =~= start + ((if version.spec_at_least(AcadVersion::R2010) { seq![rec(280, ValueView::Short(if e@.fields.is_locked_in_block { 1 } else { 0 }))] } else { Seq::empty() })));
    } else {
        assert(pairs_view(out@) =~= start + ((if version.spec_at_least(AcadVersion::R2010) { seq![rec(280, ValueView::Short(if e@.fields.is_locked_in_block { 1 } else { 0 }))] } else { Seq::empty() })));
    }
}

/// The records that describe a `AttributeDefinition`'s own fields in the given version.
pub open spec fn attribute_definition_records(v: AttributeDefinitionView, version: AcadVersion) -> Seq<CodePairView> {
    attribute_definition_1_records(v, version)
        + attribute_definition_2_records(v, version)
        + attribute_definition_3_records(v, version)
}

/// Writes a `AttributeDefinition`'s own fields.
pub fn write_attribute_definition(e: &AttributeDefinition, version: AcadVersion, out: &mut Vec<CodePair>)
    ensures
        pairs_view(final(out)@) == pairs_view(old(out)@) + attribute_definition_records(e@, version),
{
    let ghost start = pairs_view(out@);
    let ghost v = e@;
    let ghost mut acc: Seq<CodePairView> = Seq::empty();
    let ghost prev = pairs_view(out@);
    write_attribute_definition_1(e, version, out);
    assert(pairs_view(out@) =~= prev + attribute_definition_1_records(v, version));
    proof {
        acc = attribute_definition_1_records(v, version);
        assert(pairs_view(out@) =~= start + acc);
    }
    let ghost prev = pairs_view(out@);
    write_attribute_definition_2(e, version, out);
    assert(pairs_view(out@) =~= prev + attribute_definition_2_records(v, version));
    proof {
        assert(start + (acc + attribute_definition_2_records(v, version)) =~= (start + acc) + attribute_definition_2_records(v, version));
        acc = acc + attribute_definition_2_records(v, version);
    }
    let ghost prev = pairs_view(out@);
    write_attribute_definition_3(e, version, out);
    assert(pairs_view(out@) =~= prev + attribute_definition_3_records(v, version));
    proof {
        assert(start + (acc + attribute_definition_3_records(v, version)) =~= (start + acc) + attribute_definition_3_records(v, version));
        acc = acc + attribute_definition_3_records(v, version);
    }
}

/// One part of the records of a `Insert`.
pub open spec fn insert_1_records(v: InsertView, version: AcadVersion) -> Seq<CodePairView> {
    seq![rec(100, ValueView::Str("AcDbBlockReference"@))]
        + (if v.attributes_and_handles.len() > 0 { seq![rec(66, ValueView::Short(1))] } else { Seq::empty() })
        + seq![rec(2, ValueView::Str(v.block_name))]
        + point_records(10, v.location)
        + (if v.x_scale_factor != REAL_ONE { seq![rec(41, ValueView::Double(v.x_scale_factor))] } else { Seq::empty() })
        + (if v.y_scale_factor != REAL_ONE { seq![rec(42, ValueView::Double(v.y_scale_factor))] } else { Seq::empty() })
}

/// Writes one part of a `Insert`'s own fields.
#[verifier::rlimit(60)]
pub fn write_insert_1(e: &Insert, version: AcadVersion, out: &mut Vec<CodePair>)
    ensures
        pairs_view(final(out)@) == pairs_view(old(out)@) + insert_1_records(e@, version),
{
    let ghost start = pairs_view(out@);
    let ghost v = e@;
    let ghost mut acc: Seq<CodePairView> = Seq::empty();
    let ghost prev = pairs_view(out@);
    emit(out, CodePair::new_str(100, "AcDbBlockReference"));
    assert(pairs_view(out@) =~= prev + seq![rec(100, ValueView::Str("AcDbBlockReference"@))]);
    proof {
        acc = seq![rec(100, ValueView::Str("AcDbBlockReference"@))];
        assert(pairs_view(out@) =~= start + acc);
    }
    let ghost prev = pairs_view(out@);
    write_insert_1_part_1(e, version, out);
    assert(pairs_view(out@) =~= prev + (if v.attributes_and_handles.len() > 0 { seq![rec(66, ValueView::Short(1))] } else { Seq::empty() }));
    proof {
        assert(start + (acc + (if v.attributes_and_handles.len() > 0 { seq![rec(66, ValueView::Short(1))] } else { Seq::empty() })) =~= (start + acc) + (if v.attributes_and_handles.len() > 0 { seq![rec(66, ValueView::Short(1))] } else { Seq::empty() }));
        acc = acc + (if v.attributes_and_handles.len() > 0 { seq![rec(66, ValueView::Short(1))] } else { Seq::empty() });
    }
    let ghost prev = pairs_view(out@);
    emit(out, CodePair::new_string(2, &e.block_name));
    assert(pairs_view(out@) =~= prev + seq![rec(2, ValueView::Str(v.block_name))]);
    proof {
        assert(start + (acc + seq![rec(2, ValueView::Str(v.block_name))]) =~= (start + acc) + seq![rec(2, ValueView::Str(v.block_name))]);
        acc = acc + seq![rec(2, ValueView::Str(v.block_name))];
    }
    let ghost prev = pairs_view(out@);
    emit_point(out, 10, e.location);
    assert(pairs_view(out@) =~= prev + point_records(10, v.location));
    proof {
        assert(start + (acc + point_records(10, v.location)) =~= (start + acc) + point_records(10, v.location));
        acc = acc + point_records(10, v.location);
    }
    let ghost prev = pairs_view(out@);
    emit_real_unless_one(out, 41, e.x_scale_factor);
    assert(pairs_view(out@) =~= prev + (if v.x_scale_factor != REAL_ONE { seq![rec(41, ValueView::Double(v.x_scale_factor))] } else { Seq::empty() }));
    proof {
        assert(start + (acc + (if v.x_scale_factor != REAL_ONE { seq![rec(41, ValueView::Double(v.x_scale_factor))] } else { Seq::empty() })) =~= (start + acc) + (if v.x_scale_factor != REAL_ONE { seq![rec(41, ValueView::Double(v.x_scale_factor))] } else { Seq::empty() }));
        acc = acc + (if v.x_scale_factor != REAL_ONE { seq![rec(41, ValueView::Double(v.x_scale_factor))] } else { Seq::empty() });
    }
    let ghost prev = pairs_view(out@);
    emit_real_unless_one(out, 42, e.y_scale_factor);
    assert(pairs_view(out@) =~= prev + (if v.y_scale_factor != REAL_ONE { seq![rec(42, ValueView::Double(v.y_scale_factor))] } else { Seq::empty() }));
    proof {
        assert(start + (acc + (if v.y_scale_factor != REAL_ONE { seq![rec(42, ValueView::Double(v.y_scale_factor))] } else { Seq::empty() })) =~= (start + acc) + (if v.y_scale_factor != REAL_ONE { seq![rec(42, ValueView::Double(v.y_scale_factor))] } else { Seq::empty() }));
        acc = acc + (if v.y_scale_factor != REAL_ONE { seq![rec(42, ValueView::Double(v.y_scale_factor))] } else { Seq::empty() });
    }
}

fn write_insert_1_part_1(e: &Insert, version: AcadVersion, out: &mut Vec<CodePair>)
    ensures
        pairs_view(final(out)@) == pairs_view(old(out)@) + ((if e@.attributes_and_handles.len() > 0 { seq![rec(66, ValueView::Short(1))] } else { Seq::empty() })),
{
    let ghost start = pairs_view(out@);
    if e.attributes_and_handles.len() > 0 {
        emit(out, CodePair::new_i16(66, 1));
    }
    assert(pairs_view(out@) =~= start + ((if e@.attributes_and_handles.len() > 0 { seq![rec(66, ValueView::Short(1))] } else { Seq::empty() })));
}

/// One part of the records of a `Insert`.
pub open spec fn insert_2_records(v: InsertView, version: AcadVersion) -> Seq<CodePairView> {
    (if v.z_scale_factor != REAL_ONE { seq![rec(43, ValueView::Double(v.z_scale_factor))] } else { Seq::empty() })
        + (if !is_zero_real(v.rotation) { seq![rec(50, ValueView::Double(v.rotation))] } else { Seq::empty() })
        + (if !is_z_axis(v.extrusion_direction) { point_records(210, v.extrusion_direction) } else { Seq::empty() })
}

/// Writes one part of a `Insert`'s own fields.
pub fn write_insert_2(e: &Insert, version: AcadVersion, out: &mut Vec<CodePair>)
    ensures
        pairs_view(final(out)@) == pairs_view(old(out)@) + insert_2_records(e@, version),
{
    let ghost start = pairs_view(out@);
    let ghost v = e@;
    let ghost mut acc: Seq<CodePairView> = Seq::empty();
    let ghost prev = pairs_view(out@);
    emit_real_unless_one(out, 43, e.z_scale_factor);
    assert(pairs_view(out@) =~= prev + (if v.z_scale_factor != REAL_ONE { seq![rec(43, ValueView::Double(v.z_scale_factor))] } else { Seq::empty() }));
    proof {
        acc = (if v.z_scale_factor != REAL_ONE { seq![rec(43, ValueView::Double(v.z_scale_factor))] } else { Seq::empty() });
        assert(pairs_view(out@) =~= start + acc);
    }
    let ghost prev = pairs_view(out@);
    emit_real_unless_zero(out, 50, e.rotation);
    assert(pairs_view(out@) =~= prev + (if !is_zero_real(v.rotation) { seq![rec(50, ValueView::Double(v.rotation))] } else { Seq::empty() }));
    proof {
        assert(start + (acc + (if !is_zero_real(v.rotation) { seq![rec(50, ValueView::Double(v.rotation))] } else { Seq::empty() })) =~= (start + acc) + (if !is_zero_real(v.rotation) { seq![rec(50, ValueView::Double(v.rotation))] } else { Seq::empty() }));
        acc = acc + (if !is_zero_real(v.rotation) { seq![rec(50, ValueView::Double(v.rotation))] } else { Seq::empty() });
    }
    let ghost prev = pairs_view(out@);
    emit_point_unless_z_axis(out, 210, e.extrusion_direction);
    assert(pairs_view(out@) =~= prev + (if !is_z_axis(v.extrusion_direction) { point_records(210, v.extrusion_direction) } else { Seq::empty() }));
    proof {
        assert(start + (acc + (if !is_z_axis(v.extrusion_direction) { point_records(210, v.extrusion_direction) } else { Seq::empty() })) =~= (start + acc) + (if !is_z_axis(v.extrusion_direction) { point_records(210, v.extrusion_direction) } else { Seq::empty() }));
        acc = acc + (if !is_z_axis(v.extrusion_direction) { point_records(210, v.extrusion_direction) } else { Seq::empty() });
    }
}

/// The records that describe a `Insert`'s own fields in the given version.
pub open spec fn insert_records(v: InsertView, version: AcadVersion) -> Seq<CodePairView> {
    insert_1_records(v, version)
        + insert_2_records(v, version)
}

/// Writes a `Insert`'s own fields.
pub fn write_insert(e: &Insert, version: AcadVersion, out: &mut Vec<CodePair>)
    ensures
        pairs_view(final(out)@) == pairs_view(old(out)@) + insert_records(e@, version),
{
    let ghost start = pairs_view(out@);
    let ghost v = e@;
    let ghost mut acc: Seq<CodePairView> = Seq::empty();
    let ghost prev = pairs_view(out@);
    write_insert_1(e, version, out);
    assert(pairs_view(out@) =~= prev + insert_1_records(v, version));
    proof {
        acc = insert_1_records(v, version);
        assert(pairs_view(out@) =~= start + acc);
    }
    let ghost prev = pairs_view(out@);
    write_insert_2(e, version, out);
    assert(pairs_view(out@) =~= prev + insert_2_records(v, version));
    proof {
        assert(start + (acc + insert_2_records(v, version)) =~= (start + acc) + insert_2_records(v, version));
        acc = acc + insert_2_records(v, version);
    }
}

/// The records that describe a `Seqend`'s own fields in the given version.
pub open spec fn seqend_records(v: Seqend, version: AcadVersion) -> Seq<CodePairView> {
    Seq::empty()
}

/// Writes a `Seqend`'s own fields.
pub fn write_seqend(e: &Seqend, version: AcadVersion, out: &mut Vec<CodePair>)
    ensures
        pairs_view(final(out)@) == pairs_view(old(out)@) + seqend_records(*e, version),
{
    let ghost start = pairs_view(out@);
    let ghost v = *e;
    let ghost mut acc: Seq<CodePairView> = Seq::empty();
    assert(pairs_view(out@) =~= start + Seq::empty());
}

/// One part of the records of a `Polyline`.
pub open spec fn polyline_1_records(v: PolylineView, version: AcadVersion) -> Seq<CodePairView> {
    seq![rec(100, ValueView::Str(if (v.flags & 8) != 0 || (v.flags & 16) != 0 { "AcDb3dPolyline"@ } else { "AcDb2dPolyline"@ }))]
        + (if AcadVersion::R13.spec_at_least(version) { seq![rec(66, ValueView::Short(if v.contains_vertices { 1 } else { 0 }))] } else { Seq::empty() })
        + (if version.spec_at_least(AcadVersion::R12) { point_records(10, v.location) } else { Seq::empty() })
        + (if !is_zero_real(v.thickness) { seq![rec(39, ValueView::Double(v.thickness))] } else { Seq::empty() })
        + (if v.flags != 0 { seq![rec(70, ValueView::Short(v.flags as i16))] } else { Seq::empty() })
        + (if !is_zero_real(v.default_starting_width) { seq![rec(40, ValueView::Double(v.default_starting_width))] } else { Seq::empty() })
}

/// Writes one part of a `Polyline`'s own fields.
#[verifier::rlimit(60)]
pub fn write_polyline_1(e: &Polyline, version: AcadVersion, out: &mut Vec<CodePair>)
    ensures
        pairs_view(final(out)@) == pairs_view(old(out)@) + polyline_1_records(e@, version),
{
    let ghost start = pairs_view(out@);
    let ghost v = e@;
    let ghost mut acc: Seq<CodePairView> = Seq::empty();
    let ghost prev = pairs_view(out@);
    write_polyline_1_part_0(e, version, out);
    assert(pairs_view(out@) =~= prev + seq![rec(100, ValueView::Str(if (v.flags & 8) != 0 || (v.flags & 16) != 0 { "AcDb3dPolyline"@ } else { "AcDb2dPolyline"@ }))]);
    proof {
        acc = seq![rec(100, ValueView::Str(if (v.flags & 8) != 0 || (v.flags & 16) != 0 { "AcDb3dPolyline"@ } else { "AcDb2dPolyline"@ }))];
        assert(pairs_view(out@) =~= start + acc);
    }
    let ghost prev = pairs_view(out@);
    write_polyline_1_part_1(e, version, out);
    assert(pairs_view(out@) =~= prev + (if AcadVersion::R13.spec_at_least(version) { seq![rec(66, ValueView::Short(if v.contains_vertices { 1 } else { 0 }))] } else { Seq::empty() }));
    proof {
        assert(start + (acc + (if AcadVersion::R13.spec_at_least(version) { seq![rec(66, ValueView::Short(if v.contains_vertices { 1 } else { 0 }))] } else { Seq::empty() })) =~= (start + acc) + (if AcadVersion::R13.spec_at_least(version) { seq![rec(66, ValueView::Short(if v.contains_vertices { 1 } else { 0 }))] } else { Seq::empty() }));
        acc = acc + (if AcadVersion::R13.spec_at_least(version) { seq![rec(66, ValueView::Short(if v.contains_vertices { 1 } else { 0 }))] } else { Seq::empty() });
    }
    let ghost prev = pairs_view(out@);
    write_polyline_1_part_2(e, version, out);
    assert(pairs_view(out@) =~= prev + (if version.spec_at_least(AcadVersion::R12) { point_records(10, v.location) } else { Seq::empty() }));
    proof {
        assert(start + (acc + (if version.spec_at_least(AcadVersion::R12) { point_records(10, v.location) } else { Seq::empty() })) =~= (start + acc) + (if version.spec_at_least(AcadVersion::R12) { point_records(10, v.location) } else { Seq::empty() }));
        acc = acc + (if version.spec_at_least(AcadVersion::R12) { point_records(10, v.location) } else { Seq::empty() });
    }
    let ghost prev = pairs_view(out@);
    emit_real_unless_zero(out, 39, e.thickness);
    assert(pairs_view(out@) =~= prev + (if !is_zero_real(v.thickness) { seq![rec(39, ValueView::Double(v.thickness))] } else { Seq::empty() }));
    proof {
        assert(start + (acc + (if !is_zero_real(v.thickness) { seq![rec(39, ValueView::Double(v.thickness))] } else { Seq::empty() })) =~= (start + acc) + (if !is_zero_real(v.thickness) { seq![rec(39, ValueView::Double(v.thickness))] } else { Seq::empty() }));
        acc = acc + (if !is_zero_real(v.thickness) { seq![rec(39, ValueView::Double(v.thickness))] } else { Seq::empty() });
    }
    let ghost prev = pairs_view(out@);
    emit_int_as_short_unless_zero(out, 70, e.flags);
    assert(pairs_view(out@) =~= prev + (if v.flags != 0 { seq![rec(70, ValueView::Short(v.flags as i16))] } else { Seq::empty() }));
    proof {
        assert(start + (acc + (if v.flags != 0 { seq![rec(70, ValueView::Short(v.flags as i16))] } else { Seq::empty() })) =~= (start + acc) + (if v.flags != 0 { seq![rec(70, ValueView::Short(v.flags as i16))] } else { Seq::empty() }));
        acc = acc + (if v.flags != 0 { seq![rec(70, ValueView::Short(v.flags as i16))] } else { Seq::empty() });
    }
    let ghost prev = pairs_view(out@);
    emit_real_unless_zero(out, 40, e.default_starting_width);
    assert(pairs_view(out@) =~= prev + (if !is_zero_real(v.default_starting_width) { seq![rec(40, ValueView::Double(v.default_starting_width))] } else { Seq::empty() }));
    proof {
        assert(start + (acc + (if !is_zero_real(v.default_starting_width) { seq![rec(40, ValueView::Double(v.default_starting_width))] } else { Seq::empty() })) =~= (start + acc) + (if !is_zero_real(v.default_starting_width) { seq![rec(40, ValueView::Double(v.default_starting_width))] } else { Seq::empty() }));
        acc = acc + (if !is_zero_real(v.default_starting_width) { seq![rec(40, ValueView::Double(v.default_starting_width))] } else { Seq::empty() });
    }
}

fn write_polyline_1_part_0(e: &Polyline, version: AcadVersion, out: &mut Vec<CodePair>)
    ensures
        pairs_view(final(out)@) == pairs_view(old(out)@) + (seq![rec(100, ValueView::Str(if (e@.flags & 8) != 0 || (e@.flags & 16) != 0 { "AcDb3dPolyline"@ } else { "AcDb2dPolyline"@ }))]),
{
    let ghost start = pairs_view(out@);
    let marker = if e.get_is_3d_polyline() || e.get_is_3d_polygon_mesh() {
        "AcDb3dPolyline"
    } else {
        "AcDb2dPolyline"
    };
    emit(out, CodePair::new_str(100, marker));
    assert(pairs_view(out@) =~= start + (seq![rec(100, ValueView::Str(if (e@.flags & 8) != 0 || (e@.flags & 16) != 0 { "AcDb3dPolyline"@ } else { "AcDb2dPolyline"@ }))]));
}

fn write_polyline_1_part_1(e: &Polyline, version: AcadVersion, out: &mut Vec<CodePair>)
    ensures
        pairs_view(final(out)@) == pairs_view(old(out)@) + ((if AcadVersion::R13.spec_at_least(version) { seq![rec(66, ValueView::Short(if e@.contains_vertices { 1 } else { 0 }))] } else { Seq::empty() })),
{
    let ghost start = pairs_view(out@);
    if AcadVersion::R13.at_least(version) {
        let ghost prev0 = pairs_view(out@);
        emit(out, CodePair::new_i16(66, if e.contains_vertices { 1 } else { 0 }));
        assert(pairs_view(out@) =~= prev0 + seq![rec(66, ValueView::Short(if e@.contains_vertices { 1 } else { 0 }))]);
        assert(pairs_view(out@) =~= start + ((if AcadVersion::R13.spec_at_least(version) { seq![rec(66, ValueView::Short(if e@.contains_vertices { 1 } else { 0 }))] } else { Seq::empty() })));
    } else {
        assert(pairs_view(out@) =~= start + ((if AcadVersion::R13.spec_at_least(version) { seq![rec(66, ValueView::Short(if e@.contains_vertices { 1 } else { 0 }))] } else { Seq::empty() })));
    }
}

fn write_polyline_1_part_2(e: &Polyline, version: AcadVersion, out: &mut Vec<CodePair>)
    ensures
        pairs_view(final(out)@) == pairs_view(old(out)@) + ((if version.spec_at_least(AcadVersion::R12) { point_records(10, e@.location) } else { Seq::empty() })),
{
    let ghost start = pairs_view(out@);
    if version.at_least(AcadVersion::R12) {
        let ghost prev0 = pairs_view(out@);
        emit_point(out, 10, e.location);
        assert(pairs_view(out@) =~= prev0 + point_records(10, e@.location));
        assert(pairs_view(out@) =~= start + ((if version.spec_at_least(AcadVersion::R12) { point_records(10, e@.location) } else { Seq::empty() })));
    } else {
        assert(pairs_view(out@) =~= start + ((if version.spec_at_least(AcadVersion::R12) { point_records(10, e@.location) } else { Seq::empty() })));
    }
}

/// One part of the records of a `Polyline`.
pub open spec fn polyline_2_records(v: PolylineView, version: AcadVersion) -> Seq<CodePairView> {
    (if !is_zero_real(v.default_ending_width) { seq![rec(41, ValueView::Double(v.default_ending_width))] } else { Seq::empty() })
        + (if v.polygon_mesh_m_vertex_count != 0 { seq![rec(71, ValueView::Short(v.polygon_mesh_m_vertex_count as i16))] } else { Seq::empty() })
        + (if v.polygon_mesh_n_vertex_count != 0 { seq![rec(72, ValueView::Short(v.polygon_mesh_n_vertex_count as i16))] } else { Seq::empty() })
        + (if v.smooth_surface_m_density != 0 { seq![rec(73, ValueView::Short(v.smooth_surface_m_density as i16))] } else { Seq::empty() })
        + (if v.smooth_surface_n_density != 0 { seq![rec(74, ValueView::Short(v.smooth_surface_n_density as i16))] } else { Seq::empty() })
        + (if v.surface_type != PolylineCurvedAndSmoothSurfaceType::NoSmoothing { seq![rec(75, ValueView::Short(v.surface_type.spec_to_i16()))] } else { Seq::empty() })
}

/// Writes one part of a `Polyline`'s own fields.
#[verifier::rlimit(60)]
pub fn write_polyline_2(e: &Polyline, version: AcadVersion, out: &mut Vec<CodePair>)
    ensures
        pairs_view(final(out)@) == pairs_view(old(out)@) + polyline_2_records(e@, version),
{
    let ghost start = pairs_view(out@);
    let ghost v = e@;
    let ghost mut acc: Seq<CodePairView> = Seq::empty();
    let ghost prev = pairs_view(out@);
    emit_real_unless_zero(out, 41, e.default_ending_width);
    assert(pairs_view(out@) =~= prev + (if !is_zero_real(v.default_ending_width) { seq![rec(41, ValueView::Double(v.default_ending_width))] } else { Seq::empty() }));
    proof {
        acc = (if !is_zero_real(v.default_ending_width) { seq![rec(41, ValueView::Double(v.default_ending_width))] } else { Seq::empty() });
        assert(pairs_view(out@) =~= start + acc);
    }
    let ghost prev = pairs_view(out@);
    emit_int_as_short_unless_zero(out, 71, e.polygon_mesh_m_vertex_count);
    assert(pairs_view(out@) =~= prev + (if v.polygon_mesh_m_vertex_count != 0 { seq![rec(71, ValueView::Short(v.polygon_mesh_m_vertex_count as i16))] } else { Seq::empty() }));
    proof {
        assert(start + (acc + (if v.polygon_mesh_m_vertex_count != 0 { seq![rec(71, ValueView::Short(v.polygon_mesh_m_vertex_count as i16))] } else { Seq::empty() })) =~= (start + acc) + (if v.polygon_mesh_m_vertex_count != 0 { seq![rec(71, ValueView::Short(v.polygon_mesh_m_vertex_count as i16))] } else { Seq::empty() }));
        acc = acc + (if v.polygon_mesh_m_vertex_count != 0 { seq![rec(71, ValueView::Short(v.polygon_mesh_m_vertex_count as i16))] } else { Seq::empty() });
    }
    let ghost prev = pairs_view(out@);
    emit_int_as_short_unless_zero(out, 72, e.polygon_mesh_n_vertex_count);
    assert(pairs_view(out@) =~= prev + (if v.polygon_mesh_n_vertex_count != 0 { seq![rec(72, ValueView::Short(v.polygon_mesh_n_vertex_count as i16))] } else { Seq::empty() }));
    proof {
        assert(start + (acc + (if v.polygon_mesh_n_vertex_count != 0 { seq![rec(72, ValueView::Short(v.polygon_mesh_n_vertex_count as i16))] } else { Seq::empty() })) =~= (start + acc) + (if v.polygon_mesh_n_vertex_count != 0 { seq![rec(72, ValueView::Short(v.polygon_mesh_n_vertex_count as i16))] } else { Seq::empty() }));
        acc = acc + (if v.polygon_mesh_n_vertex_count != 0 { seq![rec(72, ValueView::Short(v.polygon_mesh_n_vertex_count as i16))] } else { Seq::empty() });
    }
    let ghost prev = pairs_view(out@);
    emit_int_as_short_unless_zero(out, 73, e.smooth_surface_m_density);
    assert(pairs_view(out@) =~= prev + (if v.smooth_surface_m_density != 0 { seq![rec(73, ValueView::Short(v.smooth_surface_m_density as i16))] } else { Seq::empty() }));
    proof {
        assert(start + (acc + (if v.smooth_surface_m_density != 0 { seq![rec(73, ValueView::Short(v.smooth_surface_m_density as i16))] } else { Seq::empty() })) =~= (start + acc) + (if v.smooth_surface_m_density != 0 { seq![rec(73, ValueView::Short(v.smooth_surface_m_density as i16))] } else { Seq::empty() }));
        acc = acc + (if v.smooth_surface_m_density != 0 { seq![rec(73, ValueView::Short(v.smooth_surface_m_density as i16))] } else { Seq::empty() });
    }
    let ghost prev = pairs_view(out@);
    emit_int_as_short_unless_zero(out, 74, e.smooth_surface_n_density);
    assert(pairs_view(out@) =~= prev + (if v.smooth_surface_n_density != 0 { seq![rec(74, ValueView::Short(v.smooth_surface_n_density as i16))] } else { Seq::empty() }));
    proof {
        assert(start + (acc + (if v.smooth_surface_n_density != 0 { seq![rec(74, ValueView::Short(v.smooth_surface_n_density as i16))] } else { Seq::empty() })) =~= (start + acc) + (if v.smooth_surface_n_density != 0 { seq![rec(74, ValueView::Short(v.smooth_surface_n_density as i16))] } else { Seq::empty() }));
        acc = acc + (if v.smooth_surface_n_density != 0 { seq![rec(74, ValueView::Short(v.smooth_surface_n_density as i16))] } else { Seq::empty() });
    }
    let ghost prev = pairs_view(out@);
    write_polyline_2_part_5(e, version, out);
    assert(pairs_view(out@) =~= prev + (if v.surface_type != PolylineCurvedAndSmoothSurfaceType::NoSmoothing { seq![rec(75, ValueView::Short(v.surface_type.spec_to_i16()))] } else { Seq::empty() }));
    proof {
        assert(start + (acc + (if v.surface_type != PolylineCurvedAndSmoothSurfaceType::NoSmoothing { seq![rec(75, ValueView::Short(v.surface_type.spec_to_i16()))] } else { Seq::empty() })) =~= (start + acc) + (if v.surface_type != PolylineCurvedAndSmoothSurfaceType::NoSmoothing { seq![rec(75, ValueView::Short(v.surface_type.spec_to_i16()))] } else { Seq::empty() }));
        acc = acc + (if v.surface_type != PolylineCurvedAndSmoothSurfaceType::NoSmoothing { seq![rec(75, ValueView::Short(v.surface_type.spec_to_i16()))] } else { Seq::empty() });
    }
}

fn write_polyline_2_part_5(e: &Polyline, version: AcadVersion, out: &mut Vec<CodePair>)
    ensures
        pairs_view(final(out)@) == pairs_view(old(out)@) + ((if e@.surface_type != PolylineCurvedAndSmoothSurfaceType::NoSmoothing { seq![rec(75, ValueView::Short(e@.surface_type.spec_to_i16()))] } else { Seq::empty() })),
{
    let ghost start = pairs_view(out@);
    if e.surface_type != PolylineCurvedAndSmoothSurfaceType::NoSmoothing {
        emit(out, CodePair::new_i16(75, e.surface_type.to_i16()));
    }
    assert(pairs_view(out@) =~= start + ((if e@.surface_type != PolylineCurvedAndSmoothSurfaceType::NoSmoothing { seq![rec(75, ValueView::Short(e@.surface_type.spec_to_i16()))] } else { Seq::empty() })));
}

/// One part of the records of a `Polyline`.
pub open spec fn polyline_3_records(v: PolylineView, version: AcadVersion) -> Seq<CodePairView> {
    (if !is_z_axis(v.normal) { point_records(210, v.normal) } else { Seq::empty() })
}

/// Writes one part of a `Polyline`'s own fields.
pub fn write_polyline_3(e: &Polyline, version: AcadVersion, out: &mut Vec<CodePair>)
    ensures
        pairs_view(final(out)@) == pairs_view(old(out)@) + polyline_3_records(e@, version),
{
    let ghost start = pairs_view(out@);
    let ghost v = e@;
    let ghost mut acc: Seq<CodePairView> = Seq::empty();
    let ghost prev = pairs_view(out@);
    emit_point_unless_z_axis(out, 210, e.normal);
    assert(pairs_view(out@) =~= prev + (if !is_z_axis(v.normal) { point_records(210, v.normal) } else { Seq::empty() }));
    proof {
        acc = (if !is_z_axis(v.normal) { point_records(210, v.normal) } else { Seq::empty() });
        assert(pairs_view(out@) =~= start + acc);
    }
}

/// The records that describe a `Polyline`'s own fields in the given version.
pub open spec fn polyline_records(v: PolylineView, version: AcadVersion) -> Seq<CodePairView> {
    polyline_1_records(v, version)
        + polyline_2_records(v, version)
        + polyline_3_records(v, version)
}

/// Writes a `Polyline`'s own fields.
pub fn write_polyline(e: &Polyline, version: AcadVersion, out: &mut Vec<CodePair>)
    ensures
        pairs_view(final(out)@) == pairs_view(old(out)@) + polyline_records(e@, version),
{
    let ghost start = pairs_view(out@);
    let ghost v = e@;
    let ghost mut acc: Seq<CodePairView> = Seq::empty();
    let ghost prev = pairs_view(out@);
    write_polyline_1(e, version, out);
    assert(pairs_view(out@) =~= prev + polyline_1_records(v, version));
    proof {
        acc = polyline_1_records(v, version);
        assert(pairs_view(out@) =~= start + acc);
    }
    let ghost prev = pairs_view(out@);
    write_polyline_2(e, version, out);
    assert(pairs_view(out@) =~= prev + polyline_2_records(v, version));
    proof {
        assert(start + (acc + polyline_2_records(v, version)) =~= (start + acc) + polyline_2_records(v, version));
        acc = acc + polyline_2_records(v, version);
    }
    let ghost prev = pairs_view(out@);
    write_polyline_3(e, version, out);
    assert(pairs_view(out@) =~= prev + polyline_3_records(v, version));
    proof {
        assert(start + (acc + polyline_3_records(v, version)) =~= (start + acc) + polyline_3_records(v, version));
        acc = acc + polyline_3_records(v, version);
    }
}

/// One part of the records of a `Vertex`.
pub open spec fn vertex_1_records(v: Vertex, version: AcadVersion) -> Seq<CodePairView> {
    seq![rec(100, ValueView::Str("AcDbVertex"@))]
        + seq![rec(100, ValueView::Str(if (v.flags & 32) != 0 || (v.flags & 64) != 0 { "AcDb3dPolylineVertex"@ } else { "AcDb2dVertex"@ }))]
        + point_records(10, v.location)
        + (if !is_zero_real(v.starting_width) { seq![rec(40, ValueView::Double(v.starting_width))] } else { Seq::empty() })
        + (if !is_zero_real(v.ending_width) { seq![rec(41, ValueView::Double(v.ending_width))] } else { Seq::empty() })
        + (if !is_zero_real(v.bulge) { seq![rec(42, ValueView::Double(v.bulge))] } else { Seq::empty() })
}

/// Writes one part of a `Vertex`'s own fields.
#[verifier::rlimit(60)]
pub fn write_vertex_1(e: &Vertex, version: AcadVersion, out: &mut Vec<CodePair>)
    ensures
        pairs_view(final(out)@) == pairs_view(old(out)@) + vertex_1_records(*e, version),
{
    let ghost start = pairs_view(out@);
    let ghost v = *e;
    let ghost mut acc: Seq<CodePairView> = Seq::empty();
    let ghost prev = pairs_view(out@);
    emit(out, CodePair::new_str(100, "AcDbVertex"));
    assert(pairs_view(out@) =~= prev + seq![rec(100, ValueView::Str("AcDbVertex"@))]);
    proof {
        acc = seq![rec(100, ValueView::Str("AcDbVertex"@))];
        assert(pairs_view(out@) =~= start + acc);
    }
    let ghost prev = pairs_view(out@);
    write_vertex_1_part_1(e, version, out);
    assert(pairs_view(out@) =~= prev + seq![rec(100, ValueView::Str(if (v.flags & 32) != 0 || (v.flags & 64) != 0 { "AcDb3dPolylineVertex"@ } else { "AcDb2dVertex"@ }))]);
    proof {
        assert(start + (acc + seq![rec(100, ValueView::Str(if (v.flags & 32) != 0 || (v.flags & 64) != 0 { "AcDb3dPolylineVertex"@ } else { "AcDb2dVertex"@ }))]) =~= (start + acc) + seq![rec(100, ValueView::Str(if (v.flags & 32) != 0 || (v.flags & 64) != 0 { "AcDb3dPolylineVertex"@ } else { "AcDb2dVertex"@ }))]);
        acc = acc + seq![rec(100, ValueView::Str(if (v.flags & 32) != 0 || (v.flags & 64) != 0 { "AcDb3dPolylineVertex"@ } else { "AcDb2dVertex"@ }))];
    }
    let ghost prev = pairs_view(out@);
    emit_point(out, 10, e.location);
    assert(pairs_view(out@) =~= prev + point_records(10, v.location));
    proof {
        assert(start + (acc + point_records(10, v.location)) =~= (start + acc) + point_records(10, v.location));
        acc = acc + point_records(10, v.location);
    }
    let ghost prev = pairs_view(out@);
    emit_real_unless_zero(out, 40, e.starting_width);
    assert(pairs_view(out@) =~= prev + (if !is_zero_real(v.starting_width) { seq![rec(40, ValueView::Double(v.starting_width))] } else { Seq::empty() }));
    proof {
        assert(start + (acc + (if !is_zero_real(v.starting_width) { seq![rec(40, ValueView::Double(v.starting_width))] } else { Seq::empty() })) =~= (start + acc) + (if !is_zero_real(v.starting_width) { seq![rec(40, ValueView::Double(v.starting_width))] } else { Seq::empty() }));
        acc = acc + (if !is_zero_real(v.starting_width) { seq![rec(40, ValueView::Double(v.starting_width))] } else { Seq::empty() });
    }
    let ghost prev = pairs_view(out@);
    emit_real_unless_zero(out, 41, e.ending_width);
    assert(pairs_view(out@) =~= prev + (if !is_zero_real(v.ending_width) { seq![rec(41, ValueView::Double(v.ending_width))] } else { Seq::empty() }));
    proof {
        assert(start + (acc + (if !is_zero_real(v.ending_width) { seq![rec(41, ValueView::Double(v.ending_width))] } else { Seq::empty() })) =~= (start + acc) + (if !is_zero_real(v.ending_width) { seq![rec(41, ValueView::Double(v.ending_width))] } else { Seq::empty() }));
        acc = acc + (if !is_zero_real(v.ending_width) { seq![rec(41, ValueView::Double(v.ending_width))] } else { Seq::empty() });
    }
    let ghost prev = pairs_view(out@);
    emit_real_unless_zero(out, 42, e.bulge);
    assert(pairs_view(out@) =~= prev + (if !is_zero_real(v.bulge) { seq![rec(42, ValueView::Double(v.bulge))] } else { Seq::empty() }));
    proof {
        assert(start + (acc + (if !is_zero_real(v.bulge) { seq![rec(42, ValueView::Double(v.bulge))] } else { Seq::empty() })) =~= (start + acc) + (if !is_zero_real(v.bulge) { seq![rec(42, ValueView::Double(v.bulge))] } else { Seq::empty() }));
        acc = acc + (if !is_zero_real(v.bulge) { seq![rec(42, ValueView::Double(v.bulge))] } else { Seq::empty() });
    }
}

fn write_vertex_1_part_1(e: &Vertex, version: AcadVersion, out: &mut Vec<CodePair>)
    ensures
        pairs_view(final(out)@) == pairs_view(old(out)@) + (seq![rec(100, ValueView::Str(if (e.flags & 32) != 0 || (e.flags & 64) != 0 { "AcDb3dPolylineVertex"@ } else { "AcDb2dVertex"@ }))]),
{
    let ghost start = pairs_view(out@);
    let marker = if e.get_is_3d_polyline_vertex() || e.get_is_3d_polygon_mesh() {
        "AcDb3dPolylineVertex"
    } else {
        "AcDb2dVertex"
    };
    emit(out, CodePair::new_str(100, marker));
    assert(pairs_view(out@) =~= start + (seq![rec(100, ValueView::Str(if (e.flags & 32) != 0 || (e.flags & 64) != 0 { "AcDb3dPolylineVertex"@ } else { "AcDb2dVertex"@ }))]));
}

/// One part of the records of a `Vertex`.
pub open spec fn vertex_2_records(v: Vertex, version: AcadVersion) -> Seq<CodePairView> {
    seq![rec(70, ValueView::Short(v.flags as i16))]
        + seq![rec(50, ValueView::Double(v.curve_fit_tangent_direction))]
        + (if version.spec_at_least(AcadVersion::R13) { (if v.polyface_mesh_vertex_index1 != 0 { seq![rec(71, ValueView::Short(v.polyface_mesh_vertex_index1 as i16))] } else { Seq::empty() }) + (if v.polyface_mesh_vertex_index2 != 0 { seq![rec(72, ValueView::Short(v.polyface_mesh_vertex_index2 as i16))] } else { Seq::empty() }) + (if v.polyface_mesh_vertex_index3 != 0 { seq![rec(73, ValueView::Short(v.polyface_mesh_vertex_index3 as i16))] } else { Seq::empty() }) + (if v.polyface_mesh_vertex_index4 != 0 { seq![rec(74, ValueView::Short(v.polyface_mesh_vertex_index4 as i16))] } else { Seq::empty() }) } else { Seq::empty() })
        + (if version.spec_at_least(AcadVersion::R2010) { seq![rec(91, ValueView::Integer(v.identifier))] } else { Seq::empty() })
}

/// Writes one part of a `Vertex`'s own fields.
pub fn write_vertex_2(e: &Vertex, version: AcadVersion, out: &mut Vec<CodePair>)
    ensures
        pairs_view(final(out)@) == pairs_view(old(out)@) + vertex_2_records(*e, version),
{
    let ghost start = pairs_view(out@);
    let ghost v = *e;
    let ghost mut acc: Seq<CodePairView> = Seq::empty();
    let ghost prev = pairs_view(out@);
    emit(out, CodePair::new_i16(70, e.flags as i16));
    assert(pairs_view(out@) =~= prev + seq![rec(70, ValueView::Short(v.flags as i16))]);
    proof {
        acc = seq![rec(70, ValueView::Short(v.flags as i16))];
        assert(pairs_view(out@) =~= start + acc);
    }
    let ghost prev = pairs_view(out@);
    emit(out, CodePair::new_real(50, e.curve_fit_tangent_direction));
    assert(pairs_view(out@) =~= prev + seq![rec(50, ValueView::Double(v.curve_fit_tangent_direction))]);
    proof {
        assert(start + (acc + seq![rec(50, ValueView::Double(v.curve_fit_tangent_direction))]) =~= (start + acc) + seq![rec(50, ValueView::Double(v.curve_fit_tangent_direction))]);
        acc = acc + seq![rec(50, ValueView::Double(v.curve_fit_tangent_direction))];
    }
    let ghost prev = pairs_view(out@);
    write_vertex_2_part_2(e, version, out);
    assert(pairs_view(out@) =~= prev + (if version.spec_at_least(AcadVersion::R13) { (if v.polyface_mesh_vertex_index1 != 0 { seq![rec(71, ValueView::Short(v.polyface_mesh_vertex_index1 as i16))] } else { Seq::empty() }) + (if v.polyface_mesh_vertex_index2 != 0 { seq![rec(72, ValueView::Short(v.polyface_mesh_vertex_index2 as i16))] } else { Seq::empty() }) + (if v.polyface_mesh_vertex_index3 != 0 { seq![rec(73, ValueView::Short(v.polyface_mesh_vertex_index3 as i16))] } else { Seq::empty() }) + (if v.polyface_mesh_vertex_index4 != 0 { seq![rec(74, ValueView::Short(v.polyface_mesh_vertex_index4 as i16))] } else { Seq::empty() }) } else { Seq::empty() }));
    proof {
        assert(start + (acc + (if version.spec_at_least(AcadVersion::R13) { (if v.polyface_mesh_vertex_index1 != 0 { seq![rec(71, ValueView::Short(v.polyface_mesh_vertex_index1 as i16))] } else { Seq::empty() }) + (if v.polyface_mesh_vertex_index2 != 0 { seq![rec(72, ValueView::Short(v.polyface_mesh_vertex_index2 as i16))] } else { Seq::empty() }) + (if v.polyface_mesh_vertex_index3 != 0 { seq![rec(73, ValueView::Short(v.polyface_mesh_vertex_index3 as i16))] } else { Seq::empty() }) + (if v.polyface_mesh_vertex_index4 != 0 { seq![rec(74, ValueView::Short(v.polyface_mesh_vertex_index4 as i16))] } else { Seq::empty() }) } else { Seq::empty() })) =~= (start + acc) + (if version.spec_at_least(AcadVersion::R13) { (if v.polyface_mesh_vertex_index1 != 0 { seq![rec(71, ValueView::Short(v.polyface_mesh_vertex_index1 as i16))] } else { Seq::empty() }) + (if v.polyface_mesh_vertex_index2 != 0 { seq![rec(72, ValueView::Short(v.polyface_mesh_vertex_index2 as i16))] } else { Seq::empty() }) + (if v.polyface_mesh_vertex_index3 != 0 { seq![rec(73, ValueView::Short(v.polyface_mesh_vertex_index3 as i16))] } else { Seq::empty() }) + (if v.polyface_mesh_vertex_index4 != 0 { seq![rec(74, ValueView::Short(v.polyface_mesh_vertex_index4 as i16))] } else { Seq::empty() }) } else { Seq::empty() }));
        acc = acc + (if version.spec_at_least(AcadVersion::R13) { (if v.polyface_mesh_vertex_index1 != 0 { seq![rec(71, ValueView::Short(v.polyface_mesh_vertex_index1 as i16))] } else { Seq::empty() }) + (if v.polyface_mesh_vertex_index2 != 0 { seq![rec(72, ValueView::Short(v.polyface_mesh_vertex_index2 as i16))] } else { Seq::empty() }) + (if v.polyface_mesh_vertex_index3 != 0 { seq![rec(73, ValueView::Short(v.polyface_mesh_vertex_index3 as i16))] } else { Seq::empty() }) + (if v.polyface_mesh_vertex_index4 != 0 { seq![rec(74, ValueView::Short(v.polyface_mesh_vertex_index4 as i16))] } else { Seq::empty() }) } else { Seq::empty() });
    }
    let ghost prev = pairs_view(out@);
    write_vertex_2_part_3(e, version, out);
    assert(pairs_view(out@) =~= prev + (if version.spec_at_least(AcadVersion::R2010) { seq![rec(91, ValueView::Integer(v.identifier))] } else { Seq::empty() }));
    proof {
        assert(start + (acc + (if version.spec_at_least(AcadVersion::R2010) { seq![rec(91, ValueView::Integer(v.identifier))] } else { Seq::empty() })) =~= (start + acc) + (if version.spec_at_least(AcadVersion::R2010) { seq![rec(91, ValueView::Integer(v.identifier))] } else { Seq::empty() }));
        acc = acc + (if version.spec_at_least(AcadVersion::R2010) { seq![rec(91, ValueView::Integer(v.identifier))] } else { Seq::empty() });
    }
}

fn write_vertex_2_part_2(e: &Vertex, version: AcadVersion, out: &mut Vec<CodePair>)
    ensures
        pairs_view(final(out)@) == pairs_view(old(out)@) + ((if version.spec_at_least(AcadVersion::R13) { (if e.polyface_mesh_vertex_index1 != 0 { seq![rec(71, ValueView::Short(e.polyface_mesh_vertex_index1 as i16))] } else { Seq::empty() }) + (if e.polyface_mesh_vertex_index2 != 0 { seq![rec(72, ValueView::Short(e.polyface_mesh_vertex_index2 as i16))] } else { Seq::empty() }) + (if e.polyface_mesh_vertex_index3 != 0 { seq![rec(73, ValueView::Short(e.polyface_mesh_vertex_index3 as i16))] } else { Seq::empty() }) + (if e.polyface_mesh_vertex_index4 != 0 { seq![rec(74, ValueView::Short(e.polyface_mesh_vertex_index4 as i16))] } else { Seq::empty() }) } else { Seq::empty() })),
{
    let ghost start = pairs_view(out@);
    if version.at_least(AcadVersion::R13) {
        let ghost prev0 = pairs_view(out@);
        emit_int_as_short_unless_zero(out, 71, e.polyface_mesh_vertex_index1);
        assert(pairs_view(out@) =~= prev0 + (if e.polyface_mesh_vertex_index1 != 0 { seq![rec(71, ValueView::Short(e.polyface_mesh_vertex_index1 as i16))] } else { Seq::empty() }));
        let ghost prev1 = pairs_view(out@);
        emit_int_as_short_unless_zero(out, 72, e.polyface_mesh_vertex_index2);
        assert(pairs_view(out@) =~= prev1 + (if e.polyface_mesh_vertex_index2 != 0 { seq![rec(72, ValueView::Short(e.polyface_mesh_vertex_index2 as i16))] } else { Seq::empty() }));
        let ghost prev2 = pairs_view(out@);
        emit_int_as_short_unless_zero(out, 73, e.polyface_mesh_vertex_index3);
        assert(pairs_view(out@) =~= prev2 + (if e.polyface_mesh_vertex_index3 != 0 { seq![rec(73, ValueView::Short(e.polyface_mesh_vertex_index3 as i16))] } else { Seq::empty() }));
        let ghost prev3 = pairs_view(out@);
        emit_int_as_short_unless_zero(out, 74, e.polyface_mesh_vertex_index4);
        assert(pairs_view(out@) =~= prev3 + (if e.polyface_mesh_vertex_index4 != 0 { seq![rec(74, ValueView::Short(e.polyface_mesh_vertex_index4 as i16))] } else { Seq::empty() }));
        assert(pairs_view(out@) =~= start + ((if version.spec_at_least(AcadVersion::R13) { (if e.polyface_mesh_vertex_index1 != 0 { seq![rec(71, ValueView::Short(e.polyface_mesh_vertex_index1 as i16))] } else { Seq::empty() }) + (if e.polyface_mesh_vertex_index2 != 0 { seq![rec(72, ValueView::Short(e.polyface_mesh_vertex_index2 as i16))] } else { Seq::empty() }) + (if e.polyface_mesh_vertex_index3 != 0 { seq![rec(73, ValueView::Short(e.polyface_mesh_vertex_index3 as i16))] } else { Seq::empty() }) + (if e.polyface_mesh_vertex_index4 != 0 { seq![rec(74, ValueView::Short(e.polyface_mesh_vertex_index4 as i16))] } else { Seq::empty() }) } else { Seq::empty() })));
    } else {
        assert(pairs_view(out@) =~= start + ((if version.spec_at_least(AcadVersion::R13) { (if e.polyface_mesh_vertex_index1 != 0 { seq![rec(71, ValueView::Short(e.polyface_mesh_vertex_index1 as i16))] } else { Seq::empty() }) + (if e.polyface_mesh_vertex_index2 != 0 { seq![rec(72, ValueView::Short(e.polyface_mesh_vertex_index2 as i16))] } else { Seq::empty() }) + (if e.polyface_mesh_vertex_index3 != 0 { seq![rec(73, ValueView::Short(e.polyface_mesh_vertex_index3 as i16))] } else { Seq::empty() }) + (if e.polyface_mesh_vertex_index4 != 0 { seq![rec(74, ValueView::Short(e.polyface_mesh_vertex_index4 as i16))] } else { Seq::empty() }) } else { Seq::empty() })));
    }
}

fn write_vertex_2_part_3(e: &Vertex, version: AcadVersion, out: &mut Vec<CodePair>)
    ensures
        pairs_view(final(out)@) == pairs_view(old(out)@) + ((if version.spec_at_least(AcadVersion::R2010) { seq![rec(91, ValueView::Integer(e.identifier))] } else { Seq::empty() })),
{
    let ghost start = pairs_view(out@);
    if version.at_least(AcadVersion::R2010) {
        let ghost prev0 = pairs_view(out@);
        emit(out, CodePair::new_i32(91, e.identifier));
        assert(pairs_view(out@) =~= prev0 + seq![rec(91, ValueView::Integer(e.identifier))]);
        assert(pairs_view(out@) =~= start + ((if version.spec_at_least(AcadVersion::R2010) { seq![rec(91, ValueView::Integer(e.identifier))] } else { Seq::empty() })));
    } else {
        assert(pairs_view(out@) =~= start + ((if version.spec_at_least(AcadVersion::R2010) { seq![rec(91, ValueView::Integer(e.identifier))] } else { Seq::empty() })));
    }
}

/// The records that describe a `Vertex`'s own fields in the given version.
pub open spec fn vertex_records(v: Vertex, version: AcadVersion) -> Seq<CodePairView> {
    vertex_1_records(v, version)
        + vertex_2_records(v, version)
}

/// Writes a `Vertex`'s own fields.
pub fn write_vertex(e: &Vertex, version: AcadVersion, out: &mut Vec<CodePair>)
    ensures
        pairs_view(final(out)@) == pairs_view(old(out)@) + vertex_records(*e, version),
{
    let ghost start = pairs_view(out@);
    let ghost v = *e;
    let ghost mut acc: Seq<CodePairView> = Seq::empty();
    let ghost prev = pairs_view(out@);
    write_vertex_1(e, version, out);
    assert(pairs_view(out@) =~= prev + vertex_1_records(v, version));
    proof {
        acc = vertex_1_records(v, version);
        assert(pairs_view(out@) =~= start + acc);
    }
    let ghost prev = pairs_view(out@);
    write_vertex_2(e, version, out);
    assert(pairs_view(out@) =~= prev + vertex_2_records(v, version));
    proof {
        assert(start + (acc + vertex_2_records(v, version)) =~= (start + acc) + vertex_2_records(v, version));
        acc = acc + vertex_2_records(v, version);
    }
}

/// One part of the records of a `DimensionBase`.
pub open spec fn dimension_base_1_records(v: DimensionBaseView, version: AcadVersion) -> Seq<CodePairView> {
    (if version.spec_at_least(AcadVersion::R13) { seq![rec(100, ValueView::Str("AcDbDimension"@))] } else { Seq::empty() })
        + (if version.spec_at_least(AcadVersion::R2010) { seq![rec(280, ValueView::Short(v.version.spec_to_i16()))] } else { Seq::empty() })
        + seq![rec(2, ValueView::Str(v.block_name))]
        + point_records(10, v.definition_point_1)
        + point_records(11, v.text_mid_point)
        + seq![rec(70, ValueView::Short(dimension_type_code(v)))]
}

/// Writes one part of a `DimensionBase`'s own fields.
#[verifier::rlimit(60)]
pub fn write_dimension_base_1(e: &DimensionBase, version: AcadVersion, out: &mut Vec<CodePair>)
    ensures
        pairs_view(final(out)@) == pairs_view(old(out)@) + dimension_base_1_records(e@, version),
{
    let ghost start = pairs_view(out@);
    let ghost v = e@;
    let ghost mut acc: Seq<CodePairView> = Seq::empty();
    let ghost prev = pairs_view(out@);
    write_dimension_base_1_part_0(e, version, out);
    assert(pairs_view(out@) =~= prev + (if version.spec_at_least(AcadVersion::R13) { seq![rec(100, ValueView::Str("AcDbDimension"@))] } else { Seq::empty() }));
    proof {
        acc = (if version.spec_at_least(AcadVersion::R13) { seq![rec(100, ValueView::Str("AcDbDimension"@))] } else { Seq::empty() });
        assert(pairs_view(out@) =~= start + acc);
    }
    let ghost prev = pairs_view(out@);
    write_dimension_base_1_part_1(e, version, out);
    assert(pairs_view(out@) =~= prev + (if version.spec_at_least(AcadVersion::R2010) { seq![rec(280, ValueView::Short(v.version.spec_to_i16()))] } else { Seq::empty() }));
    proof {
        assert(start + (acc + (if version.spec_at_least(AcadVersion::R2010) { seq![rec(280, ValueView::Short(v.version.spec_to_i16()))] } else { Seq::empty() })) =~= (start + acc) + (if version.spec_at_least(AcadVersion::R2010) { seq![rec(280, ValueView::Short(v.version.spec_to_i16()))] } else { Seq::empty() }));
        acc = acc + (if version.spec_at_least(AcadVersion::R2010) { seq![rec(280, ValueView::Short(v.version.spec_to_i16()))] } else { Seq::empty() });
    }
    let ghost prev = pairs_view(out@);
    emit(out, CodePair::new_string(2, &e.block_name));
    assert(pairs_view(out@) =~= prev + seq![rec(2, ValueView::Str(v.block_name))]);
    proof {
        assert(start + (acc + seq![rec(2, ValueView::Str(v.block_name))]) =~= (start + acc) + seq![rec(2, ValueView::Str(v.block_name))]);
        acc = acc + seq![rec(2, ValueView::Str(v.block_name))];
    }
    let ghost prev = pairs_view(out@);
    emit_point(out, 10, e.definition_point_1);
    assert(pairs_view(out@) =~= prev + point_records(10, v.definition_point_1));
    proof {
        assert(start + (acc + point_records(10, v.definition_point_1)) =~= (start + acc) + point_records(10, v.definition_point_1));
        acc = acc + point_records(10, v.definition_point_1);
    }
    let ghost prev = pairs_view(out@);
    emit_point(out, 11, e.text_mid_point);
    assert(pairs_view(out@) =~= prev + point_records(11, v.text_mid_point));
    proof {
        assert(start + (acc + point_records(11, v.text_mid_point)) =~= (start + acc) + point_records(11, v.text_mid_point));
        acc = acc + point_records(11, v.text_mid_point);
    }
    let ghost prev = pairs_view(out@);
    emit(out, CodePair::new_i16(70, e.get_dimension_type()));
    assert(pairs_view(out@) =~= prev + seq![rec(70, ValueView::Short(dimension_type_code(v)))]);
    proof {
        assert(start + (acc + seq![rec(70, ValueView::Short(dimension_type_code(v)))]) =~= (start + acc) + seq![rec(70, ValueView::Short(dimension_type_code(v)))]);
        acc = acc + seq![rec(70, ValueView::Short(dimension_type_code(v)))];
    }
}

fn write_dimension_base_1_part_0(e: &DimensionBase, version: AcadVersion, out: &mut Vec<CodePair>)
    ensures
        pairs_view(final(out)@) == pairs_view(old(out)@) + ((if version.spec_at_least(AcadVersion::R13) { seq![rec(100, ValueView::Str("AcDbDimension"@))] } else { Seq::empty() })),
{
    let ghost start = pairs_view(out@);
    if version.at_least(AcadVersion::R13) {
        let ghost prev0 = pairs_view(out@);
        emit(out, CodePair::new_str(100, "AcDbDimension"));
        assert(pairs_view(out@) =~= prev0 + seq![rec(100, ValueView::Str("AcDbDimension"@))]);
        assert(pairs_view(out@) =~= start + ((if version.spec_at_least(AcadVersion::R13) { seq![rec(100, ValueView::Str("AcDbDimension"@))] } else { Seq::empty() })));
    } else {
        assert(pairs_view(out@) =~= start + ((if version.spec_at_least(AcadVersion::R13) { seq![rec(100, ValueView::Str("AcDbDimension"@))] } else { Seq::empty() })));
    }
}

fn write_dimension_base_1_part_1(e: &DimensionBase, version: AcadVersion, out: &mut Vec<CodePair>)
    ensures
        pairs_view(final(out)@) == pairs_view(old(out)@) + ((if version.spec_at_least(AcadVersion::R2010) { seq![rec(280, ValueView::Short(e@.version.spec_to_i16()))] } else { Seq::empty() })),
{
    let ghost start = pairs_view(out@);
    if version.at_least(AcadVersion::R2010) {
        let ghost prev0 = pairs_view(out@);
        emit(out, CodePair::new_i16(280, e.version.to_i16()));
        assert(pairs_view(out@) =~= prev0 + seq![rec(280, ValueView::Short(e@.version.spec_to_i16()))]);
        assert(pairs_view(out@) =~= start + ((if version.spec_at_least(AcadVersion::R2010) { seq![rec(280, ValueView::Short(e@.version.spec_to_i16()))] } else { Seq::empty() })));
    } else {
        assert(pairs_view(out@) =~= start + ((if version.spec_at_least(AcadVersion::R2010) { seq![rec(280, ValueView::Short(e@.version.spec_to_i16()))] } else { Seq::empty() })));
    }
}

/// One part of the records of a `DimensionBase`.
pub open spec fn dimension_base_2_records(v: DimensionBaseView, version: AcadVersion) -> Seq<CodePairView> {
    (if version.spec_at_least(AcadVersion::R2000) { seq![rec(71, ValueView::Short(v.attachment_point.spec_to_i16()))] + seq![rec(72, ValueView::Short(v.text_line_spacing_style.spec_to_i16()))] + seq![rec(41, ValueView::Double(v.text_line_spacing_factor))] + seq![rec(42, ValueView::Double(v.actual_measurement))] } else { Seq::empty() })
        + seq![rec(1, ValueView::Str(v.text))]
        + (if !is_zero_real(v.text_rotation_angle) { seq![rec(53, ValueView::Double(v.text_rotation_angle))] } else { Seq::empty() })
        + (if !is_zero_real(v.horizontal_direction_angle) { seq![rec(51, ValueView::Double(v.horizontal_direction_angle))] } else { Seq::empty() })
        + (if !is_z_axis(v.normal) { point_records(210, v.normal) } else { Seq::empty() })
        + seq![rec(3, ValueView::Str(v.dimension_style_name))]
}

/// Writes one part of a `DimensionBase`'s own fields.
#[verifier::rlimit(60)]
pub fn write_dimension_base_2(e: &DimensionBase, version: AcadVersion, out: &mut Vec<CodePair>)
    ensures
        pairs_view(final(out)@) == pairs_view(old(out)@) + dimension_base_2_records(e@, version),
{
    let ghost start = pairs_view(out@);
    let ghost v = e@;
    let ghost mut acc: Seq<CodePairView> = Seq::empty();
    let ghost prev = pairs_view(out@);
    write_dimension_base_2_part_0(e, version, out);
    assert(pairs_view(out@) =~= prev + (if version.spec_at_least(AcadVersion::R2000) { seq![rec(71, ValueView::Short(v.attachment_point.spec_to_i16()))] + seq![rec(72, ValueView::Short(v.text_line_spacing_style.spec_to_i16()))] + seq![rec(41, ValueView::Double(v.text_line_spacing_factor))] + seq![rec(42, ValueView::Double(v.actual_measurement))] } else { Seq::empty() }));
    proof {
        acc = (if version.spec_at_least(AcadVersion::R2000) { seq![rec(71, ValueView::Short(v.attachment_point.spec_to_i16()))] + seq![rec(72, ValueView::Short(v.text_line_spacing_style.spec_to_i16()))] + seq![rec(41, ValueView::Double(v.text_line_spacing_factor))] + seq![rec(42, ValueView::Double(v.actual_measurement))] } else { Seq::empty() });
        assert(pairs_view(out@) =~= start + acc);
    }
    let ghost prev = pairs_view(out@);
    emit(out, CodePair::new_string(1, &e.text));
    assert(pairs_view(out@) =~= prev + seq![rec(1, ValueView::Str(v.text))]);
    proof {
        assert(start + (acc + seq![rec(1, ValueView::Str(v.text))]) =~= (start + acc) + seq![rec(1, ValueView::Str(v.text))]);
        acc = acc + seq![rec(1, ValueView::Str(v.text))];
    }
    let ghost prev = pairs_view(out@);
    emit_real_unless_zero(out, 53, e.text_rotation_angle);
    assert(pairs_view(out@) =~= prev + (if !is_zero_real(v.text_rotation_angle) { seq![rec(53, ValueView::Double(v.text_rotation_angle))] } else { Seq::empty() }));
    proof {
        assert(start + (acc + (if !is_zero_real(v.text_rotation_angle) { seq![rec(53, ValueView::Double(v.text_rotation_angle))] } else { Seq::empty() })) =~= (start + acc) + (if !is_zero_real(v.text_rotation_angle) { seq![rec(53, ValueView::Double(v.text_rotation_angle))] } else { Seq::empty() }));
        acc = acc + (if !is_zero_real(v.text_rotation_angle) { seq![rec(53, ValueView::Double(v.text_rotation_angle))] } else { Seq::empty() });
    }
    let ghost prev = pairs_view(out@);
    emit_real_unless_zero(out, 51, e.horizontal_direction_angle);
    assert(pairs_view(out@) =~= prev + (if !is_zero_real(v.horizontal_direction_angle) { seq![rec(51, ValueView::Double(v.horizontal_direction_angle))] } else { Seq::empty() }));
    proof {
        assert(start + (acc + (if !is_zero_real(v.horizontal_direction_angle) { seq![rec(51, ValueView::Double(v.horizontal_direction_angle))] } else { Seq::empty() })) =~= (start + acc) + (if !is_zero_real(v.horizontal_direction_angle) { seq![rec(51, ValueView::Double(v.horizontal_direction_angle))] } else { Seq::empty() }));
        acc = acc + (if !is_zero_real(v.horizontal_direction_angle) { seq![rec(51, ValueView::Double(v.horizontal_direction_angle))] } else { Seq::empty() });
    }
    let ghost prev = pairs_view(out@);
    emit_point_unless_z_axis(out, 210, e.normal);
    assert(pairs_view(out@) =~= prev + (if !is_z_axis(v.normal) { point_records(210, v.normal) } else { Seq::empty() }));
    proof {
        assert(start + (acc + (if !is_z_axis(v.normal) { point_records(210, v.normal) } else { Seq::empty() })) =~= (start + acc) + (if !is_z_axis(v.normal) { point_records(210, v.normal) } else { Seq::empty() }));
        acc = acc + (if !is_z_axis(v.normal) { point_records(210, v.normal) } else { Seq::empty() });
    }
    let ghost prev = pairs_view(out@);
    emit(out, CodePair::new_string(3, &e.dimension_style_name));
    assert(pairs_view(out@) =~= prev + seq![rec(3, ValueView::Str(v.dimension_style_name))]);
    proof {
        assert(start + (acc + seq![rec(3, ValueView::Str(v.dimension_style_name))]) =~= (start + acc) + seq![rec(3, ValueView::Str(v.dimension_style_name))]);
        acc = acc + seq![rec(3, ValueView::Str(v.dimension_style_name))];
    }
}

fn write_dimension_base_2_part_0(e: &DimensionBase, version: AcadVersion, out: &mut Vec<CodePair>)
    ensures
        pairs_view(final(out)@) == pairs_view(old(out)@) + ((if version.spec_at_least(AcadVersion::R2000) { seq![rec(71, ValueView::Short(e@.attachment_point.spec_to_i16()))] + seq![rec(72, ValueView::Short(e@.text_line_spacing_style.spec_to_i16()))] + seq![rec(41, ValueView::Double(e@.text_line_spacing_factor))] + seq![rec(42, ValueView::Double(e@.actual_measurement))] } else { Seq::empty() })),
{
    let ghost start = pairs_view(out@);
    if version.at_least(AcadVersion::R2000) {
        let ghost prev0 = pairs_view(out@);
        emit(out, CodePair::new_i16(71, e.attachment_point.to_i16()));
        assert(pairs_view(out@) =~= prev0 + seq![rec(71, ValueView::Short(e@.attachment_point.spec_to_i16()))]);
        let ghost prev1 = pairs_view(out@);
        emit(out, CodePair::new_i16(72, e.text_line_spacing_style.to_i16()));
        assert(pairs_view(out@) =~= prev1 + seq![rec(72, ValueView::Short(e@.text_line_spacing_style.spec_to_i16()))]);
        let ghost prev2 = pairs_view(out@);
        emit(out, CodePair::new_real(41, e.text_line_spacing_factor));
        assert(pairs_view(out@) =~= prev2 + seq![rec(41, ValueView::Double(e@.text_line_spacing_factor))]);
        let ghost prev3 = pairs_view(out@);
        emit(out, CodePair::new_real(42, e.actual_measurement));
        assert(pairs_view(out@) =~= prev3 + seq![rec(42, ValueView::Double(e@.actual_measurement))]);
        assert(pairs_view(out@) =~= start + ((if version.spec_at_least(AcadVersion::R2000) { seq![rec(71, ValueView::Short(e@.attachment_point.spec_to_i16()))] + seq![rec(72, ValueView::Short(e@.text_line_spacing_style.spec_to_i16()))] + seq![rec(41, ValueView::Double(e@.text_line_spacing_factor))] + seq![rec(42, ValueView::Double(e@.actual_measurement))] } else { Seq::empty() })));
    } else {
        assert(pairs_view(out@) =~= start + ((if version.spec_at_least(AcadVersion::R2000) { seq![rec(71, ValueView::Short(e@.attachment_point.spec_to_i16()))] + seq![rec(72, ValueView::Short(e@.text_line_spacing_style.spec_to_i16()))] + seq![rec(41, ValueView::Double(e@.text_line_spacing_factor))] + seq![rec(42, ValueView::Double(e@.actual_measurement))] } else { Seq::empty() })));
    }
}

/// The records that describe a `DimensionBase`'s own fields in the given version.
pub open spec fn dimension_base_records(v: DimensionBaseView, version: AcadVersion) -> Seq<CodePairView> {
    dimension_base_1_records(v, version)
        + dimension_base_2_records(v, version)
}

/// Writes a `DimensionBase`'s own fields.
pub fn write_dimension_base(e: &DimensionBase, version: AcadVersion, out: &mut Vec<CodePair>)
    ensures
        pairs_view(final(out)@) == pairs_view(old(out)@) + dimension_base_records(e@, version),
{
    let ghost start = pairs_view(out@);
    let ghost v = e@;
    let ghost mut acc: Seq<CodePairView> = Seq::empty();
    let ghost prev = pairs_view(out@);
    write_dimension_base_1(e, version, out);
    assert(pairs_view(out@) =~= prev + dimension_base_1_records(v, version));
    proof {
        acc = dimension_base_1_records(v, version);
        assert(pairs_view(out@) =~= start + acc);
    }
    let ghost prev = pairs_view(out@);
    write_dimension_base_2(e, version, out);
    assert(pairs_view(out@) =~= prev + dimension_base_2_records(v, version));
    proof {
        assert(start + (acc + dimension_base_2_records(v, version)) =~= (start + acc) + dimension_base_2_records(v, version));
        acc = acc + dimension_base_2_records(v, version);
    }
}

/// One part of the records of a `RotatedDimension`.
pub open spec fn rotated_dimension_1_records(v: RotatedDimensionView, version: AcadVersion) -> Seq<CodePairView> {
    dimension_base_records(v.dimension_base, version)
        + (if version.spec_at_least(AcadVersion::R13) { seq![rec(100, ValueView::Str("AcDbAlignedDimension"@))] } else { Seq::empty() })
        + point_records(12, v.insertion_point)
        + point_records(13, v.definition_point_2)
        + point_records(14, v.definition_point_3)
        + seq![rec(50, ValueView::Double(v.rotation_angle))]
}

/// Writes one part of a `RotatedDimension`'s own fields.
#[verifier::rlimit(60)]
pub fn write_rotated_dimension_1(e: &RotatedDimension, version: AcadVersion, out: &mut Vec<CodePair>)
    ensures
        pairs_view(final(out)@) == pairs_view(old(out)@) + rotated_dimension_1_records(e@, version),
{
    let ghost start = pairs_view(out@);
    let ghost v = e@;
    let ghost mut acc: Seq<CodePairView> = Seq::empty();
    let ghost prev = pairs_view(out@);
    write_dimension_base(&e.dimension_base, version, out);
    assert(pairs_view(out@) =~= prev + dimension_base_records(v.dimension_base, version));
    proof {
        acc = dimension_base_records(v.dimension_base, version);
        assert(pairs_view(out@) =~= start + acc);
    }
    let ghost prev = pairs_view(out@);
    write_rotated_dimension_1_part_1(e, version, out);
    assert(pairs_view(out@) =~= prev + (if version.spec_at_least(AcadVersion::R13) { seq![rec(100, ValueView::Str("AcDbAlignedDimension"@))] } else { Seq::empty() }));
    proof {
        assert(start + (acc + (if version.spec_at_least(AcadVersion::R13) { seq![rec(100, ValueView::Str("AcDbAlignedDimension"@))] } else { Seq::empty() })) =~= (start + acc) + (if version.spec_at_least(AcadVersion::R13) { seq![rec(100, ValueView::Str("AcDbAlignedDimension"@))] } else { Seq::empty() }));
        acc = acc + (if version.spec_at_least(AcadVersion::R13) { seq![rec(100, ValueView::Str("AcDbAlignedDimension"@))] } else { Seq::empty() });
    }
    let ghost prev = pairs_view(out@);
    emit_point(out, 12, e.insertion_point);
    assert(pairs_view(out@) =~= prev + point_records(12, v.insertion_point));
    proof {
        assert(start + (acc + point_records(12, v.insertion_point)) =~= (start + acc) + point_records(12, v.insertion_point));
        acc = acc + point_records(12, v.insertion_point);
    }
    let ghost prev = pairs_view(out@);
    emit_point(out, 13, e.definition_point_2);
    assert(pairs_view(out@) =~= prev + point_records(13, v.definition_point_2));
    proof {
        assert(start + (acc + point_records(13, v.definition_point_2)) =~= (start + acc) + point_records(13, v.definition_point_2));
        acc = acc + point_records(13, v.definition_point_2);
    }
    let ghost prev = pairs_view(out@);
    emit_point(out, 14, e.definition_point_3);
    assert(pairs_view(out@) =~= prev + point_records(14, v.definition_point_3));
    proof {
        assert(start + (acc + point_records(14, v.definition_point_3)) =~= (start + acc) + point_records(14, v.definition_point_3));
        acc = acc + point_records(14, v.definition_point_3);
    }
    let ghost prev = pairs_view(out@);
    emit(out, CodePair::new_real(50, e.rotation_angle));
    assert(pairs_view(out@) =~= prev + seq![rec(50, ValueView::Double(v.rotation_angle))]);
    proof {
        assert(start + (acc + seq![rec(50, ValueView::Double(v.rotation_angle))]) =~= (start + acc) + seq![rec(50, ValueView::Double(v.rotation_angle))]);
        acc = acc + seq![rec(50, ValueView::Double(v.rotation_angle))];
    }
}

fn write_rotated_dimension_1_part_1(e: &RotatedDimension, version: AcadVersion, out: &mut Vec<CodePair>)
    ensures
        pairs_view(final(out)@) == pairs_view(old(out)@) + ((if version.spec_at_least(AcadVersion::R13) { seq![rec(100, ValueView::Str("AcDbAlignedDimension"@))] } else { Seq::empty() })),
{
    let ghost start = pairs_view(out@);
    if version.at_least(AcadVersion::R13) {
        let ghost prev0 = pairs_view(out@);
        emit(out, CodePair::new_str(100, "AcDbAlignedDimension"));
        assert(pairs_view(out@) =~= prev0 + seq![rec(100, ValueView::Str("AcDbAlignedDimension"@))]);
        assert(pairs_view(out@) =~= start + ((if version.spec_at_least(AcadVersion::R13) { seq![rec(100, ValueView::Str("AcDbAlignedDimension"@))] } else { Seq::empty() })));
    } else {
        assert(pairs_view(out@) =~= start + ((if version.spec_at_least(AcadVersion::R13) { seq![rec(100, ValueView::Str("AcDbAlignedDimension"@))] } else { Seq::empty() })));
    }
}

/// One part of the records of a `RotatedDimension`.
pub open spec fn rotated_dimension_2_records(v: RotatedDimensionView, version: AcadVersion) -> Seq<CodePairView> {
    seq![rec(52, ValueView::Double(v.extension_line_angle))]
        + (if version.spec_at_least(AcadVersion::R13) { seq![rec(100, ValueView::Str("AcDbRotatedDimension"@))] } else { Seq::empty() })
}

/// Writes one part of a `RotatedDimension`'s own fields.
pub fn write_rotated_dimension_2(e: &RotatedDimension, version: AcadVersion, out: &mut Vec<CodePair>)
    ensures
        pairs_view(final(out)@) == pairs_view(old(out)@) + rotated_dimension_2_records(e@, version),
{
    let ghost start = pairs_view(out@);
    let ghost v = e@;
    let ghost mut acc: Seq<CodePairView> = Seq::empty();
    let ghost prev = pairs_view(out@);
    emit(out, CodePair::new_real(52, e.extension_line_angle));
    assert(pairs_view(out@) =~= prev + seq![rec(52, ValueView::Double(v.extension_line_angle))]);
    proof {
        acc = seq![rec(52, ValueView::Double(v.extension_line_angle))];
        assert(pairs_view(out@) =~= start + acc);
    }
    let ghost prev = pairs_view(out@);
    write_rotated_dimension_2_part_1(e, version, out);
    assert(pairs_view(out@) =~= prev + (if version.spec_at_least(AcadVersion::R13) { seq![rec(100, ValueView::Str("AcDbRotatedDimension"@))] } else { Seq::empty() }));
    proof {
        assert(start + (acc + (if version.spec_at_least(AcadVersion::R13) { seq![rec(100, ValueView::Str("AcDbRotatedDimension"@))] } else { Seq::empty() })) =~= (start + acc) + (if version.spec_at_least(AcadVersion::R13) { seq![rec(100, ValueView::Str("AcDbRotatedDimension"@))] } else { Seq::empty() }));
        acc = acc + (if version.spec_at_least(AcadVersion::R13) { seq![rec(100, ValueView::Str("AcDbRotatedDimension"@))] } else { Seq::empty() });
    }
}

fn write_rotated_dimension_2_part_1(e: &RotatedDimension, version: AcadVersion, out: &mut Vec<CodePair>)
    ensures
        pairs_view(final(out)@) == pairs_view(old(out)@) + ((if version.spec_at_least(AcadVersion::R13) { seq![rec(100, ValueView::Str("AcDbRotatedDimension"@))] } else { Seq::empty() })),
{
    let ghost start = pairs_view(out@);
    if version.at_least(AcadVersion::R13) {
        let ghost prev0 = pairs_view(out@);
        emit(out, CodePair::new_str(100, "AcDbRotatedDimension"));
        assert(pairs_view(out@) =~= prev0 + seq![rec(100, ValueView::Str("AcDbRotatedDimension"@))]);
        assert(pairs_view(out@) =~= start + ((if version.spec_at_least(AcadVersion::R13) { seq![rec(100, ValueView::Str("AcDbRotatedDimension"@))] } else { Seq::empty() })));
    } else {
        assert(pairs_view(out@) =~= start + ((if version.spec_at_least(AcadVersion::R13) { seq![rec(100, ValueView::Str("AcDbRotatedDimension"@))] } else { Seq::empty() })));
    }
}

/// The records that describe a `RotatedDimension`'s own fields in the given version.
pub open spec fn rotated_dimension_records(v: RotatedDimensionView, version: AcadVersion) -> Seq<CodePairView> {
    rotated_dimension_1_records(v, version)
        + rotated_dimension_2_records(v, version)
}

/// Writes a `RotatedDimension`'s own fields.
pub fn write_rotated_dimension(e: &RotatedDimension, version: AcadVersion, out: &mut Vec<CodePair>)
    ensures
        pairs_view(final(out)@) == pairs_view(old(out)@) + rotated_dimension_records(e@, version),
{
    let ghost start = pairs_view(out@);
    let ghost v = e@;
    let ghost mut acc: Seq<CodePairView> = Seq::empty();
    let ghost prev = pairs_view(out@);
    write_rotated_dimension_1(e, version, out);
    assert(pairs_view(out@) =~= prev + rotated_dimension_1_records(v, version));
    proof {
        acc = rotated_dimension_1_records(v, version);
        assert(pairs_view(out@) =~= start + acc);
    }
    let ghost prev = pairs_view(out@);
    write_rotated_dimension_2(e, version, out);
    assert(pairs_view(out@) =~= prev + rotated_dimension_2_records(v, version));
    proof {
        assert(start + (acc + rotated_dimension_2_records(v, version)) =~= (start + acc) + rotated_dimension_2_records(v, version));
        acc = acc + rotated_dimension_2_records(v, version);
    }
}

/// The records that describe a `RadialDimension`'s own fields in the given version.
pub open spec fn radial_dimension_records(v: RadialDimensionView, version: AcadVersion) -> Seq<CodePairView> {
    dimension_base_records(v.dimension_base, version)
        + seq![rec(100, ValueView::Str("AcDbRadialDimension"@))]
        + point_records(15, v.definition_point_2)
        + seq![rec(40, ValueView::Double(v.leader_length))]
}

/// Writes a `RadialDimension`'s own fields.
pub fn write_radial_dimension(e: &RadialDimension, version: AcadVersion, out: &mut Vec<CodePair>)
    ensures
        pairs_view(final(out)@) == pairs_view(old(out)@) + radial_dimension_records(e@, version),
{
    let ghost start = pairs_view(out@);
    let ghost v = e@;
    let ghost mut acc: Seq<CodePairView> = Seq::empty();
    let ghost prev = pairs_view(out@);
    write_dimension_base(&e.dimension_base, version, out);
    assert(pairs_view(out@) =~= prev + dimension_base_records(v.dimension_base, version));
    proof {
        acc = dimension_base_records(v.dimension_base, version);
        assert(pairs_view(out@) =~= start + acc);
    }
    let ghost prev = pairs_view(out@);
    emit(out, CodePair::new_str(100, "AcDbRadialDimension"));
    assert(pairs_view(out@) =~= prev + seq![rec(100, ValueView::Str("AcDbRadialDimension"@))]);
    proof {
        assert(start + (acc + seq![rec(100, ValueView::Str("AcDbRadialDimension"@))]) =~= (start + acc) + seq![rec(100, ValueView::Str("AcDbRadialDimension"@))]);
        acc = acc + seq![rec(100, ValueView::Str("AcDbRadialDimension"@))];
    }
    let ghost prev = pairs_view(out@);
    emit_point(out, 15, e.definition_point_2);
    assert(pairs_view(out@) =~= prev + point_records(15, v.definition_point_2));
    proof {
        assert(start + (acc + point_records(15, v.definition_point_2)) =~= (start + acc) + point_records(15, v.definition_point_2));
        acc = acc + point_records(15, v.definition_point_2);
    }
    let ghost prev = pairs_view(out@);
    emit(out, CodePair::new_real(40, e.leader_length));
    assert(pairs_view(out@) =~= prev + seq![rec(40, ValueView::Double(v.leader_length))]);
    proof {
        assert(start + (acc + seq![rec(40, ValueView::Double(v.leader_length))]) =~= (start + acc) + seq![rec(40, ValueView::Double(v.leader_length))]);
        acc = acc + seq![rec(40, ValueView::Double(v.leader_length))];
    }
}

/// The records that describe a `DiameterDimension`'s own fields in the given version.
pub open spec fn diameter_dimension_records(v: DiameterDimensionView, version: AcadVersion) -> Seq<CodePairView> {
    dimension_base_records(v.dimension_base, version)
        + seq![rec(100, ValueView::Str("AcDbDiametricDimension"@))]
        + point_records(15, v.definition_point_2)
        + seq![rec(40, ValueView::Double(v.leader_length))]
}

/// Writes a `DiameterDimension`'s own fields.
pub fn write_diameter_dimension(e: &DiameterDimension, version: AcadVersion, out: &mut Vec<CodePair>)
    ensures
        pairs_view(final(out)@) == pairs_view(old(out)@) + diameter_dimension_records(e@, version),
{
    let ghost start = pairs_view(out@);
    let ghost v = e@;
    let ghost mut acc: Seq<CodePairView> = Seq::empty();
    let ghost prev = pairs_view(out@);
    write_dimension_base(&e.dimension_base, version, out);
    assert(pairs_view(out@) =~= prev + dimension_base_records(v.dimension_base, version));
    proof {
        acc = dimension_base_records(v.dimension_base, version);
        assert(pairs_view(out@) =~= start + acc);
    }
    let ghost prev = pairs_view(out@);
    emit(out, CodePair::new_str(100, "AcDbDiametricDimension"));
    assert(pairs_view(out@) =~= prev + seq![rec(100, ValueView::Str("AcDbDiametricDimension"@))]);
    proof {
        assert(start + (acc + seq![rec(100, ValueView::Str("AcDbDiametricDimension"@))]) =~= (start + acc) + seq![rec(100, ValueView::Str("AcDbDiametricDimension"@))]);
        acc = acc + seq![rec(100, ValueView::Str("AcDbDiametricDimension"@))];
    }
    let ghost prev = pairs_view(out@);
    emit_point(out, 15, e.definition_point_2);
    assert(pairs_view(out@) =~= prev + point_records(15, v.definition_point_2));
    proof {
        assert(start + (acc + point_records(15, v.definition_point_2)) =~= (start + acc) + point_records(15, v.definition_point_2));
        acc = acc + point_records(15, v.definition_point_2);
    }
    let ghost prev = pairs_view(out@);
    emit(out, CodePair::new_real(40, e.leader_length));
    assert(pairs_view(out@) =~= prev + seq![rec(40, ValueView::Double(v.leader_length))]);
    proof {
        assert(start + (acc + seq![rec(40, ValueView::Double(v.leader_length))]) =~= (start + acc) + seq![rec(40, ValueView::Double(v.leader_length))]);
        acc = acc + seq![rec(40, ValueView::Double(v.leader_length))];
    }
}

/// The records that describe a `AngularThreePointDimension`'s own fields in the given version.
pub open spec fn angular_three_point_dimension_records(v: AngularThreePointDimensionView, version: AcadVersion) -> Seq<CodePairView> {
    dimension_base_records(v.dimension_base, version)
        + seq![rec(100, ValueView::Str("AcDb3PointAngularDimension"@))]
        + point_records(13, v.definition_point_2)
        + point_records(14, v.definition_point_3)
        + point_records(15, v.definition_point_4)
        + point_records(16, v.definition_point_5)
}

/// Writes a `AngularThreePointDimension`'s own fields.
#[verifier::rlimit(60)]
pub fn write_angular_three_point_dimension(e: &AngularThreePointDimension, version: AcadVersion, out: &mut Vec<CodePair>)
    ensures
        pairs_view(final(out)@) == pairs_view(old(out)@) + angular_three_point_dimension_records(e@, version),
{
    let ghost start = pairs_view(out@);
    let ghost v = e@;
    let ghost mut acc: Seq<CodePairView> = Seq::empty();
    let ghost prev = pairs_view(out@);
    write_dimension_base(&e.dimension_base, version, out);
    assert(pairs_view(out@) =~= prev + dimension_base_records(v.dimension_base, version));
    proof {
        acc = dimension_base_records(v.dimension_base, version);
        assert(pairs_view(out@) =~= start + acc);
    }
    let ghost prev = pairs_view(out@);
    emit(out, CodePair::new_str(100, "AcDb3PointAngularDimension"));
    assert(pairs_view(out@) =~= prev + seq![rec(100, ValueView::Str("AcDb3PointAngularDimension"@))]);
    proof {
        assert(start + (acc + seq![rec(100, ValueView::Str("AcDb3PointAngularDimension"@))]) =~= (start + acc) + seq![rec(100, ValueView::Str("AcDb3PointAngularDimension"@))]);
        acc = acc + seq![rec(100, ValueView::Str("AcDb3PointAngularDimension"@))];
    }
    let ghost prev = pairs_view(out@);
    emit_point(out, 13, e.definition_point_2);
    assert(pairs_view(out@) =~= prev + point_records(13, v.definition_point_2));
    proof {
        assert(start + (acc + point_records(13, v.definition_point_2)) =~= (start + acc) + point_records(13, v.definition_point_2));
        acc = acc + point_records(13, v.definition_point_2);
    }
    let ghost prev = pairs_view(out@);
    emit_point(out, 14, e.definition_point_3);
    assert(pairs_view(out@) =~= prev + point_records(14, v.definition_point_3));
    proof {
        assert(start + (acc + point_records(14, v.definition_point_3)) =~= (start + acc) + point_records(14, v.definition_point_3));
        acc = acc + point_records(14, v.definition_point_3);
    }
    let ghost prev = pairs_view(out@);
    emit_point(out, 15, e.definition_point_4);
    assert(pairs_view(out@) =~= prev + point_records(15, v.definition_point_4));
    proof {
        assert(start + (acc + point_records(15, v.definition_point_4)) =~= (start + acc) + point_records(15, v.definition_point_4));
        acc = acc + point_records(15, v.definition_point_4);
    }
    let ghost prev = pairs_view(out@);
    emit_point(out, 16, e.definition_point_5);
    assert(pairs_view(out@) =~= prev + point_records(16, v.definition_point_5));
    proof {
        assert(start + (acc + point_records(16, v.definition_point_5)) =~= (start + acc) + point_records(16, v.definition_point_5));
        acc = acc + point_records(16, v.definition_point_5);
    }
}

/// The records that describe a `OrdinateDimension`'s own fields in the given version.
pub open spec fn ordinate_dimension_records(v: OrdinateDimensionView, version: AcadVersion) -> Seq<CodePairView> {
    dimension_base_records(v.dimension_base, version)
        + seq![rec(100, ValueView::Str("AcDbOrdinateDimension"@))]
        + point_records(13, v.definition_point_2)
        + point_records(14, v.definition_point_3)
}

/// Writes a `OrdinateDimension`'s own fields.
pub fn write_ordinate_dimension(e: &OrdinateDimension, version: AcadVersion, out: &mut Vec<CodePair>)
    ensures
        pairs_view(final(out)@) == pairs_view(old(out)@) + ordinate_dimension_records(e@, version),
{
    let ghost start = pairs_view(out@);
    let ghost v = e@;
    let ghost mut acc: Seq<CodePairView> = Seq::empty();
    let ghost prev = pairs_view(out@);
    write_dimension_base(&e.dimension_base, version, out);
    assert(pairs_view(out@) =~= prev + dimension_base_records(v.dimension_base, version));
    proof {
        acc = dimension_base_records(v.dimension_base, version);
        assert(pairs_view(out@) =~= start + acc);
    }
    let ghost prev = pairs_view(out@);
    emit(out, CodePair::new_str(100, "AcDbOrdinateDimension"));
    assert(pairs_view(out@) =~= prev + seq![rec(100, ValueView::Str("AcDbOrdinateDimension"@))]);
    proof {
        assert(start + (acc + seq![rec(100, ValueView::Str("AcDbOrdinateDimension"@))]) =~= (start + acc) + seq![rec(100, ValueView::Str("AcDbOrdinateDimension"@))]);
        acc = acc + seq![rec(100, ValueView::Str("AcDbOrdinateDimension"@))];
    }
    let ghost prev = pairs_view(out@);
    emit_point(out, 13, e.definition_point_2);
    assert(pairs_view(out@) =~= prev + point_records(13, v.definition_point_2));
    proof {
        assert(start + (acc + point_records(13, v.definition_point_2)) =~= (start + acc) + point_records(13, v.definition_point_2));
        acc = acc + point_records(13, v.definition_point_2);
    }
    let ghost prev = pairs_view(out@);
    emit_point(out, 14, e.definition_point_3);
    assert(pairs_view(out@) =~= prev + point_records(14, v.definition_point_3));
    proof {
        assert(start + (acc + point_records(14, v.definition_point_3)) =~= (start + acc) + point_records(14, v.definition_point_3));
        acc = acc + point_records(14, v.definition_point_3);
    }
}

} // verus!
