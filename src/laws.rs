use vstd::prelude::*;
use crate::code_pair::{CodePair, CodePairValue, CodePairView, DxfError, ValueView, TAG_CODE};
use crate::code_pair_put_back::{is_comment, strip_comments};
use crate::common::{common_first, CommonMode, EntityCommon, EntityCommonView};
use crate::consolidate::{zip_points_2, zip_points_3};
use crate::decode::{decode_entity, decode_from, dimension_step, dimension_steps, fold_body, generic_steps, is_section_end, start_state, Item};
use crate::dimension::{apply_marker, base_of, dimension_record, is_dimension, is_dimension_marker};
use crate::encode::{common_records, entity_records, groups_records};
use crate::common::ExtensionGroupView;
use crate::writers::{line_records, point_records, polyline_1_records, polyline_2_records, polyline_3_records, polyline_records};
use crate::entities::{Polyline, PolylineView};
use crate::enums::PolylineCurvedAndSmoothSurfaceType;
use crate::code_pair::{rec, DxfResult};
use crate::entities::{resolve_type_name, EntityTypeView, Line, Point, RadialDimension, RadialDimensionView, DimensionBase, DimensionBaseView, RotatedDimension, RotatedDimensionView};
use crate::code_pair::is_zero_real;
use crate::writers::is_z_axis;
use crate::entity::EntityView;
use crate::enums::AcadVersion;

verus! {

/// Comments never come out of the stream: what it hands out holds none.
pub proof fn lemma_stripped_has_no_comments(s: Seq<Item>)
    ensures
        forall|i: int| 0 <= i < strip_comments(s).len() ==> !is_comment(#[trigger] strip_comments(s)[i]),
    decreases s.len(),
{
    if s.len() > 0 {
        lemma_stripped_has_no_comments(s.drop_first());
        let t = strip_comments(s.drop_first());
        if !is_comment(s[0]) {
            assert forall|i: int| 0 <= i < strip_comments(s).len() implies !is_comment(#[trigger] strip_comments(s)[i]) by {
                if i > 0 {
                    assert(strip_comments(s)[i] == t[i - 1]);
                }
            }
        }
    }
}

/// Removing comments distributes over concatenation.
pub proof fn lemma_strip_concat(a: Seq<Item>, b: Seq<Item>)
    ensures
        strip_comments(a + b) == strip_comments(a) + strip_comments(b),
    decreases a.len(),
{
    if a.len() == 0 {
        assert(a + b =~= b);
        assert(strip_comments(a) + strip_comments(b) =~= strip_comments(b));
    } else {
        assert((a + b).drop_first() =~= a.drop_first() + b);
        assert((a + b)[0] == a[0]);
        lemma_strip_concat(a.drop_first(), b);
        if !is_comment(a[0]) {
            assert(seq![a[0]] + (strip_comments(a.drop_first()) + strip_comments(b)) =~= (seq![a[0]] + strip_comments(a.drop_first())) + strip_comments(b));
        }
    }
}

/// A run of comments leaves nothing.
pub proof fn lemma_strip_all_comments(c: Seq<Item>)
    requires
        forall|i: int| 0 <= i < c.len() ==> is_comment(#[trigger] c[i]),
    ensures
        strip_comments(c) == Seq::<Item>::empty(),
    decreases c.len(),
{
    if c.len() > 0 {
        assert(is_comment(c[0]));
        lemma_strip_all_comments(c.drop_first());
    }
}

/// Comment transparency: a stream over items with comments inserted
/// anywhere hands out exactly what the stream over the items without them
/// hands out (a stream over `s` hands out `strip_comments(s)`), and that
/// holds no comment.
pub proof fn comment_transparency(a: Seq<Item>, comments: Seq<Item>, b: Seq<Item>)
    requires
        forall|i: int| 0 <= i < comments.len() ==> is_comment(#[trigger] comments[i]),
    ensures
        strip_comments(a + comments + b) == strip_comments(a + b),
        forall|i: int| 0 <= i < strip_comments(a + b).len() ==> !is_comment(#[trigger] strip_comments(a + b)[i]),
{
    lemma_strip_concat(a + comments, b);
    lemma_strip_concat(a, comments);
    lemma_strip_concat(a, b);
    lemma_strip_all_comments(comments);
    assert(strip_comments(a) + Seq::<Item>::empty() =~= strip_comments(a));
    lemma_stripped_has_no_comments(a + b);
}

/// Pushback order: over the items a stream will hand out (`pending`), two
/// pushes make the last one come out first, then the earlier one, then the
/// rest as before.
pub proof fn pushback_order(pending: Seq<Item>, first: Item, second: Item)
    ensures
        (seq![second] + (seq![first] + pending))[0] == second,
        (seq![second] + (seq![first] + pending)).drop_first()[0] == first,
        (seq![second] + (seq![first] + pending)).drop_first().drop_first() == pending,
{
    assert((seq![second] + (seq![first] + pending)).drop_first() =~= seq![first] + pending);
    assert((seq![first] + pending).drop_first() =~= pending);
}

/// Unresolved marker tolerance: a subclass marker that names no dimension
/// shape leaves the active shape and its fields as they are, and is no
/// error.
pub proof fn unknown_dimension_marker_is_ignored(
    st: (EntityCommonView, CommonMode, EntityTypeView),
    p: CodePairView,
    marker: Seq<char>,
)
    requires
        p.code == 100,
        p.value == ValueView::Str(marker),
        !is_dimension_marker(marker),
        !common_first(st.1, p.code),
    ensures
        dimension_step(st, p) == Ok::<(EntityCommonView, CommonMode, EntityTypeView), DxfError>(
            (st.0, CommonMode::Normal, st.2),
        ),
{
    assert(apply_marker(st.2, marker) == st.2);
}

/// A line entity on the given layer with otherwise default common fields.
pub open spec fn line_entity(l: Line, layer: Seq<char>) -> EntityView {
    EntityView { common: EntityCommonView { layer, ..EntityCommon::default_view() }, specific: EntityTypeView::Line(l) }
}

/// The item is a record whose view is `r`.
pub open spec fn item_is(i: Item, r: CodePairView) -> bool {
    i is Ok && i->Ok_0@ == r
}

/// The item is a record whose view is `r`, and not a tag.
pub open spec fn field_item(i: Item, r: CodePairView) -> bool {
    item_is(i, r) && r.code != TAG_CODE
}

/// Dimension base preservation: a marker that selects a shape carries the
/// shared fields read so far over unchanged, and the new shape starts with
/// its own fields at their defaults.
pub proof fn dimension_marker_keeps_base(v: EntityTypeView, marker: Seq<char>)
    requires
        is_dimension(v),
        is_dimension_marker(marker),
    ensures
        is_dimension(apply_marker(v, marker)),
        base_of(apply_marker(v, marker)) == base_of(v),
        marker == "AcDbRadialDimension"@ ==> apply_marker(v, marker) == EntityTypeView::RadialDimension(
            RadialDimensionView { dimension_base: base_of(v), ..RadialDimension::default_view() },
        ),
{
}

pub open spec fn is_plain_record(i: Item) -> bool {
    i matches Ok(p) && p.code != TAG_CODE
}

pub open spec fn is_tag_record(i: Item) -> bool {
    i matches Ok(p) && p.code == TAG_CODE
}

proof fn lemma_swallow(body: Seq<Item>, rest: Seq<Item>)
    requires
        forall|i: int| 0 <= i < body.len() ==> is_plain_record(#[trigger] body[i]),
        rest.len() > 0,
        is_tag_record(rest[0]),
    ensures
        decode_from(body + rest, true) == decode_from(rest, false),
    decreases body.len(),
{
    if body.len() == 0 {
        assert(body + rest =~= rest);
    } else {
        assert((body + rest)[0] == body[0]);
        assert(is_plain_record(body[0]));
        assert((body + rest).drop_first() =~= body.drop_first() + rest);
        lemma_swallow(body.drop_first(), rest);
    }
}

/// Unsupported-kind swallow: an entity whose type name no kind has, with
/// any body of records up to the next tag, produces nothing; decoding goes
/// on with the next entity exactly as if the skipped span were not there.
pub proof fn unsupported_kind_is_swallowed(tag: CodePair, name: String, body: Seq<Item>, rest: Seq<Item>)
    requires
        tag.code == TAG_CODE,
        tag.value == CodePairValue::Str(name),
        resolve_type_name(name@) == Option::<EntityTypeView>::None,
        !is_section_end(name@),
        name@ != "DIMENSION"@,
        forall|i: int| 0 <= i < body.len() ==> is_plain_record(#[trigger] body[i]),
        rest.len() > 0,
        is_tag_record(rest[0]),
    ensures
        decode_entity(seq![Ok::<CodePair, DxfError>(tag)] + body + rest) == decode_entity(rest),
{
    let s = seq![Ok::<CodePair, DxfError>(tag)] + body + rest;
    assert(s[0] == Ok::<CodePair, DxfError>(tag));
    assert(s.drop_first() =~= body + rest);
    lemma_swallow(body, rest);
}

/// Coordinate consolidation: component lists are paired positionally into
/// as many points as the shortest list holds; two lists give points with a
/// zero z.
pub proof fn coordinate_consolidation(xs: Seq<u64>, ys: Seq<u64>, zs: Seq<u64>)
    ensures
        xs.len() == ys.len() && ys.len() == zs.len() ==> zip_points_3(xs, ys, zs).len() == xs.len(),
        forall|i: int| 0 <= i < zip_points_3(xs, ys, zs).len() ==> #[trigger] zip_points_3(xs, ys, zs)[i] == (crate::entities::Point { x: xs[i], y: ys[i], z: zs[i] }),
        xs.len() == ys.len() ==> zip_points_2(xs, ys).len() == xs.len(),
        forall|i: int| 0 <= i < zip_points_2(xs, ys).len() ==> #[trigger] zip_points_2(xs, ys)[i] == (crate::entities::Point { x: xs[i], y: ys[i], z: 0 }),
{
}

/// Version gating: an entity whose kind is newer than the target version
/// encodes to no records at all.
pub proof fn unsupported_version_writes_nothing(e: EntityView, version: AcadVersion, write_handles: bool)
    requires
        !version.spec_at_least(e.specific.min_version()),
    ensures
        entity_records(e, version, write_handles) == Seq::<CodePairView>::empty(),
{
}

/// The decoder's step run over records that are all fields (no tag).
pub open spec fn run<S>(st: S, a: Seq<CodePairView>, step: spec_fn(S, CodePairView) -> DxfResult<S>) -> DxfResult<S>
    decreases a.len(),
{
    if a.len() == 0 {
        Ok(st)
    } else {
        match step(st, a[0]) {
            Ok(n) => run(n, a.drop_first(), step),
            Err(e) => Err(e),
        }
    }
}

pub proof fn lemma_run_concat<S>(st: S, a: Seq<CodePairView>, b: Seq<CodePairView>, step: spec_fn(S, CodePairView) -> DxfResult<S>)
    ensures
        run(st, a + b, step) == match run(st, a, step) {
            Ok(m) => run(m, b, step),
            Err(e) => Err(e),
        },
    decreases a.len(),
{
    if a.len() == 0 {
        assert(a + b =~= b);
    } else {
        assert((a + b)[0] == a[0]);
        assert((a + b).drop_first() =~= a.drop_first() + b);
        match step(st, a[0]) {
            Ok(n) => lemma_run_concat(n, a.drop_first(), b, step),
            Err(_) => {},
        }
    }
}

pub proof fn lemma_fold_run<S>(st: S, items: Seq<Item>, a: Seq<CodePairView>, rest: Seq<Item>, step: spec_fn(S, CodePairView) -> DxfResult<S>)
    requires
        items.len() == a.len(),
        forall|i: int| #![trigger items[i]] 0 <= i < a.len() ==> field_item(items[i], a[i]),
    ensures
        run(st, a, step) matches Ok(m) ==> fold_body(st, items + rest, step) == fold_body(m, rest, step),
    decreases a.len(),
{
    if a.len() == 0 {
        assert(items + rest =~= rest);
    } else {
        assert((items + rest)[0] == items[0]);
        assert(field_item(items[0], a[0]));
        assert((items + rest).drop_first() =~= items.drop_first() + rest);
        match step(st, a[0]) {
            Ok(n) => {
                let it2 = items.drop_first();
                let a2 = a.drop_first();
                assert forall|i: int| #![trigger it2[i]] 0 <= i < a2.len() implies field_item(it2[i], a2[i]) by {
                    assert(it2[i] == items[i + 1]);
                    assert(a2[i] == a[i + 1]);
                    assert(field_item(items[i + 1], a[i + 1]));
                }
                assert(it2.len() == a2.len());
                lemma_fold_run(n, it2, a2, rest, step);
            },
            Err(_) => {},
        }
    }
}

proof fn lemma_line_own_run(l: Line, c1: EntityCommonView)
    requires
        l.thickness == 0 || !is_zero_real(l.thickness),
        l.extrusion_direction == Point::spec_z_axis() || !is_z_axis(l.extrusion_direction),
    ensures
        run((c1, CommonMode::Normal, EntityTypeView::Line(Line::default_value())), line_records(l, AcadVersion::R12), generic_steps())
            == Ok::<(EntityCommonView, CommonMode, EntityTypeView), DxfError>((c1, CommonMode::Normal, EntityTypeView::Line(l))),
{
    reveal_strlit("AcDbLine");
    let v = AcadVersion::R12;
    let own = line_records(l, v);
    let steps = generic_steps();
    // the line's own records, piece by piece
    let marker = seq![rec(100, ValueView::Str("AcDbLine"@))];
    let thick = if !is_zero_real(l.thickness) { seq![rec(39, ValueView::Double(l.thickness))] } else { Seq::empty() };
    let p1 = point_records(10, l.p1);
    let p2 = point_records(11, l.p2);
    let ext = if !is_z_axis(l.extrusion_direction) { point_records(210, l.extrusion_direction) } else { Seq::empty() };
    assert(own =~= marker + thick + p1 + p2 + ext);
    let d = Line::default_value();
    let sa = (c1, CommonMode::Normal, EntityTypeView::Line(d));
    let sb = (c1, CommonMode::Normal, EntityTypeView::Line(Line { thickness: l.thickness, ..d }));
    let sc = (c1, CommonMode::Normal, EntityTypeView::Line(Line { thickness: l.thickness, p1: l.p1, ..d }));
    let sd = (c1, CommonMode::Normal, EntityTypeView::Line(Line { thickness: l.thickness, p1: l.p1, p2: l.p2, ..d }));
    let se = (c1, CommonMode::Normal, EntityTypeView::Line(l));
    assert(run(sa, marker, steps) == Ok::<(EntityCommonView, CommonMode, EntityTypeView), DxfError>(sa)) by {
        reveal_with_fuel(run, 2);
    }
    assert(run(sa, thick, steps) == Ok::<(EntityCommonView, CommonMode, EntityTypeView), DxfError>(sb)) by {
        reveal_with_fuel(run, 2);
    }
    assert(run(sb, p1, steps) == Ok::<(EntityCommonView, CommonMode, EntityTypeView), DxfError>(sc)) by {
        reveal_with_fuel(run, 4);
    }
    assert(run(sc, p2, steps) == Ok::<(EntityCommonView, CommonMode, EntityTypeView), DxfError>(sd)) by {
        reveal_with_fuel(run, 4);
    }
    assert(run(sd, ext, steps) == Ok::<(EntityCommonView, CommonMode, EntityTypeView), DxfError>(se)) by {
        reveal_with_fuel(run, 4);
    }
    lemma_run_concat(sa, marker, thick, steps);
    lemma_run_concat(sa, marker + thick, p1, steps);
    lemma_run_concat(sa, marker + thick + p1, p2, steps);
    lemma_run_concat(sa, marker + thick + p1 + p2, ext, steps);
    assert(own =~= marker + thick + p1 + p2 + ext);
}

/// Round trip of a line: the records a line on any layer writes for R12
/// (without handles), followed by the next entity's tag, decode to that
/// same line. Thickness and extrusion are left out of the output when they
/// equal their defaults and decode back to those defaults; a `-0.0`
/// thickness, or an extrusion whose zero components are `-0.0`, is not
/// written and reads back as the plain default, so those are excluded.
#[verifier::rlimit(60)]
pub proof fn line_round_trip(l: Line, layer: Seq<char>, s: Seq<Item>)
    requires
        l.thickness == 0 || !is_zero_real(l.thickness),
        l.extrusion_direction == Point::spec_z_axis() || !is_z_axis(l.extrusion_direction),
        s.len() == entity_records(line_entity(l, layer), AcadVersion::R12, false).len() + 1,
        forall|i: int| 0 <= i < s.len() - 1 ==> item_is(#[trigger] s[i], entity_records(line_entity(l, layer), AcadVersion::R12, false)[i]),
        is_tag_record(s[s.len() - 1]),
    ensures
        decode_entity(s).0 == Ok::<Option<EntityView>, DxfError>(Some(line_entity(l, layer))),
{
    reveal_strlit("LINE");
    reveal_strlit("AcDbEntity");
    reveal_strlit("ENDSEC");
    reveal_strlit("ENDBLK");
    reveal_strlit("DIMENSION");
    let e = line_entity(l, layer);
    let v = AcadVersion::R12;
    let recs = entity_records(e, v, false);
    let tag = seq![rec(0, ValueView::Str("LINE"@))];
    let common = common_records(e.common, v, false);
    let own = line_records(l, v);
    assert(groups_records(Seq::<ExtensionGroupView>::empty()) == Seq::<CodePairView>::empty());
    assert(common =~= seq![rec(100, ValueView::Str("AcDbEntity"@)), rec(8, ValueView::Str(layer))]);
    assert(recs =~= tag + (common + own));
    let body = common + own;
    let items = s.subrange(1, s.len() - 1);
    let rest = s.subrange(s.len() - 1, s.len() as int);
    assert(s.drop_first() =~= items + rest);
    assert forall|i: int| #![trigger items[i]] 0 <= i < body.len() implies field_item(items[i], body[i]) by {
        assert(items[i] == s[i + 1]);
        assert(recs[i + 1] == body[i]);
    }
    assert(item_is(s[0], recs[0]));
    assert(resolve_type_name("LINE"@) == Some(EntityTypeView::Line(Line::default_value())));
    let st0 = start_state(EntityTypeView::Line(Line::default_value()));
    let steps = generic_steps();
    // the common records
    let c1 = EntityCommonView { layer, ..EntityCommon::default_view() };
    assert(run(st0, common, steps) == Ok::<(EntityCommonView, CommonMode, EntityTypeView), DxfError>((c1, CommonMode::Normal, EntityTypeView::Line(Line::default_value())))) by {
        reveal_with_fuel(run, 3);
    }
    lemma_line_own_run(l, c1);
    let se = (c1, CommonMode::Normal, EntityTypeView::Line(l));
    lemma_run_concat(st0, common, own, steps);
    assert(run(st0, body, steps) == Ok::<(EntityCommonView, CommonMode, EntityTypeView), DxfError>(se));
    lemma_fold_run(st0, items, body, rest, steps);
    assert(rest[0] == s[s.len() - 1]);
    assert(fold_body(se, rest, steps) == (Ok::<(EntityCommonView, CommonMode, EntityTypeView), DxfError>(se), rest));
    assert(fold_body(st0, s.drop_first(), steps) == (Ok::<(EntityCommonView, CommonMode, EntityTypeView), DxfError>(se), rest));
    assert("LINE"@.len() == 4);
    assert("ENDSEC"@.len() == 6);
    assert("ENDBLK"@.len() == 6);
    assert("DIMENSION"@.len() == 9);
    assert(!is_section_end("LINE"@));
    assert("LINE"@ != "DIMENSION"@);
}
/// The item is a record with this code and value, at any offset.
pub open spec fn record_is(i: Item, code: u16, value: ValueView) -> bool {
    i is Ok && i->Ok_0.code == code && i->Ok_0@.value == value
}

/// Dimension base preservation over a whole read: a dimension whose text
/// (code 1) and style name (code 3) come before the radial marker, followed
/// by the radial point (15/25/35) and leader length (40), decodes to a
/// radial dimension holding that text and style, that point and length,
/// and defaults elsewhere.
pub proof fn radial_dimension_read_keeps_base(t: Seq<char>, st: Seq<char>, x: u64, y: u64, z: u64, len: u64, s: Seq<Item>)
    requires
        s.len() == 9,
        record_is(s[0], 0, ValueView::Str("DIMENSION"@)),
        record_is(s[1], 1, ValueView::Str(t)),
        record_is(s[2], 3, ValueView::Str(st)),
        record_is(s[3], 100, ValueView::Str("AcDbRadialDimension"@)),
        record_is(s[4], 15, ValueView::Double(x)),
        record_is(s[5], 25, ValueView::Double(y)),
        record_is(s[6], 35, ValueView::Double(z)),
        record_is(s[7], 40, ValueView::Double(len)),
        is_tag_record(s[8]),
    ensures
        decode_entity(s).0 == Ok::<Option<EntityView>, DxfError>(
            Some(
                EntityView {
                    common: EntityCommon::default_view(),
                    specific: EntityTypeView::RadialDimension(
                        RadialDimensionView {
                            dimension_base: DimensionBaseView { text: t, dimension_style_name: st, ..DimensionBase::default_view() },
                            definition_point_2: Point { x, y, z },
                            leader_length: len,
                        },
                    ),
                },
            ),
        ),
{
    reveal_strlit("DIMENSION");
    reveal_strlit("ENDSEC");
    reveal_strlit("ENDBLK");
    reveal_strlit("AcDbRadialDimension");
    reveal_strlit("AcDbDiametricDimension");
    reveal_strlit("AcDb3PointAngularDimension");
    reveal_strlit("AcDbOrdinateDimension");
    reveal(dimension_record);
    assert("DIMENSION"@.len() == 9);
    assert("ENDSEC"@.len() == 6);
    assert("ENDBLK"@.len() == 6);
    assert(!is_section_end("DIMENSION"@));
    let c0 = EntityCommon::default_view();
    let b0 = DimensionBase::default_view();
    let steps = dimension_steps();
    let r0 = EntityTypeView::RotatedDimension(RotatedDimension::default_view());
    let s1 = (c0, CommonMode::Normal, EntityTypeView::RotatedDimension(RotatedDimensionView {
        dimension_base: DimensionBaseView { text: t, ..b0 },
        ..RotatedDimension::default_view()
    }));
    let s2 = (c0, CommonMode::Normal, EntityTypeView::RotatedDimension(RotatedDimensionView {
        dimension_base: DimensionBaseView { text: t, dimension_style_name: st, ..b0 },
        ..RotatedDimension::default_view()
    }));
    let bb = DimensionBaseView { text: t, dimension_style_name: st, ..b0 };
    let s3 = (c0, CommonMode::Normal, EntityTypeView::RadialDimension(RadialDimensionView { dimension_base: bb, ..RadialDimension::default_view() }));
    let d = RadialDimension::default_view();
    let s4 = (c0, CommonMode::Normal, EntityTypeView::RadialDimension(RadialDimensionView { dimension_base: bb, definition_point_2: Point { x, ..d.definition_point_2 }, ..d }));
    let s5 = (c0, CommonMode::Normal, EntityTypeView::RadialDimension(RadialDimensionView { dimension_base: bb, definition_point_2: Point { x, y, ..d.definition_point_2 }, ..d }));
    let s6 = (c0, CommonMode::Normal, EntityTypeView::RadialDimension(RadialDimensionView { dimension_base: bb, definition_point_2: Point { x, y, z }, ..d }));
    let s7 = (c0, CommonMode::Normal, EntityTypeView::RadialDimension(RadialDimensionView { dimension_base: bb, definition_point_2: Point { x, y, z }, leader_length: len }));
    let q = s.drop_first();
    assert(dimension_step((c0, CommonMode::Normal, r0), q[0]->Ok_0@) == Ok::<(EntityCommonView, CommonMode, EntityTypeView), DxfError>(s1));
    assert(dimension_step(s1, q[1]->Ok_0@) == Ok::<(EntityCommonView, CommonMode, EntityTypeView), DxfError>(s2));
    assert(dimension_step(s2, q[2]->Ok_0@) == Ok::<(EntityCommonView, CommonMode, EntityTypeView), DxfError>(s3));
    assert(dimension_step(s3, q[3]->Ok_0@) == Ok::<(EntityCommonView, CommonMode, EntityTypeView), DxfError>(s4));
    assert(dimension_step(s4, q[4]->Ok_0@) == Ok::<(EntityCommonView, CommonMode, EntityTypeView), DxfError>(s5));
    assert(dimension_step(s5, q[5]->Ok_0@) == Ok::<(EntityCommonView, CommonMode, EntityTypeView), DxfError>(s6));
    assert(dimension_step(s6, q[6]->Ok_0@) == Ok::<(EntityCommonView, CommonMode, EntityTypeView), DxfError>(s7));
    let q7 = q.subrange(7, 8);
    assert(fold_body(s7, q7, steps) == (Ok::<(EntityCommonView, CommonMode, EntityTypeView), DxfError>(s7), q7));
    let q6 = q.subrange(6, 8);
    assert(q6.drop_first() =~= q7);
    assert(fold_body(s6, q6, steps).0 == Ok::<(EntityCommonView, CommonMode, EntityTypeView), DxfError>(s7));
    let q5 = q.subrange(5, 8);
    assert(q5.drop_first() =~= q6);
    assert(fold_body(s5, q5, steps).0 == Ok::<(EntityCommonView, CommonMode, EntityTypeView), DxfError>(s7));
    let q4 = q.subrange(4, 8);
    assert(q4.drop_first() =~= q5);
    assert(fold_body(s4, q4, steps).0 == Ok::<(EntityCommonView, CommonMode, EntityTypeView), DxfError>(s7));
    let q3 = q.subrange(3, 8);
    assert(q3.drop_first() =~= q4);
    assert(fold_body(s3, q3, steps).0 == Ok::<(EntityCommonView, CommonMode, EntityTypeView), DxfError>(s7));
    let q2 = q.subrange(2, 8);
    assert(q2.drop_first() =~= q3);
    assert(fold_body(s2, q2, steps).0 == Ok::<(EntityCommonView, CommonMode, EntityTypeView), DxfError>(s7));
    let q1 = q.subrange(1, 8);
    assert(q1.drop_first() =~= q2);
    assert(fold_body(s1, q1, steps).0 == Ok::<(EntityCommonView, CommonMode, EntityTypeView), DxfError>(s7));
    assert(q.drop_first() =~= q1);
    assert(fold_body((c0, CommonMode::Normal, r0), q, steps).0 == Ok::<(EntityCommonView, CommonMode, EntityTypeView), DxfError>(s7));
}

/// The polyline with its first `k` own fields (in writing order) taken
/// from `p` and the rest at their defaults.
pub open spec fn polyline_prefix(p: PolylineView, k: int) -> PolylineView {
    let d = Polyline::default_view();
    PolylineView {
        contains_vertices: if k > 0 { p.contains_vertices } else { d.contains_vertices },
        location: if k > 1 { p.location } else { d.location },
        thickness: if k > 2 { p.thickness } else { d.thickness },
        flags: if k > 3 { p.flags } else { d.flags },
        default_starting_width: if k > 4 { p.default_starting_width } else { d.default_starting_width },
        default_ending_width: if k > 5 { p.default_ending_width } else { d.default_ending_width },
        polygon_mesh_m_vertex_count: if k > 6 { p.polygon_mesh_m_vertex_count } else { d.polygon_mesh_m_vertex_count },
        polygon_mesh_n_vertex_count: if k > 7 { p.polygon_mesh_n_vertex_count } else { d.polygon_mesh_n_vertex_count },
        smooth_surface_m_density: if k > 8 { p.smooth_surface_m_density } else { d.smooth_surface_m_density },
        smooth_surface_n_density: if k > 9 { p.smooth_surface_n_density } else { d.smooth_surface_n_density },
        surface_type: if k > 10 { p.surface_type } else { d.surface_type },
        normal: if k > 11 { p.normal } else { d.normal },
        vertices_and_handles: Seq::empty(),
    }
}

pub open spec fn polyline_state(c1: EntityCommonView, p: PolylineView, k: int) -> (EntityCommonView, CommonMode, EntityTypeView) {
    (c1, CommonMode::Normal, EntityTypeView::Polyline(polyline_prefix(p, k)))
}

/// The records of a polyline's own fields at R12, one piece per field.
pub open spec fn polyline_piece(p: PolylineView, i: int) -> Seq<CodePairView> {
    if i == 0 {
        seq![rec(100, ValueView::Str(if (p.flags & 8) != 0 || (p.flags & 16) != 0 { "AcDb3dPolyline"@ } else { "AcDb2dPolyline"@ }))]
    } else if i == 1 {
        seq![rec(66, ValueView::Short(if p.contains_vertices { 1 } else { 0 }))]
    } else if i == 2 {
        point_records(10, p.location)
    } else if i == 3 {
        (if !is_zero_real(p.thickness) { seq![rec(39, ValueView::Double(p.thickness))] } else { Seq::empty() })
    } else if i == 4 {
        (if p.flags != 0 { seq![rec(70, ValueView::Short(p.flags as i16))] } else { Seq::empty() })
    } else if i == 5 {
        (if !is_zero_real(p.default_starting_width) { seq![rec(40, ValueView::Double(p.default_starting_width))] } else { Seq::empty() })
    } else if i == 6 {
        (if !is_zero_real(p.default_ending_width) { seq![rec(41, ValueView::Double(p.default_ending_width))] } else { Seq::empty() })
    } else if i == 7 {
        (if p.polygon_mesh_m_vertex_count != 0 { seq![rec(71, ValueView::Short(p.polygon_mesh_m_vertex_count as i16))] } else { Seq::empty() })
    } else if i == 8 {
        (if p.polygon_mesh_n_vertex_count != 0 { seq![rec(72, ValueView::Short(p.polygon_mesh_n_vertex_count as i16))] } else { Seq::empty() })
    } else if i == 9 {
        (if p.smooth_surface_m_density != 0 { seq![rec(73, ValueView::Short(p.smooth_surface_m_density as i16))] } else { Seq::empty() })
    } else if i == 10 {
        (if p.smooth_surface_n_density != 0 { seq![rec(74, ValueView::Short(p.smooth_surface_n_density as i16))] } else { Seq::empty() })
    } else if i == 11 {
        (if p.surface_type != PolylineCurvedAndSmoothSurfaceType::NoSmoothing { seq![rec(75, ValueView::Short(p.surface_type.spec_to_i16()))] } else { Seq::empty() })
    } else if i == 12 {
        (if !is_z_axis(p.normal) { point_records(210, p.normal) } else { Seq::empty() })
    } else {
        Seq::empty()
    }
}

proof fn lemma_polyline_piece_0(p: PolylineView, c1: EntityCommonView)
    requires
        p.thickness == 0 || !is_zero_real(p.thickness),
        p.default_starting_width == 0 || !is_zero_real(p.default_starting_width),
        p.default_ending_width == 0 || !is_zero_real(p.default_ending_width),
        p.normal == Point::spec_z_axis() || !is_z_axis(p.normal),
        i16::MIN <= p.flags <= i16::MAX,
        i16::MIN <= p.polygon_mesh_m_vertex_count <= i16::MAX,
        i16::MIN <= p.polygon_mesh_n_vertex_count <= i16::MAX,
        i16::MIN <= p.smooth_surface_m_density <= i16::MAX,
        i16::MIN <= p.smooth_surface_n_density <= i16::MAX,
    ensures
        run(polyline_state(c1, p, 0), polyline_piece(p, 0), generic_steps()) == Ok::<(EntityCommonView, CommonMode, EntityTypeView), DxfError>(polyline_state(c1, p, 0)),
{
    reveal_with_fuel(run, 4);
}

proof fn lemma_polyline_piece_1(p: PolylineView, c1: EntityCommonView)
    requires
        p.thickness == 0 || !is_zero_real(p.thickness),
        p.default_starting_width == 0 || !is_zero_real(p.default_starting_width),
        p.default_ending_width == 0 || !is_zero_real(p.default_ending_width),
        p.normal == Point::spec_z_axis() || !is_z_axis(p.normal),
        i16::MIN <= p.flags <= i16::MAX,
        i16::MIN <= p.polygon_mesh_m_vertex_count <= i16::MAX,
        i16::MIN <= p.polygon_mesh_n_vertex_count <= i16::MAX,
        i16::MIN <= p.smooth_surface_m_density <= i16::MAX,
        i16::MIN <= p.smooth_surface_n_density <= i16::MAX,
    ensures
        run(polyline_state(c1, p, 0), polyline_piece(p, 1), generic_steps()) == Ok::<(EntityCommonView, CommonMode, EntityTypeView), DxfError>(polyline_state(c1, p, 1)),
{
    reveal_with_fuel(run, 4);
}

proof fn lemma_polyline_piece_2(p: PolylineView, c1: EntityCommonView)
    requires
        p.thickness == 0 || !is_zero_real(p.thickness),
        p.default_starting_width == 0 || !is_zero_real(p.default_starting_width),
        p.default_ending_width == 0 || !is_zero_real(p.default_ending_width),
        p.normal == Point::spec_z_axis() || !is_z_axis(p.normal),
        i16::MIN <= p.flags <= i16::MAX,
        i16::MIN <= p.polygon_mesh_m_vertex_count <= i16::MAX,
        i16::MIN <= p.polygon_mesh_n_vertex_count <= i16::MAX,
        i16::MIN <= p.smooth_surface_m_density <= i16::MAX,
        i16::MIN <= p.smooth_surface_n_density <= i16::MAX,
    ensures
        run(polyline_state(c1, p, 1), polyline_piece(p, 2), generic_steps()) == Ok::<(EntityCommonView, CommonMode, EntityTypeView), DxfError>(polyline_state(c1, p, 2)),
{
    reveal_with_fuel(run, 4);
}

proof fn lemma_polyline_piece_3(p: PolylineView, c1: EntityCommonView)
    requires
        p.thickness == 0 || !is_zero_real(p.thickness),
        p.default_starting_width == 0 || !is_zero_real(p.default_starting_width),
        p.default_ending_width == 0 || !is_zero_real(p.default_ending_width),
        p.normal == Point::spec_z_axis() || !is_z_axis(p.normal),
        i16::MIN <= p.flags <= i16::MAX,
        i16::MIN <= p.polygon_mesh_m_vertex_count <= i16::MAX,
        i16::MIN <= p.polygon_mesh_n_vertex_count <= i16::MAX,
        i16::MIN <= p.smooth_surface_m_density <= i16::MAX,
        i16::MIN <= p.smooth_surface_n_density <= i16::MAX,
    ensures
        run(polyline_state(c1, p, 2), polyline_piece(p, 3), generic_steps()) == Ok::<(EntityCommonView, CommonMode, EntityTypeView), DxfError>(polyline_state(c1, p, 3)),
{
    reveal_with_fuel(run, 4);
}

proof fn lemma_polyline_piece_4(p: PolylineView, c1: EntityCommonView)
    requires
        p.thickness == 0 || !is_zero_real(p.thickness),
        p.default_starting_width == 0 || !is_zero_real(p.default_starting_width),
        p.default_ending_width == 0 || !is_zero_real(p.default_ending_width),
        p.normal == Point::spec_z_axis() || !is_z_axis(p.normal),
        i16::MIN <= p.flags <= i16::MAX,
        i16::MIN <= p.polygon_mesh_m_vertex_count <= i16::MAX,
        i16::MIN <= p.polygon_mesh_n_vertex_count <= i16::MAX,
        i16::MIN <= p.smooth_surface_m_density <= i16::MAX,
        i16::MIN <= p.smooth_surface_n_density <= i16::MAX,
    ensures
        run(polyline_state(c1, p, 3), polyline_piece(p, 4), generic_steps()) == Ok::<(EntityCommonView, CommonMode, EntityTypeView), DxfError>(polyline_state(c1, p, 4)),
{
    reveal_with_fuel(run, 4);
}

proof fn lemma_polyline_piece_5(p: PolylineView, c1: EntityCommonView)
    requires
        p.thickness == 0 || !is_zero_real(p.thickness),
        p.default_starting_width == 0 || !is_zero_real(p.default_starting_width),
        p.default_ending_width == 0 || !is_zero_real(p.default_ending_width),
        p.normal == Point::spec_z_axis() || !is_z_axis(p.normal),
        i16::MIN <= p.flags <= i16::MAX,
        i16::MIN <= p.polygon_mesh_m_vertex_count <= i16::MAX,
        i16::MIN <= p.polygon_mesh_n_vertex_count <= i16::MAX,
        i16::MIN <= p.smooth_surface_m_density <= i16::MAX,
        i16::MIN <= p.smooth_surface_n_density <= i16::MAX,
    ensures
        run(polyline_state(c1, p, 4), polyline_piece(p, 5), generic_steps()) == Ok::<(EntityCommonView, CommonMode, EntityTypeView), DxfError>(polyline_state(c1, p, 5)),
{
    reveal_with_fuel(run, 4);
}

proof fn lemma_polyline_piece_6(p: PolylineView, c1: EntityCommonView)
    requires
        p.thickness == 0 || !is_zero_real(p.thickness),
        p.default_starting_width == 0 || !is_zero_real(p.default_starting_width),
        p.default_ending_width == 0 || !is_zero_real(p.default_ending_width),
        p.normal == Point::spec_z_axis() || !is_z_axis(p.normal),
        i16::MIN <= p.flags <= i16::MAX,
        i16::MIN <= p.polygon_mesh_m_vertex_count <= i16::MAX,
        i16::MIN <= p.polygon_mesh_n_vertex_count <= i16::MAX,
        i16::MIN <= p.smooth_surface_m_density <= i16::MAX,
        i16::MIN <= p.smooth_surface_n_density <= i16::MAX,
    ensures
        run(polyline_state(c1, p, 5), polyline_piece(p, 6), generic_steps()) == Ok::<(EntityCommonView, CommonMode, EntityTypeView), DxfError>(polyline_state(c1, p, 6)),
{
    reveal_with_fuel(run, 4);
}

proof fn lemma_polyline_piece_7(p: PolylineView, c1: EntityCommonView)
    requires
        p.thickness == 0 || !is_zero_real(p.thickness),
        p.default_starting_width == 0 || !is_zero_real(p.default_starting_width),
        p.default_ending_width == 0 || !is_zero_real(p.default_ending_width),
        p.normal == Point::spec_z_axis() || !is_z_axis(p.normal),
        i16::MIN <= p.flags <= i16::MAX,
        i16::MIN <= p.polygon_mesh_m_vertex_count <= i16::MAX,
        i16::MIN <= p.polygon_mesh_n_vertex_count <= i16::MAX,
        i16::MIN <= p.smooth_surface_m_density <= i16::MAX,
        i16::MIN <= p.smooth_surface_n_density <= i16::MAX,
    ensures
        run(polyline_state(c1, p, 6), polyline_piece(p, 7), generic_steps()) == Ok::<(EntityCommonView, CommonMode, EntityTypeView), DxfError>(polyline_state(c1, p, 7)),
{
    reveal_with_fuel(run, 4);
}

proof fn lemma_polyline_piece_8(p: PolylineView, c1: EntityCommonView)
    requires
        p.thickness == 0 || !is_zero_real(p.thickness),
        p.default_starting_width == 0 || !is_zero_real(p.default_starting_width),
        p.default_ending_width == 0 || !is_zero_real(p.default_ending_width),
        p.normal == Point::spec_z_axis() || !is_z_axis(p.normal),
        i16::MIN <= p.flags <= i16::MAX,
        i16::MIN <= p.polygon_mesh_m_vertex_count <= i16::MAX,
        i16::MIN <= p.polygon_mesh_n_vertex_count <= i16::MAX,
        i16::MIN <= p.smooth_surface_m_density <= i16::MAX,
        i16::MIN <= p.smooth_surface_n_density <= i16::MAX,
    ensures
        run(polyline_state(c1, p, 7), polyline_piece(p, 8), generic_steps()) == Ok::<(EntityCommonView, CommonMode, EntityTypeView), DxfError>(polyline_state(c1, p, 8)),
{
    reveal_with_fuel(run, 4);
}

proof fn lemma_polyline_piece_9(p: PolylineView, c1: EntityCommonView)
    requires
        p.thickness == 0 || !is_zero_real(p.thickness),
        p.default_starting_width == 0 || !is_zero_real(p.default_starting_width),
        p.default_ending_width == 0 || !is_zero_real(p.default_ending_width),
        p.normal == Point::spec_z_axis() || !is_z_axis(p.normal),
        i16::MIN <= p.flags <= i16::MAX,
        i16::MIN <= p.polygon_mesh_m_vertex_count <= i16::MAX,
        i16::MIN <= p.polygon_mesh_n_vertex_count <= i16::MAX,
        i16::MIN <= p.smooth_surface_m_density <= i16::MAX,
        i16::MIN <= p.smooth_surface_n_density <= i16::MAX,
    ensures
        run(polyline_state(c1, p, 8), polyline_piece(p, 9), generic_steps()) == Ok::<(EntityCommonView, CommonMode, EntityTypeView), DxfError>(polyline_state(c1, p, 9)),
{
    reveal_with_fuel(run, 4);
}

proof fn lemma_polyline_piece_10(p: PolylineView, c1: EntityCommonView)
    requires
        p.thickness == 0 || !is_zero_real(p.thickness),
        p.default_starting_width == 0 || !is_zero_real(p.default_starting_width),
        p.default_ending_width == 0 || !is_zero_real(p.default_ending_width),
        p.normal == Point::spec_z_axis() || !is_z_axis(p.normal),
        i16::MIN <= p.flags <= i16::MAX,
        i16::MIN <= p.polygon_mesh_m_vertex_count <= i16::MAX,
        i16::MIN <= p.polygon_mesh_n_vertex_count <= i16::MAX,
        i16::MIN <= p.smooth_surface_m_density <= i16::MAX,
        i16::MIN <= p.smooth_surface_n_density <= i16::MAX,
    ensures
        run(polyline_state(c1, p, 9), polyline_piece(p, 10), generic_steps()) == Ok::<(EntityCommonView, CommonMode, EntityTypeView), DxfError>(polyline_state(c1, p, 10)),
{
    reveal_with_fuel(run, 4);
}

proof fn lemma_polyline_piece_11(p: PolylineView, c1: EntityCommonView)
    requires
        p.thickness == 0 || !is_zero_real(p.thickness),
        p.default_starting_width == 0 || !is_zero_real(p.default_starting_width),
        p.default_ending_width == 0 || !is_zero_real(p.default_ending_width),
        p.normal == Point::spec_z_axis() || !is_z_axis(p.normal),
        i16::MIN <= p.flags <= i16::MAX,
        i16::MIN <= p.polygon_mesh_m_vertex_count <= i16::MAX,
        i16::MIN <= p.polygon_mesh_n_vertex_count <= i16::MAX,
        i16::MIN <= p.smooth_surface_m_density <= i16::MAX,
        i16::MIN <= p.smooth_surface_n_density <= i16::MAX,
    ensures
        run(polyline_state(c1, p, 10), polyline_piece(p, 11), generic_steps()) == Ok::<(EntityCommonView, CommonMode, EntityTypeView), DxfError>(polyline_state(c1, p, 11)),
{
    reveal_with_fuel(run, 4);
}

proof fn lemma_polyline_piece_12(p: PolylineView, c1: EntityCommonView)
    requires
        p.thickness == 0 || !is_zero_real(p.thickness),
        p.default_starting_width == 0 || !is_zero_real(p.default_starting_width),
        p.default_ending_width == 0 || !is_zero_real(p.default_ending_width),
        p.normal == Point::spec_z_axis() || !is_z_axis(p.normal),
        i16::MIN <= p.flags <= i16::MAX,
        i16::MIN <= p.polygon_mesh_m_vertex_count <= i16::MAX,
        i16::MIN <= p.polygon_mesh_n_vertex_count <= i16::MAX,
        i16::MIN <= p.smooth_surface_m_density <= i16::MAX,
        i16::MIN <= p.smooth_surface_n_density <= i16::MAX,
    ensures
        run(polyline_state(c1, p, 11), polyline_piece(p, 12), generic_steps()) == Ok::<(EntityCommonView, CommonMode, EntityTypeView), DxfError>(polyline_state(c1, p, 12)),
{
    reveal_with_fuel(run, 4);
}

proof fn lemma_polyline_part_1(p: PolylineView, c1: EntityCommonView)
    requires
        p.thickness == 0 || !is_zero_real(p.thickness),
        p.default_starting_width == 0 || !is_zero_real(p.default_starting_width),
        p.default_ending_width == 0 || !is_zero_real(p.default_ending_width),
        p.normal == Point::spec_z_axis() || !is_z_axis(p.normal),
        i16::MIN <= p.flags <= i16::MAX,
        i16::MIN <= p.polygon_mesh_m_vertex_count <= i16::MAX,
        i16::MIN <= p.polygon_mesh_n_vertex_count <= i16::MAX,
        i16::MIN <= p.smooth_surface_m_density <= i16::MAX,
        i16::MIN <= p.smooth_surface_n_density <= i16::MAX,
    ensures
        run(polyline_state(c1, p, 0), polyline_1_records(p, AcadVersion::R12), generic_steps()) == Ok::<(EntityCommonView, CommonMode, EntityTypeView), DxfError>(polyline_state(c1, p, 5)),
{
    let steps = generic_steps();
    lemma_polyline_piece_0(p, c1);
    let ghost acc = polyline_piece(p, 0);
    lemma_polyline_piece_1(p, c1);
    lemma_run_concat(polyline_state(c1, p, 0), acc, polyline_piece(p, 1), steps);
    let ghost acc = acc + polyline_piece(p, 1);
    lemma_polyline_piece_2(p, c1);
    lemma_run_concat(polyline_state(c1, p, 0), acc, polyline_piece(p, 2), steps);
    let ghost acc = acc + polyline_piece(p, 2);
    lemma_polyline_piece_3(p, c1);
    lemma_run_concat(polyline_state(c1, p, 0), acc, polyline_piece(p, 3), steps);
    let ghost acc = acc + polyline_piece(p, 3);
    lemma_polyline_piece_4(p, c1);
    lemma_run_concat(polyline_state(c1, p, 0), acc, polyline_piece(p, 4), steps);
    let ghost acc = acc + polyline_piece(p, 4);
    lemma_polyline_piece_5(p, c1);
    lemma_run_concat(polyline_state(c1, p, 0), acc, polyline_piece(p, 5), steps);
    let ghost acc = acc + polyline_piece(p, 5);
    assert(polyline_1_records(p, AcadVersion::R12) == acc);
}

proof fn lemma_polyline_part_2(p: PolylineView, c1: EntityCommonView)
    requires
        p.thickness == 0 || !is_zero_real(p.thickness),
        p.default_starting_width == 0 || !is_zero_real(p.default_starting_width),
        p.default_ending_width == 0 || !is_zero_real(p.default_ending_width),
        p.normal == Point::spec_z_axis() || !is_z_axis(p.normal),
        i16::MIN <= p.flags <= i16::MAX,
        i16::MIN <= p.polygon_mesh_m_vertex_count <= i16::MAX,
        i16::MIN <= p.polygon_mesh_n_vertex_count <= i16::MAX,
        i16::MIN <= p.smooth_surface_m_density <= i16::MAX,
        i16::MIN <= p.smooth_surface_n_density <= i16::MAX,
    ensures
        run(polyline_state(c1, p, 5), polyline_2_records(p, AcadVersion::R12), generic_steps()) == Ok::<(EntityCommonView, CommonMode, EntityTypeView), DxfError>(polyline_state(c1, p, 11)),
{
    let steps = generic_steps();
    lemma_polyline_piece_6(p, c1);
    let ghost acc = polyline_piece(p, 6);
    lemma_polyline_piece_7(p, c1);
    lemma_run_concat(polyline_state(c1, p, 5), acc, polyline_piece(p, 7), steps);
    let ghost acc = acc + polyline_piece(p, 7);
    lemma_polyline_piece_8(p, c1);
    lemma_run_concat(polyline_state(c1, p, 5), acc, polyline_piece(p, 8), steps);
    let ghost acc = acc + polyline_piece(p, 8);
    lemma_polyline_piece_9(p, c1);
    lemma_run_concat(polyline_state(c1, p, 5), acc, polyline_piece(p, 9), steps);
    let ghost acc = acc + polyline_piece(p, 9);
    lemma_polyline_piece_10(p, c1);
    lemma_run_concat(polyline_state(c1, p, 5), acc, polyline_piece(p, 10), steps);
    let ghost acc = acc + polyline_piece(p, 10);
    lemma_polyline_piece_11(p, c1);
    lemma_run_concat(polyline_state(c1, p, 5), acc, polyline_piece(p, 11), steps);
    let ghost acc = acc + polyline_piece(p, 11);
    assert(polyline_2_records(p, AcadVersion::R12) == acc);
}

proof fn lemma_polyline_part_3(p: PolylineView, c1: EntityCommonView)
    requires
        p.thickness == 0 || !is_zero_real(p.thickness),
        p.default_starting_width == 0 || !is_zero_real(p.default_starting_width),
        p.default_ending_width == 0 || !is_zero_real(p.default_ending_width),
        p.normal == Point::spec_z_axis() || !is_z_axis(p.normal),
        i16::MIN <= p.flags <= i16::MAX,
        i16::MIN <= p.polygon_mesh_m_vertex_count <= i16::MAX,
        i16::MIN <= p.polygon_mesh_n_vertex_count <= i16::MAX,
        i16::MIN <= p.smooth_surface_m_density <= i16::MAX,
        i16::MIN <= p.smooth_surface_n_density <= i16::MAX,
    ensures
        run(polyline_state(c1, p, 11), polyline_3_records(p, AcadVersion::R12), generic_steps()) == Ok::<(EntityCommonView, CommonMode, EntityTypeView), DxfError>(polyline_state(c1, p, 12)),
{
    let steps = generic_steps();
    lemma_polyline_piece_12(p, c1);
    let ghost acc = polyline_piece(p, 12);
    assert(polyline_3_records(p, AcadVersion::R12) == acc);
}

/// Round trip of a polyline's own fields at R12: reading back the records
/// `polyline_records` writes gives every field its value again, those left
/// out for being at their default included. Integers are written as 16-bit
/// values, so they must fit in 16 bits; a `-0.0` real, or a normal whose
/// zero components are `-0.0`, is left out and reads back as the plain
/// default, so those are excluded. (The vertices are separate entities.)
pub proof fn polyline_fields_round_trip(p: PolylineView, c1: EntityCommonView)
    requires
        p.thickness == 0 || !is_zero_real(p.thickness),
        p.default_starting_width == 0 || !is_zero_real(p.default_starting_width),
        p.default_ending_width == 0 || !is_zero_real(p.default_ending_width),
        p.normal == Point::spec_z_axis() || !is_z_axis(p.normal),
        i16::MIN <= p.flags <= i16::MAX,
        i16::MIN <= p.polygon_mesh_m_vertex_count <= i16::MAX,
        i16::MIN <= p.polygon_mesh_n_vertex_count <= i16::MAX,
        i16::MIN <= p.smooth_surface_m_density <= i16::MAX,
        i16::MIN <= p.smooth_surface_n_density <= i16::MAX,
    ensures
        run(
            (c1, CommonMode::Normal, EntityTypeView::Polyline(Polyline::default_view())),
            polyline_records(p, AcadVersion::R12),
            generic_steps(),
        ) == Ok::<(EntityCommonView, CommonMode, EntityTypeView), DxfError>(
            (c1, CommonMode::Normal, EntityTypeView::Polyline(PolylineView { vertices_and_handles: Seq::empty(), ..p })),
        ),
{
    let steps = generic_steps();
    let st0 = polyline_state(c1, p, 0);
    assert(polyline_prefix(p, 0) == Polyline::default_view());
    lemma_polyline_part_1(p, c1);
    lemma_polyline_part_2(p, c1);
    lemma_polyline_part_3(p, c1);
    let a1 = polyline_1_records(p, AcadVersion::R12);
    let a2 = polyline_2_records(p, AcadVersion::R12);
    let a3 = polyline_3_records(p, AcadVersion::R12);
    lemma_run_concat(st0, a1, a2, steps);
    lemma_run_concat(st0, a1 + a2, a3, steps);
    assert(polyline_prefix(p, 12) == PolylineView { vertices_and_handles: Seq::empty(), ..p });
}

} // verus!
