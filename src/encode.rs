use vstd::prelude::*;
use crate::code_pair::{emit, pairs_view, rec, CodePair, CodePairValue, CodePairView, Handle, ValueView};
use crate::common::{EntityCommon, EntityCommonView, ExtensionGroup, ExtensionGroupItem, ExtensionGroupItemView, ExtensionGroupView, XData, XDataItem, XDataItemView, XDataView};
use crate::entities::{AngularThreePointDimension, AngularThreePointDimensionView, Arc, Attribute, AttributeDefinition, AttributeDefinitionView, AttributeFields, AttributeFieldsView, AttributeView, Circle, DiameterDimension, DiameterDimensionView, DimensionBase, DimensionBaseView, EntityType, EntityTypeView, Face3D, Image, ImageView, Insert, InsertView, Leader, LeaderView, Line, LwPolyline, LwPolylineVertex, LwPolylineView, MText, MTextView, ModelPoint, OrdinateDimension, OrdinateDimensionView, Point, Polyline, PolylineView, ProxyEntity, RadialDimension, RadialDimensionView, RotatedDimension, RotatedDimensionView, Seqend, Solid, Solid3D, Solid3DView, Trace, Vertex};
use crate::entity::{Entity, EntityView};
use crate::enums::AcadVersion;
use crate::writers::{angular_three_point_dimension_records, arc_records, attribute_definition_records, attribute_records, circle_records, diameter_dimension_records, face3d_records, image_records, insert_records, leader_records, line_records, lw_polyline_records, m_text_records, model_point_records, ordinate_dimension_records, polyline_records, proxy_entity_records, radial_dimension_records, rotated_dimension_records, seqend_records, solid3d_records, solid_records, trace_records, vertex_records, write_angular_three_point_dimension, write_arc, write_attribute, write_attribute_definition, write_circle, write_diameter_dimension, write_face3d, write_image, write_insert, write_leader, write_line, write_lw_polyline, write_m_text, write_model_point, write_ordinate_dimension, write_polyline, write_proxy_entity, write_radial_dimension, write_rotated_dimension, write_seqend, write_solid, write_solid3d, write_trace, write_vertex};

verus! {

/// The records of one entity kind's own fields.
pub open spec fn specific_records(v: EntityTypeView, version: AcadVersion) -> Seq<CodePairView> {
    match v {
        EntityTypeView::Line(e) => line_records(e, version),
        EntityTypeView::Circle(e) => circle_records(e, version),
        EntityTypeView::Arc(e) => arc_records(e, version),
        EntityTypeView::Face3D(e) => face3d_records(e, version),
        EntityTypeView::Solid(e) => solid_records(e, version),
        EntityTypeView::Trace(e) => trace_records(e, version),
        EntityTypeView::ModelPoint(e) => model_point_records(e, version),
        EntityTypeView::ProxyEntity(e) => proxy_entity_records(e, version),
        EntityTypeView::Solid3D(e) => solid3d_records(e, version),
        EntityTypeView::Image(e) => image_records(e, version),
        EntityTypeView::Leader(e) => leader_records(e, version),
        EntityTypeView::MText(e) => m_text_records(e, version),
        EntityTypeView::LwPolyline(e) => lw_polyline_records(e, version),
        EntityTypeView::Attribute(e) => attribute_records(e, version),
        EntityTypeView::AttributeDefinition(e) => attribute_definition_records(e, version),
        EntityTypeView::Insert(e) => insert_records(e, version),
        EntityTypeView::Polyline(e) => polyline_records(e, version),
        EntityTypeView::Vertex(e) => vertex_records(e, version),
        EntityTypeView::Seqend(e) => seqend_records(e, version),
        EntityTypeView::RotatedDimension(e) => rotated_dimension_records(e, version),
        EntityTypeView::RadialDimension(e) => radial_dimension_records(e, version),
        EntityTypeView::DiameterDimension(e) => diameter_dimension_records(e, version),
        EntityTypeView::AngularThreePointDimension(e) => angular_three_point_dimension_records(e, version),
        EntityTypeView::OrdinateDimension(e) => ordinate_dimension_records(e, version),
    }
}

fn write_specific(s: &EntityType, version: AcadVersion, out: &mut Vec<CodePair>)
    ensures
        pairs_view(final(out)@) == pairs_view(old(out)@) + specific_records(s@, version),
{
    match s {
        EntityType::Line(e) => write_line(e, version, out),
        EntityType::Circle(e) => write_circle(e, version, out),
        EntityType::Arc(e) => write_arc(e, version, out),
        EntityType::Face3D(e) => write_face3d(e, version, out),
        EntityType::Solid(e) => write_solid(e, version, out),
        EntityType::Trace(e) => write_trace(e, version, out),
        EntityType::ModelPoint(e) => write_model_point(e, version, out),
        EntityType::ProxyEntity(e) => write_proxy_entity(e, version, out),
        EntityType::Solid3D(e) => write_solid3d(e, version, out),
        EntityType::Image(e) => write_image(e, version, out),
        EntityType::Leader(e) => write_leader(e, version, out),
        EntityType::MText(e) => write_m_text(e, version, out),
        EntityType::LwPolyline(e) => write_lw_polyline(e, version, out),
        EntityType::Attribute(e) => write_attribute(e, version, out),
        EntityType::AttributeDefinition(e) => write_attribute_definition(e, version, out),
        EntityType::Insert(e) => write_insert(e, version, out),
        EntityType::Polyline(e) => write_polyline(e, version, out),
        EntityType::Vertex(e) => write_vertex(e, version, out),
        EntityType::Seqend(e) => write_seqend(e, version, out),
        EntityType::RotatedDimension(e) => write_rotated_dimension(e, version, out),
        EntityType::RadialDimension(e) => write_radial_dimension(e, version, out),
        EntityType::DiameterDimension(e) => write_diameter_dimension(e, version, out),
        EntityType::AngularThreePointDimension(e) => write_angular_three_point_dimension(e, version, out),
        EntityType::OrdinateDimension(e) => write_ordinate_dimension(e, version, out),
    }
}

/// The records of an extension group item.
pub open spec fn group_item_record(i: ExtensionGroupItemView) -> CodePairView {
    match i {
        ExtensionGroupItemView::CodePair(p) => p,
    }
}

/// The records of one extension group: `{name`, its items, `}`.
pub open spec fn group_records(g: ExtensionGroupView) -> Seq<CodePairView> {
    seq![rec(102, ValueView::Str(seq!['{'] + g.application_name))]
        + g.items.map_values(|i: ExtensionGroupItemView| group_item_record(i))
        + seq![rec(102, ValueView::Str(seq!['}']))]
}

pub open spec fn groups_records(gs: Seq<ExtensionGroupView>) -> Seq<CodePairView>
    decreases gs.len(),
{
    if gs.len() == 0 {
        Seq::empty()
    } else {
        groups_records(gs.drop_last()) + group_records(gs.last())
    }
}

/// The record of one item of trailing application data.
pub open spec fn xdata_item_record(i: XDataItemView) -> CodePairView {
    match i {
        XDataItemView::Str(s) => rec(1000, ValueView::Str(s)),
        XDataItemView::Real(v) => rec(1040, ValueView::Double(v)),
        XDataItemView::Integer(v) => rec(1070, ValueView::Short(v)),
        XDataItemView::Long(v) => rec(1071, ValueView::Integer(v)),
        XDataItemView::Raw(p) => p,
    }
}

pub open spec fn xdata_records(x: XDataView) -> Seq<CodePairView> {
    seq![rec(1001, ValueView::Str(x.application_name))] + x.items.map_values(|i: XDataItemView| xdata_item_record(i))
}

pub open spec fn xdatas_records(xs: Seq<XDataView>) -> Seq<CodePairView>
    decreases xs.len(),
{
    if xs.len() == 0 {
        Seq::empty()
    } else {
        xdatas_records(xs.drop_last()) + xdata_records(xs.last())
    }
}

/// The records of the fields every entity has.
pub open spec fn common_records(c: EntityCommonView, version: AcadVersion, write_handles: bool) -> Seq<CodePairView> {
    (if write_handles { seq![rec(5, ValueView::Handle(c.handle))] } else { Seq::empty() })
        + (if version.spec_at_least(AcadVersion::R14) { groups_records(c.extension_data_groups) } else { Seq::empty() })
        + (if version.spec_at_least(AcadVersion::R2000) { seq![rec(330, ValueView::Handle(c.owner_handle))] } else { Seq::empty() })
        + seq![rec(100, ValueView::Str("AcDbEntity"@))]
        + (if c.is_in_paper_space { seq![rec(67, ValueView::Short(1))] } else { Seq::empty() })
        + seq![rec(8, ValueView::Str(c.layer))]
        + (if version.spec_at_least(AcadVersion::R2000) {
            c.preview_image_data.map_values(|b: Seq<u8>| rec(310, ValueView::Binary(b)))
        } else {
            Seq::empty()
        })
}

fn write_item(out: &mut Vec<CodePair>, i: &ExtensionGroupItem)
    ensures
        pairs_view(final(out)@) == pairs_view(old(out)@).push(group_item_record(i@)),
{
    match i {
        ExtensionGroupItem::CodePair(p) => emit(out, p.copy()),
    }
}

fn write_group(out: &mut Vec<CodePair>, g: &ExtensionGroup)
    ensures
        pairs_view(final(out)@) == pairs_view(old(out)@) + group_records(g@),
{
    let ghost start = pairs_view(out@);
    let name = "{".to_owned().concat(g.application_name.as_str());
    proof {
        reveal_strlit("{");
    }
    assert(name@ =~= seq!['{'] + g.application_name@);
    emit(out, CodePair { code: 102, value: CodePairValue::Str(name), offset: 0 });
    let ghost items = g@.items.map_values(|i: ExtensionGroupItemView| group_item_record(i));
    let mut i: usize = 0;
    while i < g.items.len()
        invariant
            i <= g.items.len(),
            items == g@.items.map_values(|i: ExtensionGroupItemView| group_item_record(i)),
            pairs_view(out@) == start + seq![rec(102, ValueView::Str(seq!['{'] + g.application_name@))] + items.subrange(0, i as int),
        decreases g.items.len() - i,
    {
        write_item(out, &g.items[i]);
        assert(items.subrange(0, i + 1) =~= items.subrange(0, i as int).push(group_item_record(g.items@[i as int]@)));
        i = i + 1;
    }
    assert(items.subrange(0, i as int) =~= items);
    let close = "}".to_owned();
    proof {
        reveal_strlit("}");
    }
    assert(close@ =~= seq!['}']);
    emit(out, CodePair { code: 102, value: CodePairValue::Str(close), offset: 0 });
    assert(pairs_view(out@) =~= start + group_records(g@));
}

fn write_groups(out: &mut Vec<CodePair>, gs: &Vec<ExtensionGroup>)
    ensures
        pairs_view(final(out)@) == pairs_view(old(out)@) + groups_records(gs@.map_values(|g: ExtensionGroup| g@)),
{
    let ghost start = pairs_view(out@);
    let ghost gv = gs@.map_values(|g: ExtensionGroup| g@);
    let mut i: usize = 0;
    while i < gs.len()
        invariant
            i <= gs.len(),
            gv == gs@.map_values(|g: ExtensionGroup| g@),
            pairs_view(out@) == start + groups_records(gv.subrange(0, i as int)),
        decreases gs.len() - i,
    {
        write_group(out, &gs[i]);
        assert(gv.subrange(0, i + 1).drop_last() =~= gv.subrange(0, i as int));
        assert(pairs_view(out@) =~= start + groups_records(gv.subrange(0, i + 1)));
        i = i + 1;
    }
    assert(gv.subrange(0, i as int) =~= gv);
}

fn xdata_item_pair(i: &XDataItem) -> (r: CodePair)
    ensures
        r@ == xdata_item_record(i@),
{
    match i {
        XDataItem::Str(s) => CodePair::new_string(1000, s),
        XDataItem::Real(v) => CodePair::new_real(1040, *v),
        XDataItem::Integer(v) => CodePair::new_i16(1070, *v),
        XDataItem::Long(v) => CodePair::new_i32(1071, *v),
        XDataItem::Raw(p) => p.copy(),
    }
}

fn write_one_xdata(out: &mut Vec<CodePair>, x: &XData)
    ensures
        pairs_view(final(out)@) == pairs_view(old(out)@) + xdata_records(x@),
{
    let ghost start = pairs_view(out@);
    emit(out, CodePair::new_string(1001, &x.application_name));
    let ghost items = x@.items.map_values(|i: XDataItemView| xdata_item_record(i));
    let mut i: usize = 0;
    while i < x.items.len()
        invariant
            i <= x.items.len(),
            items == x@.items.map_values(|i: XDataItemView| xdata_item_record(i)),
            pairs_view(out@) == start + seq![rec(1001, ValueView::Str(x.application_name@))] + items.subrange(0, i as int),
        decreases x.items.len() - i,
    {
        emit(out, xdata_item_pair(&x.items[i]));
        assert(items.subrange(0, i + 1) =~= items.subrange(0, i as int).push(xdata_item_record(x.items@[i as int]@)));
        i = i + 1;
    }
    assert(items.subrange(0, i as int) =~= items);
}

fn write_xdata(out: &mut Vec<CodePair>, xs: &Vec<XData>)
    ensures
        pairs_view(final(out)@) == pairs_view(old(out)@) + xdatas_records(xs@.map_values(|x: XData| x@)),
{
    let ghost start = pairs_view(out@);
    let ghost xv = xs@.map_values(|x: XData| x@);
    let mut i: usize = 0;
    while i < xs.len()
        invariant
            i <= xs.len(),
            xv == xs@.map_values(|x: XData| x@),
            pairs_view(out@) == start + xdatas_records(xv.subrange(0, i as int)),
        decreases xs.len() - i,
    {
        write_one_xdata(out, &xs[i]);
        assert(xv.subrange(0, i + 1).drop_last() =~= xv.subrange(0, i as int));
        assert(pairs_view(out@) =~= start + xdatas_records(xv.subrange(0, i + 1)));
        i = i + 1;
    }
    assert(xv.subrange(0, i as int) =~= xv);
}

fn write_preview(out: &mut Vec<CodePair>, data: &Vec<Vec<u8>>)
    ensures
        pairs_view(final(out)@) == pairs_view(old(out)@) + data@.map_values(|b: Vec<u8>| b@).map_values(
            |b: Seq<u8>| rec(310, ValueView::Binary(b)),
        ),
{
    let ghost start = pairs_view(out@);
    let ghost recs = data@.map_values(|b: Vec<u8>| b@).map_values(|b: Seq<u8>| rec(310, ValueView::Binary(b)));
    let mut i: usize = 0;
    while i < data.len()
        invariant
            i <= data.len(),
            recs == data@.map_values(|b: Vec<u8>| b@).map_values(|b: Seq<u8>| rec(310, ValueView::Binary(b))),
            pairs_view(out@) == start + recs.subrange(0, i as int),
        decreases data.len() - i,
    {
        emit(out, CodePair::new_binary(310, &data[i]));
        assert(recs.subrange(0, i + 1) =~= recs.subrange(0, i as int).push(rec(310, ValueView::Binary(data@[i as int]@))));
        i = i + 1;
    }
    assert(recs.subrange(0, i as int) =~= recs);
}

impl EntityCommon {
    /// Writes the fields every entity has.
    pub fn write(&self, version: AcadVersion, write_handles: bool, out: &mut Vec<CodePair>)
        ensures
            pairs_view(final(out)@) == pairs_view(old(out)@) + common_records(self@, version, write_handles),
    {
        let ghost start = pairs_view(out@);
        let ghost c = self@;
        if write_handles {
            emit(out, CodePair::new_handle(5, self.handle));
        }
        let ghost s1 = pairs_view(out@);
        if version.at_least(AcadVersion::R14) {
            write_groups(out, &self.extension_data_groups);
        }
        assert(pairs_view(out@) =~= s1 + (if version.spec_at_least(AcadVersion::R14) { groups_records(c.extension_data_groups) } else { Seq::empty() }));
        let ghost s2 = pairs_view(out@);
        if version.at_least(AcadVersion::R2000) {
            emit(out, CodePair::new_handle(330, self.owner_handle));
        }
        emit(out, CodePair::new_str(100, "AcDbEntity"));
        if self.is_in_paper_space {
            emit(out, CodePair::new_i16(67, 1));
        }
        emit(out, CodePair::new_string(8, &self.layer));
        let ghost s3 = pairs_view(out@);
        if version.at_least(AcadVersion::R2000) {
            write_preview(out, &self.preview_image_data);
        }
        assert(pairs_view(out@) =~= s3 + (if version.spec_at_least(AcadVersion::R2000) {
            c.preview_image_data.map_values(|b: Seq<u8>| rec(310, ValueView::Binary(b)))
        } else {
            Seq::empty()
        }));
        assert(c.preview_image_data =~= self.preview_image_data@.map_values(|b: Vec<u8>| b@));
        assert(pairs_view(out@) =~= start + common_records(c, version, write_handles));
    }
}


/// The records of one entity's frame: its tag, common fields and own
/// fields; nothing when its kind cannot be written in the version.
pub open spec fn framed_records(c: EntityCommonView, s: EntityTypeView, version: AcadVersion, write_handles: bool) -> Seq<CodePairView> {
    if s.is_supported_on_version(version) {
        seq![rec(0, ValueView::Str(s.type_string()))] + common_records(c, version, write_handles) + specific_records(s, version)
    } else {
        Seq::empty()
    }
}

/// The common fields of the multi-line text written after an attribute.
pub open spec fn m_text_common(owner: EntityCommonView) -> EntityCommonView {
    EntityCommonView {
        handle: Handle(0),
        owner_handle: owner.handle,
        is_in_paper_space: owner.is_in_paper_space,
        layer: owner.layer,
        ..EntityCommon::default_view()
    }
}

/// The common fields of a child written under its own handle.
pub open spec fn child_common(h: Handle) -> EntityCommonView {
    EntityCommonView { handle: h, ..EntityCommon::default_view() }
}

/// An attribute and the multi-line text that goes with it.
pub open spec fn attribute_with_m_text_records(c: EntityCommonView, a: AttributeView, version: AcadVersion, write_handles: bool) -> Seq<CodePairView> {
    framed_records(c, EntityTypeView::Attribute(a), version, write_handles)
        + framed_records(m_text_common(c), EntityTypeView::MText(a.m_text), version, write_handles)
}

pub open spec fn attributes_records(s: Seq<(AttributeView, Handle)>, version: AcadVersion, write_handles: bool) -> Seq<CodePairView>
    decreases s.len(),
{
    if s.len() == 0 {
        Seq::empty()
    } else {
        attributes_records(s.drop_last(), version, write_handles) + attribute_with_m_text_records(
            child_common(s.last().1),
            s.last().0,
            version,
            write_handles,
        )
    }
}

/// A vertex as its polyline writes it: with the polyline's 3D flags.
pub open spec fn vertex_for(v: Vertex, p: PolylineView) -> Vertex {
    let f1 = if (p.flags & 8) != 0 { v.flags | 32 } else { v.flags & !32i32 };
    Vertex { flags: if (p.flags & 16) != 0 { f1 | 64 } else { f1 & !64i32 }, ..v }
}

pub open spec fn vertices_records(s: Seq<(Vertex, Handle)>, p: PolylineView, version: AcadVersion, write_handles: bool) -> Seq<CodePairView>
    decreases s.len(),
{
    if s.len() == 0 {
        Seq::empty()
    } else {
        vertices_records(s.drop_last(), p, version, write_handles) + framed_records(
            child_common(s.last().1),
            EntityTypeView::Vertex(vertex_for(s.last().0, p)),
            version,
            write_handles,
        )
    }
}

/// The terminator of a nested sequence.
pub open spec fn terminator_records(version: AcadVersion, write_handles: bool) -> Seq<CodePairView> {
    framed_records(EntityCommon::default_view(), EntityTypeView::Seqend(Seqend::default_value()), version, write_handles)
}

/// What an entity writes after its own fields: the multi-line text of an
/// attribute, the attributes of a block reference and the vertices of a
/// polyline, these last two always followed by the terminator.
pub open spec fn children_records(c: EntityCommonView, s: EntityTypeView, version: AcadVersion, write_handles: bool) -> Seq<CodePairView> {
    match s {
        EntityTypeView::Attribute(a) => framed_records(m_text_common(c), EntityTypeView::MText(a.m_text), version, write_handles),
        EntityTypeView::AttributeDefinition(a) => framed_records(m_text_common(c), EntityTypeView::MText(a.m_text), version, write_handles),
        EntityTypeView::Insert(i) => attributes_records(i.attributes_and_handles, version, write_handles) + terminator_records(
            version,
            write_handles,
        ),
        EntityTypeView::Polyline(p) => vertices_records(p.vertices_and_handles, p, version, write_handles) + terminator_records(version, write_handles),
        _ => Seq::empty(),
    }
}

/// Everything an entity writes in the given version: nothing when its kind
/// cannot be written there; else its frame, its children and then its
/// trailing application data (from R2000 on).
pub open spec fn entity_records(e: EntityView, version: AcadVersion, write_handles: bool) -> Seq<CodePairView> {
    if e.specific.is_supported_on_version(version) {
        framed_records(e.common, e.specific, version, write_handles)
            + children_records(e.common, e.specific, version, write_handles)
            + (if version.spec_at_least(AcadVersion::R2000) { xdatas_records(e.common.x_data) } else { Seq::empty() })
    } else {
        Seq::empty()
    }
}

fn write_framed(common: &EntityCommon, specific: &EntityType, version: AcadVersion, write_handles: bool, out: &mut Vec<CodePair>)
    ensures
        pairs_view(final(out)@) == pairs_view(old(out)@) + framed_records(common@, specific@, version, write_handles),
{
    let ghost start = pairs_view(out@);
    if specific.is_supported_on_version(version) {
        emit(out, CodePair::new_str(0, specific.to_type_string()));
        common.write(version, write_handles, out);
        write_specific(specific, version, out);
    }
    assert(pairs_view(out@) =~= start + framed_records(common@, specific@, version, write_handles));
}

fn write_m_text_child(owner: &EntityCommon, m: &MText, version: AcadVersion, write_handles: bool, out: &mut Vec<CodePair>)
    ensures
        pairs_view(final(out)@) == pairs_view(old(out)@) + framed_records(m_text_common(owner@), EntityTypeView::MText(m@), version, write_handles),
{
    let ghost start = pairs_view(out@);
    let common = EntityCommon {
        handle: Handle(0),
        owner_handle: owner.handle,
        is_in_paper_space: owner.is_in_paper_space,
        layer: owner.layer.clone(),
        ..EntityCommon::default()
    };
    assert(common@.preview_image_data =~= Seq::empty());
    assert(common@.extension_data_groups =~= Seq::empty());
    assert(common@.x_data =~= Seq::empty());
    assert(common@ == m_text_common(owner@));
    if version.at_least(AcadVersion::R13) {
        emit(out, CodePair::new_str(0, "MTEXT"));
        common.write(version, write_handles, out);
        write_m_text(m, version, out);
    }
    assert(pairs_view(out@) =~= start + framed_records(m_text_common(owner@), EntityTypeView::MText(m@), version, write_handles));
}

fn default_common_with_handle(h: Handle) -> (r: EntityCommon)
    ensures
        r@ == child_common(h),
{
    let c = EntityCommon { handle: h, ..EntityCommon::default() };
    assert(c@.preview_image_data =~= Seq::empty());
    assert(c@.extension_data_groups =~= Seq::empty());
    assert(c@.x_data =~= Seq::empty());
    c
}

fn write_attribute_child(a: &Attribute, h: Handle, version: AcadVersion, write_handles: bool, out: &mut Vec<CodePair>)
    ensures
        pairs_view(final(out)@) == pairs_view(old(out)@) + attribute_with_m_text_records(child_common(h), a@, version, write_handles),
{
    let ghost start = pairs_view(out@);
    let common = default_common_with_handle(h);
    emit(out, CodePair::new_str(0, "ATTRIB"));
    common.write(version, write_handles, out);
    write_attribute(a, version, out);
    let ghost mid = pairs_view(out@);
    assert(mid =~= start + framed_records(child_common(h), EntityTypeView::Attribute(a@), version, write_handles));
    write_m_text_child(&common, &a.m_text, version, write_handles, out);
    assert(pairs_view(out@) =~= start + attribute_with_m_text_records(child_common(h), a@, version, write_handles));
}

fn write_terminator(version: AcadVersion, write_handles: bool, out: &mut Vec<CodePair>)
    ensures
        pairs_view(final(out)@) == pairs_view(old(out)@) + terminator_records(version, write_handles),
{
    let common = EntityCommon::default();
    let s = EntityType::Seqend(Seqend {});
    write_framed(&common, &s, version, write_handles, out);
}

fn write_insert_children(ins: &Insert, version: AcadVersion, write_handles: bool, out: &mut Vec<CodePair>)
    ensures
        pairs_view(final(out)@) == pairs_view(old(out)@) + attributes_records(ins@.attributes_and_handles, version, write_handles)
            + terminator_records(version, write_handles),
{
    let ghost start = pairs_view(out@);
    let ghost av = ins@.attributes_and_handles;
    let mut i: usize = 0;
    while i < ins.attributes_and_handles.len()
        invariant
            i <= ins.attributes_and_handles@.len(),
            av == ins@.attributes_and_handles,
            pairs_view(out@) == start + attributes_records(av.subrange(0, i as int), version, write_handles),
        decreases ins.attributes_and_handles.len() - i,
    {
        let (a, h) = (&ins.attributes_and_handles[i].0, ins.attributes_and_handles[i].1);
        write_attribute_child(a, h, version, write_handles, out);
        assert(av.subrange(0, i + 1).drop_last() =~= av.subrange(0, i as int));
        assert(pairs_view(out@) =~= start + attributes_records(av.subrange(0, i + 1), version, write_handles));
        i = i + 1;
    }
    assert(av.subrange(0, i as int) =~= av);
    write_terminator(version, write_handles, out);
}

fn write_polyline_children(poly: &Polyline, version: AcadVersion, write_handles: bool, out: &mut Vec<CodePair>)
    ensures
        pairs_view(final(out)@) == pairs_view(old(out)@) + vertices_records(poly@.vertices_and_handles, poly@, version, write_handles)
            + terminator_records(version, write_handles),
{
    let ghost start = pairs_view(out@);
    let ghost vs = poly@.vertices_and_handles;
    let mut i: usize = 0;
    while i < poly.vertices_and_handles.len()
        invariant
            i <= poly.vertices_and_handles@.len(),
            vs == poly@.vertices_and_handles,
            pairs_view(out@) == start + vertices_records(vs.subrange(0, i as int), poly@, version, write_handles),
        decreases poly.vertices_and_handles.len() - i,
    {
        let mut v = poly.vertices_and_handles[i].0;
        let h = poly.vertices_and_handles[i].1;
        v.set_is_3d_polyline_vertex(poly.get_is_3d_polyline());
        v.set_is_3d_polygon_mesh(poly.get_is_3d_polygon_mesh());
        assert(v == vertex_for(vs[i as int].0, poly@));
        let c = default_common_with_handle(h);
        let ve = EntityType::Vertex(v);
        write_framed(&c, &ve, version, write_handles, out);
        assert(vs.subrange(0, i + 1).drop_last() =~= vs.subrange(0, i as int));
        assert(pairs_view(out@) =~= start + vertices_records(vs.subrange(0, i + 1), poly@, version, write_handles));
        i = i + 1;
    }
    assert(vs.subrange(0, i as int) =~= vs);
    write_terminator(version, write_handles, out);
}

#[verifier::rlimit(40)]
fn write_children(common: &EntityCommon, specific: &EntityType, version: AcadVersion, write_handles: bool, out: &mut Vec<CodePair>)
    ensures
        pairs_view(final(out)@) == pairs_view(old(out)@) + children_records(common@, specific@, version, write_handles),
{
    let ghost start = pairs_view(out@);
    match specific {
        EntityType::Attribute(a) => {
            write_m_text_child(common, &a.m_text, version, write_handles, out);
        },
        EntityType::AttributeDefinition(a) => {
            write_m_text_child(common, &a.m_text, version, write_handles, out);
        },
        EntityType::Insert(ins) => {
            write_insert_children(ins, version, write_handles, out);
        },
        EntityType::Polyline(poly) => {
            write_polyline_children(poly, version, write_handles, out);
        },
        _ => {
            assert(pairs_view(out@) =~= start + Seq::empty());
        },
    }
}

impl Entity {
    /// Encodes this entity for the given version: nothing at all when its
    /// kind cannot be written there.
    pub fn write(&self, version: AcadVersion, write_handles: bool, out: &mut Vec<CodePair>)
        ensures
            pairs_view(final(out)@) == pairs_view(old(out)@) + entity_records(self@, version, write_handles),
            !self@.specific.is_supported_on_version(version) ==> final(out)@ == old(out)@,
    {
        let ghost start = pairs_view(out@);
        if self.specific.is_supported_on_version(version) {
            write_framed(&self.common, &self.specific, version, write_handles, out);
            write_children(&self.common, &self.specific, version, write_handles, out);
            let ghost mid = pairs_view(out@);
            if version.at_least(AcadVersion::R2000) {
                write_xdata(out, &self.common.x_data);
            }
            assert(pairs_view(out@) =~= mid + (if version.spec_at_least(AcadVersion::R2000) {
                xdatas_records(self@.common.x_data)
            } else {
                Seq::empty()
            }));
        }
        assert(pairs_view(out@) =~= start + entity_records(self@, version, write_handles));
    }
}

} // verus!
