use vstd::prelude::*;
use crate::code_pair::{DxfError, DxfResult, Handle};
use crate::code_pair_put_back::CodePairPutBack;
use crate::decode::{decode_entity, Item};
use crate::entities::{
    Attribute, AttributeDefinitionView, AttributeView, EntityType, EntityTypeView, InsertView,
    MTextView, PolylineView, Vertex,
};
use crate::entity::{Entity, EntityView};

verus! {

/// What the grouping pass is collecting.
#[derive(Clone, Copy, Debug, PartialEq, Eq, Structural)]
pub enum GroupMode {
    /// Entities stand on their own.
    Top,
    /// Attributes go to the last block reference, until a terminator or
    /// another entity.
    InInsert,
    /// Vertices go to the last polyline, until a terminator or another
    /// entity.
    InPolyline,
}

/// The state of the grouping pass: the entities so far, what is being
/// collected, and whether a multi-line text would attach to the attribute
/// just read.
pub struct GroupState {
    pub out: Seq<EntityView>,
    pub mode: GroupMode,
    pub can_attach: bool,
}

/// The last entity with its multi-line text replaced: an attribute or
/// attribute definition, or the last attribute of a block reference.
pub open spec fn attach_m_text(out: Seq<EntityView>, m: MTextView) -> Seq<EntityView> {
    let n = out.len() - 1;
    let last = out[n];
    match last.specific {
        EntityTypeView::Attribute(a) => out.update(
            n,
            EntityView { specific: EntityTypeView::Attribute(AttributeView { m_text: m, ..a }), ..last },
        ),
        EntityTypeView::AttributeDefinition(a) => out.update(
            n,
            EntityView { specific: EntityTypeView::AttributeDefinition(AttributeDefinitionView { m_text: m, ..a }), ..last },
        ),
        EntityTypeView::Insert(i) => {
            let k = i.attributes_and_handles.len() - 1;
            let c = i.attributes_and_handles[k];
            out.update(
                n,
                EntityView {
                    specific: EntityTypeView::Insert(
                        InsertView {
                            attributes_and_handles: i.attributes_and_handles.update(k, (AttributeView { m_text: m, ..c.0 }, c.1)),
                            ..i
                        },
                    ),
                    ..last
                },
            )
        },
        _ => out,
    }
}

pub open spec fn push_attribute(out: Seq<EntityView>, a: AttributeView, h: Handle) -> Seq<EntityView> {
    let n = out.len() - 1;
    let last = out[n];
    match last.specific {
        EntityTypeView::Insert(i) => out.update(
            n,
            EntityView {
                specific: EntityTypeView::Insert(InsertView { attributes_and_handles: i.attributes_and_handles.push((a, h)), ..i }),
                ..last
            },
        ),
        _ => out,
    }
}

pub open spec fn push_vertex(out: Seq<EntityView>, v: Vertex, h: Handle) -> Seq<EntityView> {
    let n = out.len() - 1;
    let last = out[n];
    match last.specific {
        EntityTypeView::Polyline(p) => out.update(
            n,
            EntityView {
                specific: EntityTypeView::Polyline(PolylineView { vertices_and_handles: p.vertices_and_handles.push((v, h)), ..p }),
                ..last
            },
        ),
        _ => out,
    }
}

/// An entity that stands on its own; a block reference that says it has
/// attributes, and every polyline, start collecting children.
pub open spec fn group_top(st: GroupState, e: EntityView) -> GroupState {
    GroupState {
        out: st.out.push(e),
        mode: match e.specific {
            EntityTypeView::Insert(i) => if i.has_attributes { GroupMode::InInsert } else { GroupMode::Top },
            EntityTypeView::Polyline(_) => GroupMode::InPolyline,
            _ => GroupMode::Top,
        },
        can_attach: e.specific is Attribute || e.specific is AttributeDefinition,
    }
}

/// One decoded entity in the grouping pass. A sequence of children is
/// closed by its terminator (which is dropped), by any other entity, or by
/// the end of the entities, whichever comes first.
pub open spec fn group_step(st: GroupState, e: EntityView) -> GroupState {
    if st.can_attach && e.specific is MText {
        GroupState { out: attach_m_text(st.out, e.specific->MText_0), can_attach: false, ..st }
    } else {
        match st.mode {
            GroupMode::InInsert => match e.specific {
                EntityTypeView::Attribute(a) => GroupState { out: push_attribute(st.out, a, e.common.handle), mode: GroupMode::InInsert, can_attach: true },
                EntityTypeView::Seqend(_) => GroupState { out: st.out, mode: GroupMode::Top, can_attach: false },
                _ => group_top(st, e),
            },
            GroupMode::InPolyline => match e.specific {
                EntityTypeView::Vertex(v) => GroupState { out: push_vertex(st.out, v, e.common.handle), mode: GroupMode::InPolyline, can_attach: false },
                EntityTypeView::Seqend(_) => GroupState { out: st.out, mode: GroupMode::Top, can_attach: false },
                _ => group_top(st, e),
            },
            GroupMode::Top => group_top(st, e),
        }
    }
}

pub open spec fn group_fold(st: GroupState, es: Seq<EntityView>) -> GroupState
    decreases es.len(),
{
    if es.len() == 0 {
        st
    } else {
        group_fold(group_step(st, es[0]), es.drop_first())
    }
}

pub open spec fn group_start() -> GroupState {
    GroupState { out: Seq::empty(), mode: GroupMode::Top, can_attach: false }
}

/// The entities of a section after children were grouped under their
/// parents.
pub open spec fn group(es: Seq<EntityView>) -> Seq<EntityView> {
    group_fold(group_start(), es).out
}

/// What the grouping state guarantees about its last entity.
pub open spec fn group_wf(st: GroupState) -> bool {
    &&& st.mode == GroupMode::InInsert ==> st.out.len() > 0 && st.out.last().specific is Insert
    &&& st.mode == GroupMode::InPolyline ==> st.out.len() > 0 && st.out.last().specific is Polyline
    &&& st.can_attach ==> st.out.len() > 0 && (st.out.last().specific is Attribute
        || st.out.last().specific is AttributeDefinition || (st.out.last().specific is Insert
        && st.out.last().specific->Insert_0.attributes_and_handles.len() > 0))
}

pub proof fn lemma_group_fold_push(st: GroupState, es: Seq<EntityView>, e: EntityView)
    ensures
        group_fold(st, es.push(e)) == group_step(group_fold(st, es), e),
    decreases es.len(),
{
    if es.len() == 0 {
        assert(es.push(e).drop_first() =~= Seq::<EntityView>::empty());
        assert(es.push(e)[0] == e);
        assert(group_fold(group_step(st, e), Seq::<EntityView>::empty()) == group_step(st, e));
    } else {
        assert(es.push(e).drop_first() =~= es.drop_first().push(e));
        assert(es.push(e)[0] == es[0]);
        lemma_group_fold_push(group_step(st, es[0]), es.drop_first(), e);
    }
}

pub open spec fn views(v: Seq<Entity>) -> Seq<EntityView> {
    v.map_values(|e: Entity| e@)
}

fn group_top_exec(out: &mut Vec<Entity>, mode: &mut GroupMode, can_attach: &mut bool, e: Entity)
    ensures
        (GroupState { out: views(final(out)@), mode: *final(mode), can_attach: *final(can_attach) }) == group_top(
            GroupState { out: views(old(out)@), mode: *old(mode), can_attach: *old(can_attach) },
            e@,
        ),
{
    let m = match &e.specific {
        EntityType::Insert(i) => if i.has_attributes { GroupMode::InInsert } else { GroupMode::Top },
        EntityType::Polyline(_) => GroupMode::InPolyline,
        _ => GroupMode::Top,
    };
    let c = match &e.specific {
        EntityType::Attribute(_) => true,
        EntityType::AttributeDefinition(_) => true,
        _ => false,
    };
    let ghost ev = e@;
    out.push(e);
    assert(views(out@) =~= views(old(out)@).push(ev));
    *mode = m;
    *can_attach = c;
}

fn attach_exec(out: &mut Vec<Entity>, m: crate::entities::MText)
    requires
        old(out)@.len() > 0,
        old(out)@.last().specific is Attribute || old(out)@.last().specific is AttributeDefinition || (old(
            out,
        )@.last().specific is Insert && old(out)@.last().specific->Insert_0.attributes_and_handles@.len() > 0),
    ensures
        views(final(out)@) == attach_m_text(views(old(out)@), m@),
        final(out)@.len() == old(out)@.len(),
        final(out)@.last().specific is Attribute <==> old(out)@.last().specific is Attribute,
        final(out)@.last().specific is AttributeDefinition <==> old(out)@.last().specific is AttributeDefinition,
        final(out)@.last().specific is Insert <==> old(out)@.last().specific is Insert,
{
    let ghost st = views(out@);
    let ghost mv = m@;
    let mut last = out.pop().unwrap();
    assert(views(out@) =~= st.drop_last());
    match &mut last.specific {
        EntityType::Attribute(a) => {
            a.m_text = m;
        },
        EntityType::AttributeDefinition(a) => {
            a.m_text = m;
        },
        EntityType::Insert(i) => {
            let ghost iv = i@;
            let (mut a, h) = i.attributes_and_handles.pop().unwrap();
            a.m_text = m;
            i.attributes_and_handles.push((a, h));
            assert(i@.attributes_and_handles =~= iv.attributes_and_handles.update(
                iv.attributes_and_handles.len() - 1,
                (AttributeView { m_text: mv, ..iv.attributes_and_handles.last().0 }, h),
            ));
        },
        _ => {},
    }
    let ghost nl = last@;
    out.push(last);
    assert(views(out@) =~= st.drop_last().push(nl));
    assert(views(out@) =~= attach_m_text(st, mv));
}

fn push_attribute_exec(out: &mut Vec<Entity>, a: Attribute, h: Handle)
    requires
        old(out)@.len() > 0,
        old(out)@.last().specific is Insert,
    ensures
        views(final(out)@) == push_attribute(views(old(out)@), a@, h),
        final(out)@.len() > 0,
        final(out)@.last().specific is Insert,
        final(out)@.last().specific->Insert_0.attributes_and_handles@.len() > 0,
{
    let ghost st = views(out@);
    let ghost av = a@;
    let mut last = out.pop().unwrap();
    assert(views(out@) =~= st.drop_last());
    match &mut last.specific {
        EntityType::Insert(i) => {
            let ghost iv = i@;
            i.attributes_and_handles.push((a, h));
            assert(i@.attributes_and_handles =~= iv.attributes_and_handles.push((av, h)));
        },
        _ => {},
    }
    let ghost nl = last@;
    out.push(last);
    assert(views(out@) =~= st.drop_last().push(nl));
    assert(views(out@) =~= push_attribute(st, av, h));
}

fn push_vertex_exec(out: &mut Vec<Entity>, v: Vertex, h: Handle)
    requires
        old(out)@.len() > 0,
        old(out)@.last().specific is Polyline,
    ensures
        views(final(out)@) == push_vertex(views(old(out)@), v, h),
        final(out)@.len() > 0,
        final(out)@.last().specific is Polyline,
{
    let ghost st = views(out@);
    let mut last = out.pop().unwrap();
    assert(views(out@) =~= st.drop_last());
    match &mut last.specific {
        EntityType::Polyline(p) => {
            let ghost pv = p@;
            p.vertices_and_handles.push((v, h));
            assert(p@.vertices_and_handles =~= pv.vertices_and_handles.push((v, h)));
        },
        _ => {},
    }
    let ghost nl = last@;
    out.push(last);
    assert(views(out@) =~= st.drop_last().push(nl));
    assert(views(out@) =~= push_vertex(st, v, h));
}

/// Applies one decoded entity to the grouping state.
fn group_step_exec(out: &mut Vec<Entity>, mode: &mut GroupMode, can_attach: &mut bool, e: Entity)
    requires
        group_wf(GroupState { out: views(old(out)@), mode: *old(mode), can_attach: *old(can_attach) }),
    ensures
        (GroupState { out: views(final(out)@), mode: *final(mode), can_attach: *final(can_attach) }) == group_step(
            GroupState { out: views(old(out)@), mode: *old(mode), can_attach: *old(can_attach) },
            e@,
        ),
        group_wf(GroupState { out: views(final(out)@), mode: *final(mode), can_attach: *final(can_attach) }),
{
    let ghost st = GroupState { out: views(out@), mode: *mode, can_attach: *can_attach };
    proof {
        if st.out.len() > 0 {
            assert(st.out.last() == out@.last()@);
        }
    }
    let is_m_text = match &e.specific {
        EntityType::MText(_) => true,
        _ => false,
    };
    if *can_attach && is_m_text {
        match e.specific {
            EntityType::MText(m) => {
                attach_exec(out, m);
            },
            _ => {},
        }
        *can_attach = false;
        proof {
            assert(views(out@).last() == out@.last()@);
        }
        return;
    }
    match *mode {
        GroupMode::InInsert => {
            match e.specific {
                EntityType::Attribute(a) => {
                    push_attribute_exec(out, a, e.common.handle);
                    *can_attach = true;
                    proof {
                        assert(views(out@).last() == out@.last()@);
                    }
                },
                EntityType::Seqend(_) => {
                    *mode = GroupMode::Top;
                    *can_attach = false;
                },
                _ => {
                    group_top_exec(out, mode, can_attach, e);
                },
            }
        },
        GroupMode::InPolyline => {
            match e.specific {
                EntityType::Vertex(v) => {
                    push_vertex_exec(out, v, e.common.handle);
                    *can_attach = false;
                    proof {
                        assert(views(out@).last() == out@.last()@);
                    }
                },
                EntityType::Seqend(_) => {
                    *mode = GroupMode::Top;
                    *can_attach = false;
                },
                _ => {
                    group_top_exec(out, mode, can_attach, e);
                },
            }
        },
        GroupMode::Top => {
            group_top_exec(out, mode, can_attach, e);
        },
    }
}

/// `es` are the entities decoded one after another from `s`, and `rest` is
/// what is left after them.
pub open spec fn decodes_prefix(s: Seq<Item>, es: Seq<EntityView>, rest: Seq<Item>) -> bool
    decreases es.len(),
{
    if es.len() == 0 {
        rest == s
    } else {
        decode_entity(s).0 == Ok::<Option<EntityView>, DxfError>(Some(es[0])) && decodes_prefix(
            decode_entity(s).1,
            es.drop_first(),
            rest,
        )
    }
}

pub proof fn lemma_decodes_prefix_push(s: Seq<Item>, es: Seq<EntityView>, rest: Seq<Item>, e: EntityView)
    requires
        decodes_prefix(s, es, rest),
        decode_entity(rest).0 == Ok::<Option<EntityView>, DxfError>(Some(e)),
    ensures
        decodes_prefix(s, es.push(e), decode_entity(rest).1),
    decreases es.len(),
{
    if es.len() == 0 {
        assert(es.push(e).drop_first() =~= Seq::<EntityView>::empty());
        assert(es.push(e)[0] == e);
        assert(rest == s);
        assert(decodes_prefix(decode_entity(s).1, Seq::<EntityView>::empty(), decode_entity(rest).1));
    } else {
        assert(es.push(e).drop_first() =~= es.drop_first().push(e));
        assert(es.push(e)[0] == es[0]);
        lemma_decodes_prefix_push(decode_entity(s).1, es.drop_first(), rest, e);
    }
}

/// Decodes the entities of a section up to its end, grouping the children
/// of block references and polylines under them. On success the result is
/// the grouping of the entities decoded one by one until the end of the
/// section; on failure, decoding one of them failed with that error.
pub fn read_entities(iter: &mut CodePairPutBack) -> (r: DxfResult<Vec<Entity>>)
    ensures
        r matches Ok(v) ==> exists|es: Seq<EntityView>, rest: Seq<Item>|
            #![trigger decodes_prefix(old(iter).pending(), es, rest)]
            decodes_prefix(old(iter).pending(), es, rest) && decode_entity(rest).0 == Ok::<Option<EntityView>, DxfError>(None)
                && final(iter).pending() == decode_entity(rest).1 && views(v@) == group(es),
        r matches Err(x) ==> exists|es: Seq<EntityView>, rest: Seq<Item>|
            #![trigger decodes_prefix(old(iter).pending(), es, rest)]
            decodes_prefix(old(iter).pending(), es, rest) && decode_entity(rest).0 == Err::<Option<EntityView>, DxfError>(x),
{
    let mut out: Vec<Entity> = Vec::new();
    let mut mode = GroupMode::Top;
    let mut can_attach = false;
    let ghost mut es: Seq<EntityView> = Seq::empty();
    assert(views(out@) =~= Seq::<EntityView>::empty());
    loop
        invariant
            decodes_prefix(old(iter).pending(), es, iter.pending()),
            (GroupState { out: views(out@), mode, can_attach }) == group_fold(group_start(), es),
            group_wf(GroupState { out: views(out@), mode, can_attach }),
        decreases iter.pending().len(),
    {
        let ghost before = iter.pending();
        match Entity::read(iter) {
            Ok(Some(e)) => {
                proof {
                    lemma_decodes_prefix_push(old(iter).pending(), es, before, e@);
                    lemma_group_fold_push(group_start(), es, e@);
                    es = es.push(e@);
                }
                group_step_exec(&mut out, &mut mode, &mut can_attach, e);
            },
            Ok(None) => {
                return Ok(out);
            },
            Err(x) => {
                return Err(x);
            },
        }
    }
}

} // verus!
