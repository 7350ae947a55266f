use vstd::prelude::*;
use crate::code_pair::{string_value, text_is, CodePair, CodePairView, DxfError, DxfResult, TAG_CODE};
use crate::code_pair_put_back::CodePairPutBack;
use crate::common::{common_first, common_step, CommonMode, EntityCommon, EntityCommonView};
use crate::consolidate::{combine_points_2, combine_points_3, post_parse};
use crate::dimension::{apply_marker, dimension_record, is_dimension, switch_dimension_shape};
use crate::entities::{
    Attribute, AttributeDefinition, AttributeDefinitionView, AttributeView, EntityType, EntityTypeView, LwPolyline, LwPolylineView,
    MText, MTextView, RotatedDimension, resolve_type_name,
};
use crate::entity::{Entity, EntityView};
use crate::fields::variant_field;
use crate::readers::{
    apply_lw_polyline_pair, apply_m_text_pair, attribute_record, lw_polyline_record,
    m_text_record, AttributeReadState, AttributeReader,
};

verus! {

pub type Item = DxfResult<CodePair>;

/// Reads the records of one entity's body with `step`, up to the next tag,
/// which stays unread. The result is the final state and the items left;
/// the input may not end before that tag.
pub open spec fn fold_body<S>(st: S, s: Seq<Item>, step: spec_fn(S, CodePairView) -> DxfResult<S>) -> (
    DxfResult<S>,
    Seq<Item>,
)
    decreases s.len(),
{
    if s.len() == 0 {
        (Err(DxfError::UnexpectedEndOfInput), s)
    } else {
        match s[0] {
            Err(e) => (Err(e), s.drop_first()),
            Ok(p) => if p.code == TAG_CODE {
                (Ok(st), s)
            } else {
                match step(st, p@) {
                    Ok(n) => fold_body(n, s.drop_first(), step),
                    Err(e) => (Err(e), s.drop_first()),
                }
            },
        }
    }
}

/// The common fields take a record as `common_step` says, the rest of the
/// state unchanged.
pub open spec fn lift_common<T>(st: (EntityCommonView, CommonMode, T), p: CodePairView) -> DxfResult<
    (EntityCommonView, CommonMode, T),
> {
    match common_step(st.0, st.1, p) {
        Ok((c, m)) => Ok((c, m, st.2)),
        Err(e) => Err(e),
    }
}

/// One record of an entity's body: inside an extension group or XData it
/// goes to the common fields; otherwise the kind's own fields are offered
/// it first (`own` is what they make of it) and the common fields take it
/// when they do not know its code.
pub open spec fn dispatch<T>(st: (EntityCommonView, CommonMode, T), p: CodePairView, own: Option<DxfResult<T>>) -> DxfResult<
    (EntityCommonView, CommonMode, T),
> {
    if common_first(st.1, p.code) {
        lift_common(st, p)
    } else {
        match own {
            Some(Ok(t)) => Ok((st.0, CommonMode::Normal, t)),
            Some(Err(e)) => Err(e),
            None => lift_common(st, p),
        }
    }
}

pub open spec fn generic_step(st: (EntityCommonView, CommonMode, EntityTypeView), p: CodePairView) -> DxfResult<
    (EntityCommonView, CommonMode, EntityTypeView),
> {
    dispatch(st, p, variant_field(st.2, p))
}

/// A dimension: a subclass marker may switch the active shape; other
/// records go to the shape, then the shared dimension fields, then the
/// common fields.
pub open spec fn dimension_step(st: (EntityCommonView, CommonMode, EntityTypeView), p: CodePairView) -> DxfResult<
    (EntityCommonView, CommonMode, EntityTypeView),
> {
    if common_first(st.1, p.code) {
        lift_common(st, p)
    } else if p.code == 100 {
        match string_value(p) {
            Ok(s) => Ok((st.0, CommonMode::Normal, apply_marker(st.2, s))),
            Err(e) => Err(e),
        }
    } else {
        dispatch(st, p, dimension_record(st.2, p))
    }
}

pub open spec fn m_text_step(st: (EntityCommonView, CommonMode, (MTextView, bool, bool)), p: CodePairView) -> DxfResult<
    (EntityCommonView, CommonMode, (MTextView, bool, bool)),
> {
    dispatch(st, p, m_text_record(st.2, p))
}

pub open spec fn lw_polyline_step(st: (EntityCommonView, CommonMode, LwPolylineView), p: CodePairView) -> DxfResult<
    (EntityCommonView, CommonMode, LwPolylineView),
> {
    dispatch(st, p, lw_polyline_record(st.2, p))
}

pub open spec fn attribute_step(st: (EntityCommonView, CommonMode, AttributeReadState), p: CodePairView, has_prompt: bool) -> DxfResult<
    (EntityCommonView, CommonMode, AttributeReadState),
> {
    dispatch(st, p, attribute_record(st.2, p, has_prompt))
}

pub open spec fn generic_steps() -> spec_fn((EntityCommonView, CommonMode, EntityTypeView), CodePairView) -> DxfResult<(EntityCommonView, CommonMode, EntityTypeView)> {
    |st: (EntityCommonView, CommonMode, EntityTypeView), p: CodePairView| generic_step(st, p)
}

pub open spec fn dimension_steps() -> spec_fn((EntityCommonView, CommonMode, EntityTypeView), CodePairView) -> DxfResult<(EntityCommonView, CommonMode, EntityTypeView)> {
    |st: (EntityCommonView, CommonMode, EntityTypeView), p: CodePairView| dimension_step(st, p)
}

pub open spec fn m_text_steps() -> spec_fn((EntityCommonView, CommonMode, (MTextView, bool, bool)), CodePairView) -> DxfResult<(EntityCommonView, CommonMode, (MTextView, bool, bool))> {
    |st: (EntityCommonView, CommonMode, (MTextView, bool, bool)), p: CodePairView| m_text_step(st, p)
}

pub open spec fn lw_polyline_steps() -> spec_fn((EntityCommonView, CommonMode, LwPolylineView), CodePairView) -> DxfResult<(EntityCommonView, CommonMode, LwPolylineView)> {
    |st: (EntityCommonView, CommonMode, LwPolylineView), p: CodePairView| lw_polyline_step(st, p)
}

pub open spec fn attribute_steps(has_prompt: bool) -> spec_fn((EntityCommonView, CommonMode, AttributeReadState), CodePairView) -> DxfResult<(EntityCommonView, CommonMode, AttributeReadState)> {
    |st: (EntityCommonView, CommonMode, AttributeReadState), p: CodePairView| attribute_step(st, p, has_prompt)
}

pub open spec fn start_state<T>(t: T) -> (EntityCommonView, CommonMode, T) {
    (EntityCommon::default_view(), CommonMode::Normal, t)
}

pub open spec fn attribute_start(fields: crate::entities::AttributeFieldsView, tag: Seq<char>, prompt: Seq<char>) -> AttributeReadState {
    AttributeReadState { fields, tag, prompt, marker: Seq::empty(), xrecord_70_count: 0, is_version_set: false }
}

/// Maps the final state of a body read to the entity it made.
pub open spec fn finish<S>(r: (DxfResult<S>, Seq<Item>), f: spec_fn(S) -> EntityView) -> (DxfResult<Option<EntityView>>, Seq<Item>) {
    match r.0 {
        Ok(st) => (Ok(Some(f(st))), r.1),
        Err(e) => (Err(e), r.1),
    }
}

/// Reads the body of an entity whose kind resolved to `v` (a new entity of
/// that kind).
pub open spec fn read_body(v: EntityTypeView, s: Seq<Item>) -> (DxfResult<Option<EntityView>>, Seq<Item>) {
    match v {
        EntityTypeView::MText(m) => finish(
            fold_body(start_state((m, false, false)), s, m_text_steps()),
            |st: (EntityCommonView, CommonMode, (MTextView, bool, bool))| EntityView { common: st.0, specific: EntityTypeView::MText(st.2.0) },
        ),
        EntityTypeView::LwPolyline(l) => finish(
            fold_body(start_state(l), s, lw_polyline_steps()),
            |st: (EntityCommonView, CommonMode, LwPolylineView)| EntityView { common: st.0, specific: EntityTypeView::LwPolyline(st.2) },
        ),
        EntityTypeView::Attribute(a) => finish(
            fold_body(start_state(attribute_start(a.fields, a.attribute_tag, Seq::empty())), s, attribute_steps(false)),
            |st: (EntityCommonView, CommonMode, AttributeReadState)| EntityView {
                common: st.0,
                specific: EntityTypeView::Attribute(AttributeView { attribute_tag: st.2.tag, fields: st.2.fields, ..a }),
            },
        ),
        EntityTypeView::AttributeDefinition(a) => finish(
            fold_body(start_state(attribute_start(a.fields, a.text_tag, a.prompt)), s, attribute_steps(true)),
            |st: (EntityCommonView, CommonMode, AttributeReadState)| EntityView {
                common: st.0,
                specific: EntityTypeView::AttributeDefinition(AttributeDefinitionView { text_tag: st.2.tag, prompt: st.2.prompt, fields: st.2.fields, ..a }),
            },
        ),
        _ => finish(
            fold_body(start_state(v), s, generic_steps()),
            |st: (EntityCommonView, CommonMode, EntityTypeView)| EntityView { common: st.0, specific: post_parse(st.2) },
        ),
    }
}

/// The type names that end a section.
pub open spec fn is_section_end(name: Seq<char>) -> bool {
    name == "ENDSEC"@ || name == "ENDBLK"@
}

/// Decodes one entity from the items `s`: the entity (or `None` at the end
/// of a section, whose tag stays unread) and the items left. Entities whose
/// type name no kind has are skipped up to the next tag (`swallowing`).
pub open spec fn decode_from(s: Seq<Item>, swallowing: bool) -> (DxfResult<Option<EntityView>>, Seq<Item>)
    decreases s.len(), (if swallowing { 1int } else { 0int }),
{
    if s.len() == 0 {
        (Err(DxfError::UnexpectedEndOfInput), s)
    } else {
        match s[0] {
            Err(e) => (Err(e), s.drop_first()),
            Ok(p) => if swallowing {
                if p.code == TAG_CODE {
                    decode_from(s, false)
                } else {
                    decode_from(s.drop_first(), true)
                }
            } else if p.code != TAG_CODE {
                (Err(DxfError::ExpectedEntityTag(p.offset)), s.drop_first())
            } else {
                match string_value(p@) {
                    Err(e) => (Err(e), s.drop_first()),
                    Ok(name) => if is_section_end(name) {
                        (Ok(None), s)
                    } else if name == "DIMENSION"@ {
                        finish(
                            fold_body(
                                start_state(EntityTypeView::RotatedDimension(RotatedDimension::default_view())),
                                s.drop_first(),
                                dimension_steps(),
                            ),
                            |st: (EntityCommonView, CommonMode, EntityTypeView)| EntityView { common: st.0, specific: st.2 },
                        )
                    } else {
                        match resolve_type_name(name) {
                            None => decode_from(s.drop_first(), true),
                            Some(v) => read_body(v, s.drop_first()),
                        }
                    },
                }
            },
        }
    }
}

/// Decodes one entity from a record stream.
pub open spec fn decode_entity(s: Seq<Item>) -> (DxfResult<Option<EntityView>>, Seq<Item>) {
    decode_from(s, false)
}

/// What the exec side of a body read promises: the state it ends in and
/// the items it leaves, or the error.
pub open spec fn read_outcome<T>(
    r: DxfResult<()>,
    expected: (DxfResult<(EntityCommonView, CommonMode, T)>, Seq<Item>),
    common: EntityCommonView,
    t: T,
    rest: Seq<Item>,
) -> bool {
    match expected.0 {
        Ok(st) => r is Ok && st.0 == common && st.2 == t && rest == expected.1,
        Err(e) => r == Err::<(), DxfError>(e),
    }
}

/// Applies a record to the common fields, keeping the reader's mode.
fn apply_common(common: &mut EntityCommon, mode: &mut CommonMode, p: &CodePair) -> (r: DxfResult<()>)
    ensures
        match common_step(old(common)@, *old(mode), p@) {
            Ok((c, m)) => r is Ok && final(common)@ == c && *final(mode) == m,
            Err(e) => r == Err::<(), DxfError>(e),
        },
{
    let m = common.apply_individual_pair(*mode, p)?;
    *mode = m;
    Ok(())
}

fn is_common_first(mode: CommonMode, code: u16) -> (r: bool)
    ensures
        r == common_first(mode, code),
{
    mode == CommonMode::InGroup || (mode == CommonMode::InXData && code >= 1000 && code != 1001)
}

/// Reads the body of an entity with the generic field loop.
fn read_generic_body(common: &mut EntityCommon, specific: &mut EntityType, iter: &mut CodePairPutBack) -> (r: DxfResult<()>)
    ensures
        final(iter).pending().len() <= old(iter).pending().len(),
        read_outcome(
            r,
            fold_body((old(common)@, CommonMode::Normal, old(specific)@), old(iter).pending(), generic_steps()),
            final(common)@,
            final(specific)@,
            final(iter).pending(),
        ),
{
    let ghost target = fold_body((common@, CommonMode::Normal, specific@), iter.pending(), generic_steps());
    let mut mode = CommonMode::Normal;
    loop
        invariant
            iter.pending().len() <= old(iter).pending().len(),
            target == fold_body((old(common)@, CommonMode::Normal, old(specific)@), old(iter).pending(), generic_steps()),
            fold_body((common@, mode, specific@), iter.pending(), generic_steps()) == target,
        decreases iter.pending().len(),
    {
        let ghost pend = iter.pending();
        let ghost st = (common@, mode, specific@);
        match iter.next() {
            None => {
                assert(fold_body(st, pend, generic_steps()) == (Err::<(EntityCommonView, CommonMode, EntityTypeView), DxfError>(DxfError::UnexpectedEndOfInput), pend));
                return Err(DxfError::UnexpectedEndOfInput);
            },
            Some(Err(e)) => {
                assert(fold_body(st, pend, generic_steps()).0 == Err::<(EntityCommonView, CommonMode, EntityTypeView), DxfError>(e));
                return Err(e);
            },
            Some(Ok(pair)) => {
                if pair.code == TAG_CODE {
                    iter.put_back(Ok(pair));
                    assert(iter.pending() =~= pend);
                    return Ok(());
                }
                assert(fold_body(st, pend, generic_steps()) == match generic_step(st, pair@) {
                    Ok(n) => fold_body(n, pend.drop_first(), generic_steps()),
                    Err(e) => (Err(e), pend.drop_first()),
                });
                if is_common_first(mode, pair.code) {
                    apply_common(common, &mut mode, &pair)?;
                } else if specific.try_apply_code_pair(&pair)? {
                    mode = CommonMode::Normal;
                } else {
                    apply_common(common, &mut mode, &pair)?;
                }
            },
        }
    }
}


fn read_dimension_body(iter: &mut CodePairPutBack) -> (r: DxfResult<(EntityCommon, EntityType)>)
    ensures
        final(iter).pending().len() <= old(iter).pending().len(),
        match fold_body(start_state(EntityTypeView::RotatedDimension(RotatedDimension::default_view())), old(iter).pending(), dimension_steps()).0 {
            Ok(st) => r matches Ok(x) && x.0@ == st.0 && x.1@ == st.2 && final(iter).pending() == fold_body(
                start_state(EntityTypeView::RotatedDimension(RotatedDimension::default_view())),
                old(iter).pending(),
                dimension_steps(),
            ).1,
            Err(e) => r matches Err(x) && x == e,
        },
{
    let mut common = EntityCommon::default();
    let mut state = EntityType::RotatedDimension(RotatedDimension::default());
    let mut mode = CommonMode::Normal;
    let ghost target = fold_body(start_state(EntityTypeView::RotatedDimension(RotatedDimension::default_view())), iter.pending(), dimension_steps());
    loop
        invariant
            iter.pending().len() <= old(iter).pending().len(),
            target == fold_body(start_state(EntityTypeView::RotatedDimension(RotatedDimension::default_view())), old(iter).pending(), dimension_steps()),
            fold_body((common@, mode, state@), iter.pending(), dimension_steps()) == target,
            is_dimension(state@),
        decreases iter.pending().len(),
    {
        let ghost pend = iter.pending();
        let ghost st = (common@, mode, state@);
        match iter.next() {
            None => {
                assert(fold_body(st, pend, dimension_steps()).0 == Err::<(EntityCommonView, CommonMode, EntityTypeView), DxfError>(DxfError::UnexpectedEndOfInput));
                return Err(DxfError::UnexpectedEndOfInput);
            },
            Some(Err(e)) => {
                assert(fold_body(st, pend, dimension_steps()).0 == Err::<(EntityCommonView, CommonMode, EntityTypeView), DxfError>(e));
                return Err(e);
            },
            Some(Ok(pair)) => {
                if pair.code == TAG_CODE {
                    iter.put_back(Ok(pair));
                    assert(iter.pending() =~= pend);
                    return Ok((common, state));
                }
                assert(fold_body(st, pend, dimension_steps()) == match dimension_step(st, pair@) {
                    Ok(n) => fold_body(n, pend.drop_first(), dimension_steps()),
                    Err(e) => (Err(e), pend.drop_first()),
                });
                if is_common_first(mode, pair.code) {
                    apply_common(&mut common, &mut mode, &pair)?;
                } else if pair.code == 100 {
                    let name = pair.assert_string()?;
                    state = switch_dimension_shape(state, &name);
                    mode = CommonMode::Normal;
                } else if state.apply_dimension_code_pair(&pair)? {
                    mode = CommonMode::Normal;
                } else {
                    apply_common(&mut common, &mut mode, &pair)?;
                }
            },
        }
    }
}

fn read_lw_polyline_body(iter: &mut CodePairPutBack) -> (r: DxfResult<(EntityCommon, LwPolyline)>)
    ensures
        final(iter).pending().len() <= old(iter).pending().len(),
        match fold_body(start_state(LwPolyline::default_view()), old(iter).pending(), lw_polyline_steps()).0 {
            Ok(st) => r matches Ok(x) && x.0@ == st.0 && x.1@ == st.2 && final(iter).pending() == fold_body(
                start_state(LwPolyline::default_view()),
                old(iter).pending(),
                lw_polyline_steps(),
            ).1,
            Err(e) => r matches Err(x) && x == e,
        },
{
    let mut common = EntityCommon::default();
    let mut state = LwPolyline::default();
    let mut mode = CommonMode::Normal;
    let ghost target = fold_body(start_state(LwPolyline::default_view()), iter.pending(), lw_polyline_steps());
    loop
        invariant
            iter.pending().len() <= old(iter).pending().len(),
            target == fold_body(start_state(LwPolyline::default_view()), old(iter).pending(), lw_polyline_steps()),
            fold_body((common@, mode, state@), iter.pending(), lw_polyline_steps()) == target,
        decreases iter.pending().len(),
    {
        let ghost pend = iter.pending();
        let ghost st = (common@, mode, state@);
        match iter.next() {
            None => {
                assert(fold_body(st, pend, lw_polyline_steps()).0 == Err::<(EntityCommonView, CommonMode, LwPolylineView), DxfError>(DxfError::UnexpectedEndOfInput));
                return Err(DxfError::UnexpectedEndOfInput);
            },
            Some(Err(e)) => {
                assert(fold_body(st, pend, lw_polyline_steps()).0 == Err::<(EntityCommonView, CommonMode, LwPolylineView), DxfError>(e));
                return Err(e);
            },
            Some(Ok(pair)) => {
                if pair.code == TAG_CODE {
                    iter.put_back(Ok(pair));
                    assert(iter.pending() =~= pend);
                    return Ok((common, state));
                }
                assert(fold_body(st, pend, lw_polyline_steps()) == match lw_polyline_step(st, pair@) {
                    Ok(n) => fold_body(n, pend.drop_first(), lw_polyline_steps()),
                    Err(e) => (Err(e), pend.drop_first()),
                });
                if is_common_first(mode, pair.code) {
                    apply_common(&mut common, &mut mode, &pair)?;
                } else if apply_lw_polyline_pair(&mut state, &pair)? {
                    mode = CommonMode::Normal;
                } else {
                    apply_common(&mut common, &mut mode, &pair)?;
                }
            },
        }
    }
}


fn read_m_text_body(iter: &mut CodePairPutBack ) -> (r: DxfResult<(EntityCommon, MText)>)
    ensures
        final(iter).pending().len() <= old(iter).pending().len(),
        match fold_body(start_state((MText::default_view(), false, false)), old(iter).pending(), m_text_steps()).0 {
            Ok(st) => r matches Ok(x) && x.0@ == st.0 && x.1@ == st.2.0 && final(iter).pending() == fold_body(
                start_state((MText::default_view(), false, false)),
                old(iter).pending(),
                m_text_steps(),
            ).1,
            Err(e) => r matches Err(x) && x == e,
        },
{
    let mut common = EntityCommon::default();
    let mut state = MText::default();
    let mut in_columns = false;
    let mut has_count = false;
    let mut mode = CommonMode::Normal;
    let ghost target = fold_body(start_state((MText::default_view(), false, false)), iter.pending(), m_text_steps());
    loop
        invariant
            iter.pending().len() <= old(iter).pending().len(),
            target == fold_body(start_state((MText::default_view(), false, false)), old(iter).pending(), m_text_steps()),
            fold_body((common@, mode, (state@, in_columns, has_count)), iter.pending(), m_text_steps()) == target,
        decreases iter.pending().len(),
    {
        let ghost pend = iter.pending();
        let ghost st = (common@, mode, (state@, in_columns, has_count));
        match iter.next() {
            None => {
                assert(fold_body(st, pend, m_text_steps()).0 == Err::<(EntityCommonView, CommonMode, (MTextView, bool, bool)), DxfError>(DxfError::UnexpectedEndOfInput));
                return Err(DxfError::UnexpectedEndOfInput);
            },
            Some(Err(e)) => {
                assert(fold_body(st, pend, m_text_steps()).0 == Err::<(EntityCommonView, CommonMode, (MTextView, bool, bool)), DxfError>(e));
                return Err(e);
            },
            Some(Ok(pair)) => {
                if pair.code == TAG_CODE {
                    iter.put_back(Ok(pair));
                    assert(iter.pending() =~= pend);
                    return Ok((common, state));
                }
                assert(fold_body(st, pend, m_text_steps()) == match m_text_step(st, pair@) {
                    Ok(n) => fold_body(n, pend.drop_first(), m_text_steps()),
                    Err(e) => (Err(e), pend.drop_first()),
                });
                if is_common_first(mode, pair.code) {
                    apply_common(&mut common, &mut mode, &pair)?;
                } else if apply_m_text_pair(&mut state, &mut in_columns, &mut has_count, &pair)? {
                    mode = CommonMode::Normal;
                } else {
                    apply_common(&mut common, &mut mode, &pair)?;
                }
            },
        }
    }
}

fn read_attribute_body(iter: &mut CodePairPutBack , init: AttributeReader, has_prompt: bool) -> (r: DxfResult<(EntityCommon, AttributeReader)>)
    requires
        init.xrecord_70_count == 0,
    ensures
        final(iter).pending().len() <= old(iter).pending().len(),
        match fold_body(start_state(init@), old(iter).pending(), attribute_steps(has_prompt)).0 {
            Ok(st) => r matches Ok(x) && x.0@ == st.0 && x.1@ == st.2 && final(iter).pending() == fold_body(
                start_state(init@),
                old(iter).pending(),
                attribute_steps(has_prompt),
            ).1,
            Err(e) => r matches Err(x) && x == e,
        },
{
    let mut common = EntityCommon::default();
    let mut state = init;
    let mut mode = CommonMode::Normal;
    let ghost target = fold_body(start_state(init@), iter.pending(), attribute_steps(has_prompt));
    loop
        invariant
            iter.pending().len() <= old(iter).pending().len(),
            target == fold_body(start_state(init@), old(iter).pending(), attribute_steps(has_prompt)),
            fold_body((common@, mode, state@), iter.pending(), attribute_steps(has_prompt)) == target,
            state.xrecord_70_count <= 3,
        decreases iter.pending().len(),
    {
        let ghost pend = iter.pending();
        let ghost st = (common@, mode, state@);
        match iter.next() {
            None => {
                assert(fold_body(st, pend, attribute_steps(has_prompt)).0 == Err::<(EntityCommonView, CommonMode, AttributeReadState), DxfError>(DxfError::UnexpectedEndOfInput));
                return Err(DxfError::UnexpectedEndOfInput);
            },
            Some(Err(e)) => {
                assert(fold_body(st, pend, attribute_steps(has_prompt)).0 == Err::<(EntityCommonView, CommonMode, AttributeReadState), DxfError>(e));
                return Err(e);
            },
            Some(Ok(pair)) => {
                if pair.code == TAG_CODE {
                    iter.put_back(Ok(pair));
                    assert(iter.pending() =~= pend);
                    return Ok((common, state));
                }
                assert(fold_body(st, pend, attribute_steps(has_prompt)) == match attribute_step(st, pair@, has_prompt) {
                    Ok(n) => fold_body(n, pend.drop_first(), attribute_steps(has_prompt)),
                    Err(e) => (Err(e), pend.drop_first()),
                });
                if is_common_first(mode, pair.code) {
                    apply_common(&mut common, &mut mode, &pair)?;
                } else if state.apply(&pair, has_prompt)? {
                    mode = CommonMode::Normal;
                } else {
                    apply_common(&mut common, &mut mode, &pair)?;
                }
            },
        }
    }
}


/// Runs the coordinate consolidation on an entity after its last record.
pub fn apply_post_parse(specific: &mut EntityType)
    ensures
        final(specific)@ == post_parse(old(specific)@),
{
    match specific {
        EntityType::Image(image) => {
            let ghost before = image@;
            combine_points_2(&mut image.clipping_vertices_x, &mut image.clipping_vertices_y, &mut image.clipping_vertices);
            assert(image@.clipping_vertices_x =~= Seq::empty());
            assert(image@.clipping_vertices_y =~= Seq::empty());
        },
        EntityType::Leader(leader) => {
            combine_points_3(&mut leader.vertices_x, &mut leader.vertices_y, &mut leader.vertices_z, &mut leader.vertices);
            assert(leader@.vertices_x =~= Seq::empty());
            assert(leader@.vertices_y =~= Seq::empty());
            assert(leader@.vertices_z =~= Seq::empty());
        },
        _ => {},
    }
}

/// Reads the body of an entity of a resolved kind.
fn read_entity_body(specific: EntityType, iter: &mut CodePairPutBack) -> (r: DxfResult<Entity>)
    requires
        specific@ is MText ==> specific@ == EntityTypeView::MText(MText::default_view()),
        specific@ is LwPolyline ==> specific@ == EntityTypeView::LwPolyline(LwPolyline::default_view()),
    ensures
        final(iter).pending().len() <= old(iter).pending().len(),
        match read_body(specific@, old(iter).pending()).0 {
            Ok(Some(v)) => r matches Ok(e) && e@ == v && final(iter).pending() == read_body(specific@, old(iter).pending()).1,
            Ok(None) => false,
            Err(e) => r matches Err(x) && x == e,
        },
{
    match specific {
        EntityType::MText(_) => {
            let (common, m) = read_m_text_body(iter)?;
            Ok(Entity { common, specific: EntityType::MText(m) })
        },
        EntityType::LwPolyline(_) => {
            let (common, l) = read_lw_polyline_body(iter)?;
            Ok(Entity { common, specific: EntityType::LwPolyline(l) })
        },
        EntityType::Attribute(a) => {
            let ghost av = a@;
            let reader = AttributeReader::new(a.fields, a.attribute_tag, String::new());
            assert(reader@ == attribute_start(av.fields, av.attribute_tag, Seq::empty()));
            let (common, rd) = read_attribute_body(iter, reader, false)?;
            let att = Attribute { attribute_tag: rd.tag, fields: rd.fields, m_text: a.m_text };
            Ok(Entity { common, specific: EntityType::Attribute(att) })
        },
        EntityType::AttributeDefinition(a) => {
            let ghost av = a@;
            let reader = AttributeReader::new(a.fields, a.text_tag, a.prompt);
            assert(reader@ == attribute_start(av.fields, av.text_tag, av.prompt));
            let (common, rd) = read_attribute_body(iter, reader, true)?;
            let att = AttributeDefinition { text_tag: rd.tag, prompt: rd.prompt, fields: rd.fields, m_text: a.m_text };
            Ok(Entity { common, specific: EntityType::AttributeDefinition(att) })
        },
        _ => {
            let mut common = EntityCommon::default();
            let mut sp = specific;
            read_generic_body(&mut common, &mut sp, iter)?;
            apply_post_parse(&mut sp);
            Ok(Entity { common, specific: sp })
        },
    }
}

impl Entity {
    /// Decodes the next entity from the stream: `Ok(None)` at the end of a
    /// section (whose tag stays unread), entities of unknown kinds skipped.
    pub fn read(iter: &mut CodePairPutBack) -> (r: DxfResult<Option<Entity>>)
        ensures
            r matches Ok(Some(_)) ==> final(iter).pending().len() < old(iter).pending().len(),
            match decode_entity(old(iter).pending()).0 {
                Ok(None) => r matches Ok(None) && final(iter).pending() == decode_entity(old(iter).pending()).1,
                Ok(Some(v)) => r matches Ok(Some(e)) && e@ == v && final(iter).pending() == decode_entity(old(iter).pending()).1,
                Err(e) => r matches Err(x) && x == e,
            },
    {
        let ghost target = decode_from(iter.pending(), false);
        loop
            invariant
                iter.pending().len() <= old(iter).pending().len(),
                target == decode_from(old(iter).pending(), false),
                decode_from(iter.pending(), false) == target,
            decreases iter.pending().len(),
        {
            let ghost pend = iter.pending();
            match iter.next() {
                None => {
                    return Err(DxfError::UnexpectedEndOfInput);
                },
                Some(Err(e)) => {
                    return Err(e);
                },
                Some(Ok(pair)) => {
                    if pair.code != TAG_CODE {
                        return Err(DxfError::ExpectedEntityTag(pair.offset));
                    }
                    let name = pair.assert_string()?;
                    if text_is(&name, "ENDSEC") || text_is(&name, "ENDBLK") {
                        iter.put_back(Ok(pair));
                        assert(iter.pending() =~= pend);
                        return Ok(None);
                    }
                    if text_is(&name, "DIMENSION") {
                        let (common, dim) = read_dimension_body(iter)?;
                        return Ok(Some(Entity { common, specific: dim }));
                    }
                    match EntityType::from_type_string(&name) {
                        Some(specific) => {
                            let e = read_entity_body(specific, iter)?;
                            return Ok(Some(e));
                        },
                        None => {
                            assert(decode_from(pend, false) == decode_from(iter.pending(), true));
                            loop
                                invariant
                                    pend.len() <= old(iter).pending().len(),
                                    target == decode_from(old(iter).pending(), false),
                                    decode_from(iter.pending(), true) == target,
                                    iter.pending().len() < pend.len(),
                                ensures
                                    decode_from(iter.pending(), false) == target,
                                    iter.pending().len() < pend.len(),
                                decreases iter.pending().len(),
                            {
                                let ghost pend2 = iter.pending();
                                match iter.next() {
                                    None => {
                                        assert(decode_from(pend2, true).0 == Err::<Option<EntityView>, DxfError>(DxfError::UnexpectedEndOfInput));
                                        return Err(DxfError::UnexpectedEndOfInput);
                                    },
                                    Some(Err(e)) => {
                                        assert(decode_from(pend2, true).0 == Err::<Option<EntityView>, DxfError>(e));
                                        return Err(e);
                                    },
                                    Some(Ok(p)) => {
                                        if p.code == TAG_CODE {
                                            iter.put_back(Ok(p));
                                            assert(iter.pending() =~= pend2);
                                            assert(decode_from(pend2, true) == decode_from(pend2, false));
                                            break;
                                        }
                                    },
                                }
                            }
                        },
                    }
                },
            }
        }
    }
}

} // verus!
