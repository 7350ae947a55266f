use vstd::prelude::*;
use crate::code_pair::{int_value, real_value, short_value, string_value, text_is, CodePair, CodePairView, DxfError, DxfResult};
use crate::entities::{AttributeFields, AttributeFieldsView, LwPolylineVertex, MText, MTextView, Point};
use crate::enums::{MTextFlag, Version};
use crate::fields::{attribute_fields_field, lw_polyline_field, m_text_field};
use crate::entities::{LwPolyline, LwPolylineView};

verus! {

/// The integer a real number truncates to (toward zero), as a saturating
/// float-to-integer conversion does: NaN gives 0, values beyond the range
/// give the nearest bound. `bits` is the IEEE-754 pattern of the real.
pub open spec fn real_to_i32(bits: u64) -> i32 {
    let exp = ((bits >> 52u64) & 0x7FFu64) as int;
    let frac = bits & 0xF_FFFF_FFFF_FFFFu64;
    let negative = (bits >> 63u64) == 1;
    if exp == 0x7FF && frac != 0 {
        0
    } else if exp < 1023 {
        0
    } else if exp - 1023 >= 31 {
        if negative { i32::MIN } else { i32::MAX }
    } else {
        let mag = ((frac | 0x10_0000_0000_0000u64) >> ((1075 - exp) as u64)) as int;
        (if negative { -mag } else { mag }) as i32
    }
}

pub fn real_to_i32_exec(bits: u64) -> (r: i32)
    ensures
        r == real_to_i32(bits),
{
    let exp = (bits >> 52u64) & 0x7FFu64;
    let frac = bits & 0xF_FFFF_FFFF_FFFFu64;
    let negative = (bits >> 63u64) == 1;
    if exp == 0x7FF && frac != 0 {
        0
    } else if exp < 1023 {
        0
    } else if exp - 1023 >= 31 {
        if negative { i32::MIN } else { i32::MAX }
    } else {
        let shift: u64 = 1075 - exp;
        let m = frac | 0x10_0000_0000_0000u64;
        let mag = m >> shift;
        assert(frac <= 0xF_FFFF_FFFF_FFFFu64 ==> (frac | 0x10_0000_0000_0000u64) < 0x20_0000_0000_0000u64) by (bit_vector);
        assert(frac == bits & 0xF_FFFF_FFFF_FFFFu64 ==> frac <= 0xF_FFFF_FFFF_FFFFu64) by (bit_vector);
        assert(m < 0x20_0000_0000_0000u64 && shift >= 22 ==> m >> shift < 0x8000_0000u64) by (bit_vector);
        let mi = mag as i32;
        if negative { -mi } else { mi }
    }
}

/// The state of the multi-line text reader: the text, whether column data
/// has begun (code 75 seen), and whether the column count has been read.
pub open spec fn m_text_record(t: (MTextView, bool, bool), p: CodePairView) -> Option<
    DxfResult<(MTextView, bool, bool)>,
> {
    if p.code == 50 {
        Some(
            match real_value(p) {
                Ok(x) => if t.1 {
                    if t.2 {
                        Ok((MTextView { column_heights: t.0.column_heights.push(x), ..t.0 }, t.1, t.2))
                    } else {
                        Ok((MTextView { column_count: real_to_i32(x), ..t.0 }, t.1, true))
                    }
                } else {
                    Ok((MTextView { rotation_angle: x, ..t.0 }, t.1, t.2))
                },
                Err(e) => Err(e),
            },
        )
    } else if p.code == 75 {
        Some(
            match short_value(p) {
                Ok(x) => Ok((MTextView { column_type: x, ..t.0 }, true, t.2)),
                Err(e) => Err(e),
            },
        )
    } else {
        match m_text_field(t.0, p) {
            Some(Ok(m)) => Some(Ok((m, t.1, t.2))),
            Some(Err(e)) => Some(Err(e)),
            None => None,
        }
    }
}

/// Applies a record to multi-line text; code 50 is the rotation until
/// column data begins, then the column count, then one column height each.
pub fn apply_m_text_pair(m: &mut MText, in_columns: &mut bool, has_count: &mut bool, p: &CodePair) -> (r: DxfResult<bool>)
    ensures
        match m_text_record((old(m)@, *old(in_columns), *old(has_count)), p@) {
            None => r == Ok::<bool, DxfError>(false) && final(m)@ == old(m)@ && *final(in_columns)
                == *old(in_columns) && *final(has_count) == *old(has_count),
            Some(Ok(n)) => r == Ok::<bool, DxfError>(true) && n == (final(m)@, *final(in_columns), *final(has_count)),
            Some(Err(e)) => r == Err::<bool, DxfError>(e) && final(m)@ == old(m)@,
        },
{
    if p.code == 50 {
        let x = p.assert_real()?;
        if *in_columns {
            if *has_count {
                let ghost before = m@;
                m.column_heights.push(x);
                assert(m@.column_heights =~= before.column_heights.push(x));
            } else {
                m.column_count = real_to_i32_exec(x);
                *has_count = true;
            }
        } else {
            m.rotation_angle = x;
        }
        Ok(true)
    } else if p.code == 75 {
        m.column_type = p.assert_i16()?;
        *in_columns = true;
        Ok(true)
    } else {
        m.apply_code_pair(p)
    }
}

/// The vertices with a last one to fill in: a new default vertex when there
/// is none yet.
pub open spec fn with_last_vertex(vs: Seq<LwPolylineVertex>) -> Seq<LwPolylineVertex> {
    if vs.len() == 0 {
        seq![LwPolylineVertex::default_value()]
    } else {
        vs
    }
}

pub open spec fn set_last_vertex(vs: Seq<LwPolylineVertex>, v: LwPolylineVertex) -> Seq<LwPolylineVertex> {
    with_last_vertex(vs).update(with_last_vertex(vs).len() - 1, v)
}

pub open spec fn last_vertex(vs: Seq<LwPolylineVertex>) -> LwPolylineVertex {
    with_last_vertex(vs).last()
}

/// What a record does to a light-weight polyline: code 10 starts a new
/// vertex, codes 20, 40, 41, 42 and 91 fill in the last one.
pub open spec fn lw_polyline_record(v: LwPolylineView, p: CodePairView) -> Option<DxfResult<LwPolylineView>> {
    let l = last_vertex(v.vertices);
    if p.code == 10 {
        Some(
            match real_value(p) {
                Ok(x) => Ok(LwPolylineView { vertices: v.vertices.push(LwPolylineVertex { x, ..LwPolylineVertex::default_value() }), ..v }),
                Err(e) => Err(e),
            },
        )
    } else if p.code == 20 {
        Some(
            match real_value(p) {
                Ok(x) => Ok(LwPolylineView { vertices: set_last_vertex(v.vertices, LwPolylineVertex { y: x, ..l }), ..v }),
                Err(e) => Err(e),
            },
        )
    } else if p.code == 40 {
        Some(
            match real_value(p) {
                Ok(x) => Ok(LwPolylineView { vertices: set_last_vertex(v.vertices, LwPolylineVertex { starting_width: x, ..l }), ..v }),
                Err(e) => Err(e),
            },
        )
    } else if p.code == 41 {
        Some(
            match real_value(p) {
                Ok(x) => Ok(LwPolylineView { vertices: set_last_vertex(v.vertices, LwPolylineVertex { ending_width: x, ..l }), ..v }),
                Err(e) => Err(e),
            },
        )
    } else if p.code == 42 {
        Some(
            match real_value(p) {
                Ok(x) => Ok(LwPolylineView { vertices: set_last_vertex(v.vertices, LwPolylineVertex { bulge: x, ..l }), ..v }),
                Err(e) => Err(e),
            },
        )
    } else if p.code == 91 {
        Some(
            match int_value(p) {
                Ok(x) => Ok(LwPolylineView { vertices: set_last_vertex(v.vertices, LwPolylineVertex { id: x, ..l }), ..v }),
                Err(e) => Err(e),
            },
        )
    } else {
        lw_polyline_field(v, p)
    }
}

fn ensure_last_vertex(vs: &mut Vec<LwPolylineVertex>)
    ensures
        final(vs)@ == with_last_vertex(old(vs)@),
{
    if vs.len() == 0 {
        vs.push(LwPolylineVertex::default());
        assert(vs@ =~= seq![LwPolylineVertex::default_value()]);
    }
}

/// Applies a record to a light-weight polyline.
pub fn apply_lw_polyline_pair(poly: &mut LwPolyline, p: &CodePair) -> (r: DxfResult<bool>)
    ensures
        match lw_polyline_record(old(poly)@, p@) {
            None => r == Ok::<bool, DxfError>(false) && final(poly)@ == old(poly)@,
            Some(Ok(n)) => r == Ok::<bool, DxfError>(true) && final(poly)@ == n,
            Some(Err(e)) => r == Err::<bool, DxfError>(e) && final(poly)@ == old(poly)@,
        },
{
    if p.code == 10 {
        let x = p.assert_real()?;
        poly.vertices.push(LwPolylineVertex { x, ..LwPolylineVertex::default() });
        return Ok(true);
    }
    if p.code == 20 || p.code == 40 || p.code == 41 || p.code == 42 {
        let x = p.assert_real()?;
        ensure_last_vertex(&mut poly.vertices);
        let n = poly.vertices.len() - 1;
        let mut v = poly.vertices[n];
        if p.code == 20 {
            v.y = x;
        } else if p.code == 40 {
            v.starting_width = x;
        } else if p.code == 41 {
            v.ending_width = x;
        } else {
            v.bulge = x;
        }
        poly.vertices.set(n, v);
        return Ok(true);
    }
    if p.code == 91 {
        let x = p.assert_i32()?;
        ensure_last_vertex(&mut poly.vertices);
        let n = poly.vertices.len() - 1;
        let mut v = poly.vertices[n];
        v.id = x;
        poly.vertices.set(n, v);
        return Ok(true);
    }
    poly.apply_code_pair(p)
}

/// The reader state of an attribute (or attribute definition): its shared
/// fields, tag, prompt, the last subclass marker, how many 70 codes came
/// under the `AcDbXrecord` marker, and whether the version has been read.
pub struct AttributeReadState {
    pub fields: AttributeFieldsView,
    pub tag: Seq<char>,
    pub prompt: Seq<char>,
    pub marker: Seq<char>,
    pub xrecord_70_count: int,
    pub is_version_set: bool,
}

pub open spec fn in_xrecord(t: AttributeReadState) -> bool {
    t.marker == "AcDbXrecord"@
}

pub open spec fn set_axis(pt: Point, code: u16, x: u64) -> Point {
    if code == 10 {
        Point { x, ..pt }
    } else if code == 20 {
        Point { y: x, ..pt }
    } else {
        Point { z: x, ..pt }
    }
}

/// What a record does to an attribute being read. Codes 2, 10/20/30, 40,
/// 70 and 280 mean different fields under the `AcDbXrecord` marker; the
/// 70 codes there fill three fields in turn and a fourth is an error; the
/// first 280 outside it is the version, later ones the lock flag. Code 3 is
/// the prompt when `has_prompt`.
#[verifier::opaque]
pub open spec fn attribute_record(t: AttributeReadState, p: CodePairView, has_prompt: bool) -> Option<
    DxfResult<AttributeReadState>,
> {
    let f = t.fields;
    if p.code == 100 {
        Some(
            match string_value(p) {
                Ok(s) => Ok(AttributeReadState { marker: s, ..t }),
                Err(e) => Err(e),
            },
        )
    } else if p.code == 2 {
        Some(
            match string_value(p) {
                Ok(s) => if in_xrecord(t) {
                    Ok(AttributeReadState { fields: AttributeFieldsView { x_record_tag: s, ..f }, ..t })
                } else {
                    Ok(AttributeReadState { tag: s, ..t })
                },
                Err(e) => Err(e),
            },
        )
    } else if p.code == 3 && has_prompt {
        Some(
            match string_value(p) {
                Ok(s) => Ok(AttributeReadState { prompt: s, ..t }),
                Err(e) => Err(e),
            },
        )
    } else if p.code == 10 || p.code == 20 || p.code == 30 {
        Some(
            match real_value(p) {
                Ok(x) => if in_xrecord(t) {
                    Ok(AttributeReadState { fields: AttributeFieldsView { alignment_point: set_axis(f.alignment_point, p.code, x), ..f }, ..t })
                } else {
                    Ok(AttributeReadState { fields: AttributeFieldsView { location: set_axis(f.location, p.code, x), ..f }, ..t })
                },
                Err(e) => Err(e),
            },
        )
    } else if p.code == 40 {
        Some(
            match real_value(p) {
                Ok(x) => if in_xrecord(t) {
                    Ok(AttributeReadState { fields: AttributeFieldsView { annotation_scale: x, ..f }, ..t })
                } else {
                    Ok(AttributeReadState { fields: AttributeFieldsView { text_height: x, ..f }, ..t })
                },
                Err(e) => Err(e),
            },
        )
    } else if p.code == 70 {
        Some(
            match short_value(p) {
                Ok(x) => if in_xrecord(t) {
                    if t.xrecord_70_count == 0 {
                        match MTextFlag::spec_from_i16(x) {
                            Some(m) => Ok(AttributeReadState { fields: AttributeFieldsView { m_text_flag: m, ..f }, xrecord_70_count: 1, ..t }),
                            None => Err(DxfError::UnexpectedEnumValue(p.offset)),
                        }
                    } else if t.xrecord_70_count == 1 {
                        Ok(AttributeReadState { fields: AttributeFieldsView { is_really_locked: x != 0, ..f }, xrecord_70_count: 2, ..t })
                    } else if t.xrecord_70_count == 2 {
                        Ok(AttributeReadState { fields: AttributeFieldsView { secondary_attribute_count: x as i32, ..f }, xrecord_70_count: 3, ..t })
                    } else {
                        Err(DxfError::UnexpectedCodePair(p.offset))
                    }
                } else {
                    Ok(AttributeReadState { fields: AttributeFieldsView { flags: x as i32, ..f }, ..t })
                },
                Err(e) => Err(e),
            },
        )
    } else if p.code == 280 {
        Some(
            match short_value(p) {
                Ok(x) => if in_xrecord(t) {
                    Ok(AttributeReadState { fields: AttributeFieldsView { keep_duplicate_records: x != 0, ..f }, ..t })
                } else if !t.is_version_set {
                    match Version::spec_from_i16(x) {
                        Some(v) => Ok(AttributeReadState { fields: AttributeFieldsView { version: v, ..f }, is_version_set: true, ..t }),
                        None => Err(DxfError::UnexpectedEnumValue(p.offset)),
                    }
                } else {
                    Ok(AttributeReadState { fields: AttributeFieldsView { is_locked_in_block: x != 0, ..f }, ..t })
                },
                Err(e) => Err(e),
            },
        )
    } else {
        match attribute_fields_field(f, p) {
            Some(Ok(n)) => Some(Ok(AttributeReadState { fields: n, ..t })),
            Some(Err(e)) => Some(Err(e)),
            None => None,
        }
    }
}

/// The exec side of an attribute reader's state.
pub struct AttributeReader {
    pub fields: AttributeFields,
    pub tag: String,
    pub prompt: String,
    pub marker: String,
    pub xrecord_70_count: u8,
    pub is_version_set: bool,
}

impl View for AttributeReader {
    type V = AttributeReadState;

    open spec fn view(&self) -> AttributeReadState {
        AttributeReadState {
            fields: self.fields@,
            tag: self.tag@,
            prompt: self.prompt@,
            marker: self.marker@,
            xrecord_70_count: self.xrecord_70_count as int,
            is_version_set: self.is_version_set,
        }
    }
}

impl AttributeReader {
    pub fn new(fields: AttributeFields, tag: String, prompt: String) -> (r: AttributeReader)
        ensures
            r@ == (AttributeReadState {
                fields: fields@,
                tag: tag@,
                prompt: prompt@,
                marker: Seq::empty(),
                xrecord_70_count: 0,
                is_version_set: false,
            }),
    {
        AttributeReader { fields, tag, prompt, marker: String::new(), xrecord_70_count: 0, is_version_set: false }
    }

    fn apply_marker(&mut self, p: &CodePair, has_prompt: bool, xrec: bool) -> (r: DxfResult<bool>)
        requires
            old(self).xrecord_70_count <= 3,
            xrec == in_xrecord(old(self)@),
            p.code == 100,
        ensures
            final(self).xrecord_70_count <= 3,
            match attribute_record(old(self)@, p@, has_prompt) {
                None => r == Ok::<bool, DxfError>(false) && final(self)@ == old(self)@,
                Some(Ok(n)) => r == Ok::<bool, DxfError>(true) && final(self)@ == n,
                Some(Err(e)) => r == Err::<bool, DxfError>(e) && final(self)@ == old(self)@,
            },
    {
        reveal(attribute_record);
        self.marker = p.assert_string()?;
        Ok(true)
    }

    fn apply_tag(&mut self, p: &CodePair, has_prompt: bool, xrec: bool) -> (r: DxfResult<bool>)
        requires
            old(self).xrecord_70_count <= 3,
            xrec == in_xrecord(old(self)@),
            p.code == 2,
        ensures
            final(self).xrecord_70_count <= 3,
            match attribute_record(old(self)@, p@, has_prompt) {
                None => r == Ok::<bool, DxfError>(false) && final(self)@ == old(self)@,
                Some(Ok(n)) => r == Ok::<bool, DxfError>(true) && final(self)@ == n,
                Some(Err(e)) => r == Err::<bool, DxfError>(e) && final(self)@ == old(self)@,
            },
    {
        reveal(attribute_record);
        let s = p.assert_string()?;
        if xrec {
            self.fields.x_record_tag = s;
        } else {
            self.tag = s;
        }
        Ok(true)
    }

    fn apply_prompt(&mut self, p: &CodePair, has_prompt: bool, xrec: bool) -> (r: DxfResult<bool>)
        requires
            old(self).xrecord_70_count <= 3,
            xrec == in_xrecord(old(self)@),
            p.code == 3 && has_prompt,
        ensures
            final(self).xrecord_70_count <= 3,
            match attribute_record(old(self)@, p@, has_prompt) {
                None => r == Ok::<bool, DxfError>(false) && final(self)@ == old(self)@,
                Some(Ok(n)) => r == Ok::<bool, DxfError>(true) && final(self)@ == n,
                Some(Err(e)) => r == Err::<bool, DxfError>(e) && final(self)@ == old(self)@,
            },
    {
        reveal(attribute_record);
        self.prompt = p.assert_string()?;
        Ok(true)
    }

    fn apply_position(&mut self, p: &CodePair, has_prompt: bool, xrec: bool) -> (r: DxfResult<bool>)
        requires
            old(self).xrecord_70_count <= 3,
            xrec == in_xrecord(old(self)@),
            p.code == 10 || p.code == 20 || p.code == 30,
        ensures
            final(self).xrecord_70_count <= 3,
            match attribute_record(old(self)@, p@, has_prompt) {
                None => r == Ok::<bool, DxfError>(false) && final(self)@ == old(self)@,
                Some(Ok(n)) => r == Ok::<bool, DxfError>(true) && final(self)@ == n,
                Some(Err(e)) => r == Err::<bool, DxfError>(e) && final(self)@ == old(self)@,
            },
    {
        reveal(attribute_record);
        let x = p.assert_real()?;
        if xrec {
            if p.code == 10 {
                self.fields.alignment_point.x = x;
            } else if p.code == 20 {
                self.fields.alignment_point.y = x;
            } else {
                self.fields.alignment_point.z = x;
            }
        } else {
            if p.code == 10 {
                self.fields.location.x = x;
            } else if p.code == 20 {
                self.fields.location.y = x;
            } else {
                self.fields.location.z = x;
            }
        }
        Ok(true)
    }

    fn apply_height(&mut self, p: &CodePair, has_prompt: bool, xrec: bool) -> (r: DxfResult<bool>)
        requires
            old(self).xrecord_70_count <= 3,
            xrec == in_xrecord(old(self)@),
            p.code == 40,
        ensures
            final(self).xrecord_70_count <= 3,
            match attribute_record(old(self)@, p@, has_prompt) {
                None => r == Ok::<bool, DxfError>(false) && final(self)@ == old(self)@,
                Some(Ok(n)) => r == Ok::<bool, DxfError>(true) && final(self)@ == n,
                Some(Err(e)) => r == Err::<bool, DxfError>(e) && final(self)@ == old(self)@,
            },
    {
        reveal(attribute_record);
        let x = p.assert_real()?;
        if xrec {
            self.fields.annotation_scale = x;
        } else {
            self.fields.text_height = x;
        }
        Ok(true)
    }

    fn apply_flags(&mut self, p: &CodePair, has_prompt: bool, xrec: bool) -> (r: DxfResult<bool>)
        requires
            old(self).xrecord_70_count <= 3,
            xrec == in_xrecord(old(self)@),
            p.code == 70,
        ensures
            final(self).xrecord_70_count <= 3,
            match attribute_record(old(self)@, p@, has_prompt) {
                None => r == Ok::<bool, DxfError>(false) && final(self)@ == old(self)@,
                Some(Ok(n)) => r == Ok::<bool, DxfError>(true) && final(self)@ == n,
                Some(Err(e)) => r == Err::<bool, DxfError>(e) && final(self)@ == old(self)@,
            },
    {
        reveal(attribute_record);
        let x = p.assert_i16()?;
        if xrec {
            if self.xrecord_70_count == 0 {
                match MTextFlag::from_i16(x) {
                    Some(m) => {
                        self.fields.m_text_flag = m;
                    },
                    None => {
                        return Err(DxfError::UnexpectedEnumValue(p.offset));
                    },
                }
            } else if self.xrecord_70_count == 1 {
                self.fields.is_really_locked = x != 0;
            } else if self.xrecord_70_count == 2 {
                self.fields.secondary_attribute_count = x as i32;
            } else {
                return Err(DxfError::UnexpectedCodePair(p.offset));
            }
            self.xrecord_70_count = self.xrecord_70_count + 1;
        } else {
            self.fields.flags = x as i32;
        }
        Ok(true)
    }

    fn apply_lock(&mut self, p: &CodePair, has_prompt: bool, xrec: bool) -> (r: DxfResult<bool>)
        requires
            old(self).xrecord_70_count <= 3,
            xrec == in_xrecord(old(self)@),
            p.code == 280,
        ensures
            final(self).xrecord_70_count <= 3,
            match attribute_record(old(self)@, p@, has_prompt) {
                None => r == Ok::<bool, DxfError>(false) && final(self)@ == old(self)@,
                Some(Ok(n)) => r == Ok::<bool, DxfError>(true) && final(self)@ == n,
                Some(Err(e)) => r == Err::<bool, DxfError>(e) && final(self)@ == old(self)@,
            },
    {
        reveal(attribute_record);
        let x = p.assert_i16()?;
        if xrec {
            self.fields.keep_duplicate_records = x != 0;
        } else if !self.is_version_set {
            match Version::from_i16(x) {
                Some(v) => {
                    self.fields.version = v;
                },
                None => {
                    return Err(DxfError::UnexpectedEnumValue(p.offset));
                },
            }
            self.is_version_set = true;
        } else {
            self.fields.is_locked_in_block = x != 0;
        }
        Ok(true)
    }

    fn apply_shared(&mut self, p: &CodePair, has_prompt: bool, xrec: bool) -> (r: DxfResult<bool>)
        requires
            old(self).xrecord_70_count <= 3,
            xrec == in_xrecord(old(self)@),
            !(p.code == 100 || p.code == 2 || (p.code == 3 && has_prompt) || p.code == 10 || p.code == 20 || p.code == 30 || p.code == 40 || p.code == 70 || p.code == 280),
        ensures
            final(self).xrecord_70_count <= 3,
            match attribute_record(old(self)@, p@, has_prompt) {
                None => r == Ok::<bool, DxfError>(false) && final(self)@ == old(self)@,
                Some(Ok(n)) => r == Ok::<bool, DxfError>(true) && final(self)@ == n,
                Some(Err(e)) => r == Err::<bool, DxfError>(e) && final(self)@ == old(self)@,
            },
    {
        reveal(attribute_record);
        self.fields.apply_code_pair(p)
    }
    /// Applies one record.
    pub fn apply(&mut self, p: &CodePair, has_prompt: bool) -> (r: DxfResult<bool>)
        requires
            old(self).xrecord_70_count <= 3,
        ensures
            final(self).xrecord_70_count <= 3,
            match attribute_record(old(self)@, p@, has_prompt) {
                None => r == Ok::<bool, DxfError>(false) && final(self)@ == old(self)@,
                Some(Ok(n)) => r == Ok::<bool, DxfError>(true) && final(self)@ == n,
                Some(Err(e)) => r == Err::<bool, DxfError>(e) && final(self)@ == old(self)@,
            },
    {
        let xrec = text_is(&self.marker, "AcDbXrecord");
        if p.code == 100 {
            self.apply_marker(p, has_prompt, xrec)
        } else if p.code == 2 {
            self.apply_tag(p, has_prompt, xrec)
        } else if p.code == 3 && has_prompt {
            self.apply_prompt(p, has_prompt, xrec)
        } else if p.code == 10 || p.code == 20 || p.code == 30 {
            self.apply_position(p, has_prompt, xrec)
        } else if p.code == 40 {
            self.apply_height(p, has_prompt, xrec)
        } else if p.code == 70 {
            self.apply_flags(p, has_prompt, xrec)
        } else if p.code == 280 {
            self.apply_lock(p, has_prompt, xrec)
        } else {
            self.apply_shared(p, has_prompt, xrec)
        }
    }
}

} // verus!
