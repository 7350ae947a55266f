use dxf::code_pair::{CodePair, CodePairValue, DxfError, DxfResult};
use dxf::code_pair_put_back::CodePairPutBack;
use dxf::common::XDataItem;
use dxf::entities::{EntityType, Line, Point, ProxyEntity, Solid3D};
use dxf::entity::Entity;
use dxf::enums::AcadVersion;
use dxf::group::read_entities;
use dxf::readers::real_to_i32_exec;

fn b(v: f64) -> u64 {
    v.to_bits()
}

fn s(code: u16, v: &str) -> DxfResult<CodePair> {
    Ok(CodePair { code, value: CodePairValue::Str(v.to_string()), offset: 0 })
}

fn r(code: u16, v: f64) -> DxfResult<CodePair> {
    Ok(CodePair { code, value: CodePairValue::Double(b(v)), offset: 0 })
}

fn sh(code: u16, v: i16) -> DxfResult<CodePair> {
    Ok(CodePair { code, value: CodePairValue::Short(v), offset: 0 })
}

fn read_all(items: Vec<DxfResult<CodePair>>) -> DxfResult<Vec<Entity>> {
    let mut iter = CodePairPutBack::from_code_pair_iter(items);
    read_entities(&mut iter)
}

fn drain(iter: &mut CodePairPutBack) -> Vec<DxfResult<CodePair>> {
    let mut v = vec![];
    while let Some(i) = iter.next() {
        v.push(i);
    }
    v
}

#[test]
fn comments_never_come_out_of_the_stream() {
    let plain = vec![s(0, "LINE"), r(10, 1.0), s(0, "ENDSEC")];
    let with_comments = vec![s(999, "a"), s(0, "LINE"), s(999, "b"), s(999, "c"), r(10, 1.0), s(0, "ENDSEC"), s(999, "d")];
    let mut a = CodePairPutBack::from_code_pair_iter(plain.clone());
    let mut c = CodePairPutBack::from_code_pair_iter(with_comments);
    assert_eq!(drain(&mut a), drain(&mut c));
    assert_eq!(plain, drain(&mut CodePairPutBack::from_code_pair_iter(plain.clone())));
}

#[test]
fn pushed_back_items_come_out_last_first() {
    let mut iter = CodePairPutBack::from_code_pair_iter(vec![s(1, "rest")]);
    iter.put_back(s(2, "a"));
    let first = iter.next().unwrap();
    iter.put_back(first);
    iter.put_back(s(3, "b"));
    assert_eq!(Some(s(3, "b")), iter.next());
    assert_eq!(Some(s(2, "a")), iter.next());
    assert_eq!(Some(s(1, "rest")), iter.next());
    assert_eq!(None, iter.next());
}

#[test]
fn radial_dimension_keeps_fields_read_before_its_marker() {
    let entities = read_all(vec![
        s(0, "DIMENSION"),
        s(1, "text"),
        s(3, "style"),
        s(100, "AcDbRadialDimension"),
        r(15, 1.1),
        r(25, 2.2),
        r(35, 3.3),
        r(40, 0.0),
        s(0, "ENDSEC"),
    ])
    .unwrap();
    assert_eq!(1, entities.len());
    match entities[0].specific {
        EntityType::RadialDimension(ref d) => {
            assert_eq!("text", d.dimension_base.text);
            assert_eq!("style", d.dimension_base.dimension_style_name);
            assert_eq!(Point::new(b(1.1), b(2.2), b(3.3)), d.definition_point_2);
            assert_eq!(b(0.0), d.leader_length);
        }
        _ => panic!("expected a radial dimension"),
    }
}

#[test]
fn unknown_dimension_marker_keeps_shape_and_base() {
    let entities = read_all(vec![
        s(0, "DIMENSION"),
        s(100, "AcDbNoSuchDimension"),
        s(3, "style"),
        r(12, 4.0),
        s(0, "ENDSEC"),
    ])
    .unwrap();
    match entities[0].specific {
        EntityType::RotatedDimension(ref d) => {
            assert_eq!("style", d.dimension_base.dimension_style_name);
            assert_eq!(b(4.0), d.insertion_point.x);
        }
        _ => panic!("expected a rotated dimension"),
    }
}

#[test]
fn unknown_kind_is_skipped_up_to_the_next_tag() {
    let entities = read_all(vec![
        s(0, "UNSUPPORTED_ENTITY"),
        s(1, "x"),
        r(10, 3.0),
        sh(70, 1),
        s(0, "LINE"),
        r(10, 1.5),
        s(0, "ENDSEC"),
    ])
    .unwrap();
    assert_eq!(1, entities.len());
    match entities[0].specific {
        EntityType::Line(ref l) => assert_eq!(b(1.5), l.p1.x),
        _ => panic!("expected a line"),
    }
}

#[test]
fn leader_components_are_combined_into_points() {
    let entities = read_all(vec![
        s(0, "LEADER"),
        r(10, 1.0),
        r(20, 2.0),
        r(30, 3.0),
        r(10, 4.0),
        r(20, 5.0),
        r(30, 6.0),
        r(10, 7.0),
        r(20, 8.0),
        r(30, 9.0),
        s(0, "ENDSEC"),
    ])
    .unwrap();
    match entities[0].specific {
        EntityType::Leader(ref l) => {
            assert_eq!(
                vec![
                    Point::new(b(1.0), b(2.0), b(3.0)),
                    Point::new(b(4.0), b(5.0), b(6.0)),
                    Point::new(b(7.0), b(8.0), b(9.0)),
                ],
                l.vertices
            );
            assert!(l.vertices_x.is_empty() && l.vertices_y.is_empty() && l.vertices_z.is_empty());
        }
        _ => panic!("expected a leader"),
    }
}

#[test]
fn newer_kind_writes_nothing_for_an_older_version() {
    let e = Entity::new(EntityType::Solid3D(Solid3D::default()));
    let mut out = vec![];
    e.write(AcadVersion::R12, true, &mut out);
    assert!(out.is_empty());
    e.write(AcadVersion::R13, true, &mut out);
    assert_eq!(CodePair::new_str(0, "3DSOLID"), out[0]);
}

#[test]
fn line_written_and_read_back_is_the_same() {
    let mut e = Entity::new(EntityType::Line(Line {
        p1: Point::new(b(1.0), b(2.0), b(3.0)),
        p2: Point::new(b(4.0), b(5.0), b(6.0)),
        thickness: b(0.5),
        extrusion_direction: Point::new(b(1.0), 0, 0),
    }));
    e.common.layer = "walls".to_string();
    let mut out = vec![];
    e.write(AcadVersion::R12, false, &mut out);
    let mut items: Vec<DxfResult<CodePair>> = out.into_iter().map(Ok).collect();
    items.push(s(0, "ENDSEC"));
    let back = read_all(items).unwrap();
    assert_eq!(vec![e], back);
}

#[test]
fn missing_terminator_is_an_error() {
    let mut iter = CodePairPutBack::from_code_pair_iter(vec![s(0, "LINE"), r(10, 1.0)]);
    assert_eq!(Err(DxfError::UnexpectedEndOfInput), Entity::read(&mut iter).map(|_| ()));
}

#[test]
fn unknown_enumerator_is_an_error() {
    let mut iter = CodePairPutBack::from_code_pair_iter(vec![s(0, "MTEXT"), Ok(CodePair { code: 71, value: CodePairValue::Short(42), offset: 7 }), s(0, "ENDSEC")]);
    assert_eq!(Err(DxfError::UnexpectedEnumValue(7)), Entity::read(&mut iter).map(|_| ()));
}

#[test]
fn fourth_xrecord_flag_is_an_error() {
    let mut iter = CodePairPutBack::from_code_pair_iter(vec![
        s(0, "ATTRIB"),
        s(100, "AcDbXrecord"),
        sh(70, 2),
        sh(70, 1),
        sh(70, 3),
        Ok(CodePair { code: 70, value: CodePairValue::Short(0), offset: 9 }),
        s(0, "ENDSEC"),
    ]);
    assert_eq!(Err(DxfError::UnexpectedCodePair(9)), Entity::read(&mut iter).map(|_| ()));
}

#[test]
fn xrecord_flags_fill_fields_in_turn() {
    let entities = read_all(vec![
        s(0, "ATTRIB"),
        s(2, "TAG"),
        s(100, "AcDbXrecord"),
        s(2, "XTAG"),
        sh(70, 4),
        sh(70, 1),
        sh(70, 3),
        s(0, "ENDSEC"),
    ])
    .unwrap();
    match entities[0].specific {
        EntityType::Attribute(ref a) => {
            assert_eq!("TAG", a.attribute_tag);
            assert_eq!("XTAG", a.fields.x_record_tag);
            assert!(a.fields.is_really_locked);
            assert_eq!(3, a.fields.secondary_attribute_count);
        }
        _ => panic!("expected an attribute"),
    }
}

#[test]
fn wrong_value_type_is_an_error() {
    let mut iter = CodePairPutBack::from_code_pair_iter(vec![
        s(0, "LINE"),
        Ok(CodePair { code: 10, value: CodePairValue::Str("x".into()), offset: 3 }),
        s(0, "ENDSEC"),
    ]);
    assert_eq!(Err(DxfError::WrongValueType(3)), Entity::read(&mut iter).map(|_| ()));
}

#[test]
fn source_errors_are_passed_on() {
    let mut iter = CodePairPutBack::from_code_pair_iter(vec![s(0, "LINE"), Err(DxfError::UnexpectedEndOfInput)]);
    assert_eq!(Err(DxfError::UnexpectedEndOfInput), Entity::read(&mut iter).map(|_| ()));
}

#[test]
fn section_end_stays_unread() {
    let mut iter = CodePairPutBack::from_code_pair_iter(vec![s(0, "ENDBLK")]);
    assert_eq!(Ok(None), Entity::read(&mut iter).map(|e| e.map(|_| ())));
    assert_eq!(Some(s(0, "ENDBLK")), iter.next());
}

#[test]
fn xdata_ends_at_a_lower_code() {
    let entities = read_all(vec![
        s(0, "LINE"),
        s(1001, "APP"),
        s(1000, "text"),
        r(1040, 2.5),
        s(8, "layer"),
        s(0, "ENDSEC"),
    ])
    .unwrap();
    assert_eq!("layer", entities[0].common.layer);
    assert_eq!(vec![XDataItem::Str("text".into()), XDataItem::Real(b(2.5))], entities[0].common.x_data[0].items);
}

#[test]
fn proxy_format_words() {
    let mut p = ProxyEntity::default();
    p.set_object_drawing_format_version(0x1234);
    assert_eq!(0x1234, p.get_object_drawing_format_version());
    p.set_object_mainenance_release_version(5);
    assert_eq!(5 * 16 + 0x1234, p.object_drawing_format as i32);
    assert_eq!((5 * 16 + 0x1234) >> 4, p.get_object_maintenance_release_version());
}

#[test]
fn reals_truncate_toward_zero() {
    assert_eq!(3, real_to_i32_exec(b(3.0)));
    assert_eq!(-2, real_to_i32_exec(b(-2.7)));
    assert_eq!(0, real_to_i32_exec(b(0.4)));
    assert_eq!(0, real_to_i32_exec(b(f64::NAN)));
    assert_eq!(i32::MAX, real_to_i32_exec(b(1e20)));
    assert_eq!(i32::MIN, real_to_i32_exec(b(-1e20)));
}

#[test]
fn normalize_fills_an_empty_layer() {
    let mut e = Entity::new(EntityType::Line(Line::default()));
    e.common.layer = String::new();
    e.normalize();
    assert_eq!("0", e.common.layer);
}

#[test]
fn insert_without_attributes_is_followed_by_a_terminator() {
    let e = Entity::new(EntityType::Insert(dxf::entities::Insert::default()));
    let mut out = vec![];
    e.write(AcadVersion::R12, false, &mut out);
    let tags: Vec<CodePair> = out.into_iter().filter(|p| p.code == 0).collect();
    assert_eq!(vec![CodePair::new_str(0, "INSERT"), CodePair::new_str(0, "SEQEND")], tags);
}

#[test]
fn wrong_value_type_leaves_dimension_base_unchanged() {
    let mut base = dxf::entities::DimensionBase::default();
    base.text = "kept".to_string();
    let before = base.clone();
    let pair = CodePair { code: 1, value: CodePairValue::Short(3), offset: 4 };
    assert_eq!(Err(DxfError::WrongValueType(4)), base.apply_dimension_code_pair(&pair));
    assert_eq!(before, base);
}

#[test]
fn polyline_default_fields_read_back_as_defaults() {
    let mut poly = dxf::entities::Polyline::default();
    poly.flags = 8;
    poly.thickness = b(2.0);
    let e = Entity::new(EntityType::Polyline(poly));
    let mut out = vec![];
    e.write(AcadVersion::R12, false, &mut out);
    let mut items: Vec<DxfResult<CodePair>> = out.into_iter().map(Ok).collect();
    items.push(s(0, "ENDSEC"));
    assert_eq!(vec![e], read_all(items).unwrap());
}
