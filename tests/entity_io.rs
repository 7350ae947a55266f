use dxf::accessors::HandleAllocator;
use dxf::code_pair::{CodePair, CodePairValue, DxfError, DxfResult, Handle};
use dxf::code_pair_put_back::CodePairPutBack;
use dxf::common::{EntityCommon, ExtensionGroup, ExtensionGroupItem, XData, XDataItem};
use dxf::entities::{
    Attribute, EntityType, Image, Insert, LwPolyline, LwPolylineVertex, MText, Point, Polyline,
    RadialDimension, DimensionBase, Line, Solid3D, Vertex,
};
use dxf::entity::Entity;
use dxf::enums::AcadVersion;
use dxf::group::read_entities;

fn b(v: f64) -> u64 {
    v.to_bits()
}

fn pt(x: f64, y: f64, z: f64) -> Point {
    Point::new(b(x), b(y), b(z))
}

fn approx(expected: f64, bits: u64) -> bool {
    (expected - f64::from_bits(bits)).abs() < 1e-9
}

fn hex_bytes(s: &str) -> Vec<u8> {
    (0..s.len() / 2).map(|i| u8::from_str_radix(&s[2 * i..2 * i + 2], 16).unwrap()).collect()
}

/// The typed value a record with this code carries, read from its text.
fn value_for(code: u16, text: &str) -> CodePairValue {
    let t = text.trim();
    match code {
        5 | 105 | 320..=369 | 390..=399 | 480..=481 | 1005 => {
            CodePairValue::Handle(Handle(u64::from_str_radix(t, 16).unwrap()))
        }
        310..=319 | 1004 => CodePairValue::Binary(hex_bytes(t)),
        10..=59 | 110..=149 | 210..=239 | 460..=469 | 1010..=1059 => {
            CodePairValue::Double(b(t.parse::<f64>().unwrap()))
        }
        60..=79 | 170..=179 | 270..=289 | 370..=389 | 400..=409 | 1060..=1070 => {
            CodePairValue::Short(t.parse::<i16>().unwrap())
        }
        90..=99 | 420..=429 | 440..=449 | 1071 => CodePairValue::Integer(t.parse::<i32>().unwrap()),
        290..=299 => CodePairValue::Boolean(t != "0"),
        _ => CodePairValue::Str(text.to_string()),
    }
}

fn items_of(lines: &[&str]) -> Vec<DxfResult<CodePair>> {
    let mut items = vec![];
    let mut i = 0;
    while i + 1 < lines.len() {
        let code = lines[i].trim().parse::<u16>().unwrap();
        items.push(Ok(CodePair { code, value: value_for(code, lines[i + 1]), offset: i }));
        i += 2;
    }
    items
}

fn entities_of(items: Vec<DxfResult<CodePair>>) -> Vec<Entity> {
    let mut iter = CodePairPutBack::from_code_pair_iter(items);
    read_entities(&mut iter).unwrap()
}

/// A whole file with one entities section.
fn parse_drawing(text: &str) -> Vec<Entity> {
    let lines: Vec<&str> = text.split("\r\n").collect();
    assert_eq!(vec!["SECTION", "2", "ENTITIES"], lines[1..4].iter().map(|s| s.trim()).collect::<Vec<_>>());
    entities_of(items_of(&lines[4..]))
}

fn from_section(_section: &str, body: &str) -> Vec<Entity> {
    let mut lines: Vec<&str> = body.split("\r\n").collect();
    lines.extend(["0", "ENDSEC", "0", "EOF"]);
    entities_of(items_of(&lines))
}

fn read_entity(entity_type: &str, body: String) -> Entity {
    let entities = from_section("ENTITIES", vec!["0", entity_type, body.as_str()].join("\r\n").as_str());
    assert_eq!(1, entities.len());
    entities[0].clone()
}

fn format_real(v: f64) -> String {
    let mut s = format!("{:.12}", v);
    while s.ends_with('0') {
        s.pop();
    }
    if s.ends_with('.') {
        s.push('0');
    }
    s
}

fn format_value(v: &CodePairValue) -> String {
    match v {
        CodePairValue::Boolean(x) => format!("{:6}", if *x { 1 } else { 0 }),
        CodePairValue::Integer(x) => format!("{:9}", x),
        CodePairValue::Long(x) => format!("{}", x),
        CodePairValue::Double(x) => format_real(f64::from_bits(*x)),
        CodePairValue::Str(s) => s.clone(),
        CodePairValue::Short(x) => format!("{:6}", x),
        CodePairValue::Binary(bytes) => bytes.iter().map(|x| format!("{:02X}", x)).collect(),
        CodePairValue::Handle(h) => format!("{:X}", h.0),
    }
}

/// A drawing being assembled: entities get the next handle when they are
/// added without one.
struct Drawing {
    version: AcadVersion,
    handles: HandleAllocator,
    entities: Vec<Entity>,
}

impl Drawing {
    fn new() -> Drawing {
        Drawing { version: AcadVersion::R12, handles: HandleAllocator::new(0x10), entities: vec![] }
    }

    fn add_entity(&mut self, mut e: Entity) {
        if e.common.handle.0 == 0 {
            e.common.handle = self.handles.next_handle();
        }
        self.entities.push(e);
    }
}

/// The text of a file holding the drawing's entities section.
fn to_test_string(drawing: &Drawing) -> String {
    let mut out: Vec<CodePair> = vec![];
    for e in &drawing.entities {
        e.write(drawing.version, true, &mut out);
    }
    let mut lines: Vec<String> = vec!["  0".into(), "SECTION".into(), "  2".into(), "ENTITIES".into()];
    for p in &out {
        lines.push(format!("{:3}", p.code));
        lines.push(format_value(&p.value));
    }
    lines.extend(["  0".to_string(), "ENDSEC".to_string(), "  0".to_string(), "EOF".to_string()]);
    lines.join("\r\n")
}

fn assert_contains(drawing: &Drawing, expected: String) {
    let actual = to_test_string(drawing);
    assert!(actual.contains(&expected), "expected\n{}\n\nto contain\n{}", actual, expected);
}

#[test]
fn read_empty_entities_section() {
    let entities = parse_drawing(vec!["0", "SECTION", "2", "ENTITIES", "0", "ENDSEC", "0", "EOF"].join("\r\n").as_str());
    assert_eq!(0, entities.len());
}

#[test]
fn read_unsupported_entity() {
    let entities = parse_drawing(
        vec!["0", "SECTION", "2", "ENTITIES", "0", "UNSUPPORTED_ENTITY", "1", "unsupported string", "0", "ENDSEC", "0", "EOF"]
            .join("\r\n")
            .as_str(),
    );
    assert_eq!(0, entities.len());
}

#[test]
fn read_unsupported_entity_between_supported_entities() {
    let entities = parse_drawing(
        vec![
            "0", "SECTION", "2", "ENTITIES", "0", "LINE", "0", "UNSUPPORTED_ENTITY", "1", "unsupported string", "0",
            "CIRCLE", "0", "ENDSEC", "0", "EOF",
        ]
        .join("\r\n")
        .as_str(),
    );
    assert_eq!(2, entities.len());
    match entities[0].specific {
        EntityType::Line(_) => (),
        _ => panic!("expected a line"),
    }
    match entities[1].specific {
        EntityType::Circle(_) => (),
        _ => panic!("expected a circle"),
    }
}

#[test]
fn read_entity_with_no_values() {
    let entities =
        parse_drawing(vec!["0", "SECTION", "2", "ENTITIES", "0", "LINE", "0", "ENDSEC", "0", "EOF"].join("\r\n").as_str());
    assert_eq!(1, entities.len());
    match entities[0].specific {
        EntityType::Line(_) => (),
        _ => panic!("expected a line"),
    }
}

#[test]
fn read_common_entity_fields() {
    let ent = read_entity("LINE", vec!["8", "layer"].join("\r\n"));
    assert_eq!("layer", ent.common.layer);
}

#[test]
fn read_line() {
    let ent = read_entity(
        "LINE",
        vec!["10", "1.1", "20", "2.2", "30", "3.3", "11", "4.4", "21", "5.5", "31", "6.6"].join("\r\n"),
    );
    match ent.specific {
        EntityType::Line(ref line) => {
            assert_eq!(pt(1.1, 2.2, 3.3), line.p1);
            assert_eq!(pt(4.4, 5.5, 6.6), line.p2);
        }
        _ => panic!("expected a line"),
    }
}

#[test]
fn write_common_entity_fields() {
    let mut drawing = Drawing::new();
    let mut ent = Entity { common: Default::default(), specific: EntityType::Line(Default::default()) };
    ent.common.layer = "some-layer".to_owned();
    drawing.add_entity(ent);
    assert_contains(&drawing, vec!["  0", "LINE", "  5", "10", "100", "AcDbEntity", "  8", "some-layer"].join("\r\n"));
}

#[test]
fn write_specific_entity_fields() {
    let mut drawing = Drawing::new();
    let line = Line { p1: pt(1.1, 2.2, 3.3), p2: pt(4.4, 5.5, 6.6), ..Default::default() };
    drawing.add_entity(Entity::new(EntityType::Line(line)));
    assert_contains(
        &drawing,
        vec!["100", "AcDbLine", " 10", "1.1", " 20", "2.2", " 30", "3.3", " 11", "4.4", " 21", "5.5", " 31", "6.6"]
            .join("\r\n"),
    );
}

#[test]
fn read_multiple_entities() {
    let entities = from_section(
        "ENTITIES",
        vec![
            "0", "CIRCLE", "10", "1.1", "20", "2.2", "30", "3.3", "40", "4.4", "0", "LINE", "10", "5.5", "20", "6.6", "30",
            "7.7", "11", "8.8", "21", "9.9", "31", "10.1",
        ]
        .join("\r\n")
        .as_str(),
    );
    assert_eq!(2, entities.len());
    match entities[0].specific {
        EntityType::Circle(ref circle) => {
            assert_eq!(pt(1.1, 2.2, 3.3), circle.center);
            assert!(approx(4.4, circle.radius));
        }
        _ => panic!("expected a line"),
    }
    match entities[1].specific {
        EntityType::Line(ref line) => {
            assert_eq!(pt(5.5, 6.6, 7.7), line.p1);
            assert_eq!(pt(8.8, 9.9, 10.1), line.p2);
        }
        _ => panic!("expected a line"),
    }
}

#[test]
fn read_field_with_multiples_common() {
    let ent = read_entity("LINE", vec!["310", "0102", "310", "0304"].join("\r\n"));
    assert_eq!(vec![vec![0x01, 0x02], vec![0x03, 0x04]], ent.common.preview_image_data);
}

#[test]
fn write_field_with_multiples_common() {
    let mut drawing = Drawing::new();
    drawing.version = AcadVersion::R2000;
    drawing.add_entity(Entity {
        common: EntityCommon { preview_image_data: vec![vec![0x01, 0x02], vec![0x03, 0x04]], ..Default::default() },
        specific: EntityType::Line(Default::default()),
    });
    assert_contains(&drawing, vec!["310", "0102", "310", "0304"].join("\r\n"));
}

#[test]
fn read_field_with_multiples_specific() {
    let ent = read_entity("3DSOLID", vec!["1", "one-1", "1", "one-2", "3", "three-1", "3", "three-2"].join("\r\n"));
    match ent.specific {
        EntityType::Solid3D(ref solid3d) => {
            assert_eq!(vec!["one-1", "one-2"], solid3d.custom_data);
            assert_eq!(vec!["three-1", "three-2"], solid3d.custom_data2);
        }
        _ => panic!("expected a 3DSOLID"),
    }
}

#[test]
fn write_field_with_multiples_specific() {
    let mut drawing = Drawing::new();
    drawing.version = AcadVersion::R13;
    drawing.add_entity(Entity {
        common: Default::default(),
        specific: EntityType::Solid3D(Solid3D {
            custom_data: vec![String::from("one-1"), String::from("one-2")],
            custom_data2: vec![String::from("three-1"), String::from("three-2")],
            ..Default::default()
        }),
    });
    assert_contains(&drawing, vec!["  1", "one-1", "  1", "one-2", "  3", "three-1", "  3", "three-2"].join("\r\n"));
}

#[test]
fn read_entity_with_post_parse() {
    let ent = read_entity(
        "IMAGE",
        vec!["14", "1.1", "24", "2.2", "14", "3.3", "24", "4.4", "14", "5.5", "24", "6.6"].join("\r\n"),
    );
    match ent.specific {
        EntityType::Image(ref image) => {
            assert_eq!(3, image.clipping_vertices.len());
            assert_eq!(pt(1.1, 2.2, 0.0), image.clipping_vertices[0]);
            assert_eq!(pt(3.3, 4.4, 0.0), image.clipping_vertices[1]);
            assert_eq!(pt(5.5, 6.6, 0.0), image.clipping_vertices[2]);
        }
        _ => panic!("expected an IMAGE"),
    }
}

#[test]
fn write_entity_with_write_order() {
    let mut drawing = Drawing::new();
    drawing.version = AcadVersion::R14;
    drawing.add_entity(Entity {
        common: Default::default(),
        specific: EntityType::Image(Image {
            clipping_vertices: vec![pt(1.1, 2.2, 0.0), pt(3.3, 4.4, 0.0), pt(5.5, 6.6, 0.0)],
            ..Default::default()
        }),
    });
    assert_contains(
        &drawing,
        vec![" 91", "        3", " 14", "1.1", " 24", "2.2", " 14", "3.3", " 24", "4.4", " 14", "5.5", " 24", "6.6"]
            .join("\r\n"),
    );
}

#[test]
fn read_entity_with_custom_reader_mtext() {
    let ent = read_entity(
        "MTEXT",
        vec!["50", "1.1", "75", "7", "50", "3", "50", "10", "50", "20", "50", "30"].join("\r\n"),
    );
    match ent.specific {
        EntityType::MText(ref mtext) => {
            assert!(approx(1.1, mtext.rotation_angle));
            assert_eq!(7, mtext.column_type);
            assert_eq!(3, mtext.column_count);
            assert_eq!(3, mtext.column_heights.len());
            assert!(approx(10.0, mtext.column_heights[0]));
            assert!(approx(20.0, mtext.column_heights[1]));
            assert!(approx(30.0, mtext.column_heights[2]));
        }
        _ => panic!("expected an MTEXT"),
    }
}

#[test]
fn read_entity_after_entity_with_custom_reader() {
    let entities = from_section("ENTITIES", vec!["  0", "MTEXT", "  0", "LINE"].join("\r\n").as_str());
    assert_eq!(2, entities.len());
    match entities[0].specific {
        EntityType::MText(_) => {}
        _ => panic!("expected an mtext"),
    }
    match entities[1].specific {
        EntityType::Line(_) => {}
        _ => panic!("expected a line"),
    }
}

#[test]
fn read_entity_with_flags() {
    let ent = read_entity("IMAGE", vec!["70", "5"].join("\r\n"));
    match ent.specific {
        EntityType::Image(ref image) => {
            assert!(image.get_show_image());
            assert!(image.get_use_clipping_boundary());
        }
        _ => panic!("expected an IMAGE"),
    }
}

#[test]
fn write_entity_with_flags() {
    let mut drawing = Drawing::new();
    drawing.version = AcadVersion::R14;
    let mut image = Image::default();
    assert_eq!(0, image.display_options_flags);
    image.set_show_image(true);
    image.set_use_clipping_boundary(true);
    drawing.add_entity(Entity { common: Default::default(), specific: EntityType::Image(image) });
    assert_contains(&drawing, vec![" 70", "     5", "280", "     1", "281", "    50"].join("\r\n"));
}

#[test]
fn read_entity_with_handle_and_pointer() {
    let ent = read_entity("3DSOLID", vec!["5", "A1", "330", "A2", "350", "A3"].join("\r\n"));
    assert_eq!(Handle(0xa1), ent.common.handle);
    assert_eq!(Handle(0xa2), ent.common.owner_handle);
    match ent.specific {
        EntityType::Solid3D(ref solid) => assert_eq!(Handle(0xa3), solid.history_object_handle),
        _ => panic!("expected a 3DSOLID entity"),
    }
}

#[test]
fn write_entity_with_handle_and_pointer() {
    let mut drawing = Drawing::new();
    drawing.version = AcadVersion::R2000;
    drawing.add_entity(Entity {
        common: EntityCommon { owner_handle: Handle(0xa2), ..Default::default() },
        specific: EntityType::Line(Default::default()),
    });
    assert_contains(&drawing, vec!["  0", "LINE", "  5", "10", "330", "A2"].join("\r\n"));
}

#[test]
fn write_version_specific_entity() {
    let mut drawing = Drawing::new();
    drawing.add_entity(Entity { common: Default::default(), specific: EntityType::Solid3D(Default::default()) });
    drawing.version = AcadVersion::R12;
    assert_contains(&drawing, vec!["  0", "SECTION", "  2", "ENTITIES", "  0", "ENDSEC"].join("\r\n"));
    drawing.version = AcadVersion::R13;
    assert_contains(&drawing, vec!["  0", "SECTION", "  2", "ENTITIES", "  0", "3DSOLID"].join("\r\n"));
}

fn three_vertices() -> Vec<Vertex> {
    vec![
        Vertex { location: pt(1.1, 2.1, 3.1), ..Default::default() },
        Vertex { location: pt(1.2, 2.2, 3.2), ..Default::default() },
        Vertex { location: pt(1.3, 2.3, 3.3), ..Default::default() },
    ]
}

const POLYLINE_BODY: [&str; 40] = [
    "  0", "POLYLINE", "  0", "VERTEX", " 10", "1.1", " 20", "2.1", " 30", "3.1", "  0", "VERTEX", " 10", "1.2", " 20",
    "2.2", " 30", "3.2", "  0", "VERTEX", " 10", "1.3", " 20", "2.3", " 30", "3.3", "  0", "SEQEND", "  0", "LINE", "",
    "", "", "", "", "", "", "", "", "",
];

#[test]
fn read_polyline() {
    let entities = from_section("ENTITIES", POLYLINE_BODY[..28].join("\r\n").as_str());
    assert_eq!(1, entities.len());
    match entities[0].specific {
        EntityType::Polyline(ref poly) => assert_eq!(three_vertices(), poly.vertices()),
        _ => panic!("expected a POLYLINE"),
    }
}

#[test]
fn read_polyline_without_seqend() {
    let entities = from_section("ENTITIES", POLYLINE_BODY[..26].join("\r\n").as_str());
    assert_eq!(1, entities.len());
    match entities[0].specific {
        EntityType::Polyline(ref poly) => assert_eq!(three_vertices(), poly.vertices()),
        _ => panic!("expected a POLYLINE"),
    }
}

#[test]
fn read_empty_polyline() {
    let entities = from_section("ENTITIES", vec!["0", "POLYLINE", "0", "SEQEND"].join("\r\n").as_str());
    assert_eq!(1, entities.len());
    match entities[0].specific {
        EntityType::Polyline(ref poly) => assert_eq!(0, poly.vertices().len()),
        _ => panic!("expected a POLYLINE"),
    }
}

#[test]
fn read_empty_polyline_without_seqend() {
    let entities = from_section("ENTITIES", vec!["0", "POLYLINE"].join("\r\n").as_str());
    assert_eq!(1, entities.len());
    match entities[0].specific {
        EntityType::Polyline(ref poly) => assert_eq!(0, poly.vertices().len()),
        _ => panic!("expected a POLYLINE"),
    }
}

#[test]
fn read_polyline_with_trailing_entity() {
    let entities = from_section("ENTITIES", POLYLINE_BODY[..30].join("\r\n").as_str());
    assert_eq!(2, entities.len());
    match entities[0].specific {
        EntityType::Polyline(ref poly) => assert_eq!(three_vertices(), poly.vertices()),
        _ => panic!("expected a POLYLINE"),
    }
    match entities[1].specific {
        EntityType::Line(_) => (),
        _ => panic!("expected a LINE"),
    }
}

#[test]
fn read_polyline_without_seqend_with_trailing_entity() {
    let mut body: Vec<&str> = POLYLINE_BODY[..26].to_vec();
    body.extend(["  0", "LINE"]);
    let entities = from_section("ENTITIES", body.join("\r\n").as_str());
    assert_eq!(2, entities.len());
    match entities[0].specific {
        EntityType::Polyline(ref poly) => assert_eq!(three_vertices(), poly.vertices()),
        _ => panic!("expected a POLYLINE"),
    }
    match entities[1].specific {
        EntityType::Line(_) => (),
        _ => panic!("expected a LINE"),
    }
}

#[test]
fn read_empty_polyline_with_trailing_entity() {
    let entities = from_section("ENTITIES", vec!["0", "POLYLINE", "0", "SEQEND", "0", "LINE"].join("\r\n").as_str());
    assert_eq!(2, entities.len());
    match entities[0].specific {
        EntityType::Polyline(ref poly) => assert_eq!(0, poly.vertices().len()),
        _ => panic!("expected a POLYLINE"),
    }
    match entities[1].specific {
        EntityType::Line(_) => (),
        _ => panic!("expected a LINE"),
    }
}

#[test]
fn read_empty_polyline_without_seqend_with_trailing_entity() {
    let entities = from_section("ENTITIES", vec!["0", "POLYLINE", "0", "LINE"].join("\r\n").as_str());
    assert_eq!(2, entities.len());
    match entities[0].specific {
        EntityType::Polyline(ref poly) => assert_eq!(0, poly.vertices().len()),
        _ => panic!("expected a POLYLINE"),
    }
    match entities[1].specific {
        EntityType::Line(_) => (),
        _ => panic!("expected a LINE"),
    }
}

#[test]
fn write_2d_polyline() {
    let mut drawing = Drawing::new();
    let mut poly = Polyline::default();
    for v in three_vertices() {
        poly.add_vertex(&mut drawing.handles, v);
    }
    drawing.add_entity(Entity { common: Default::default(), specific: EntityType::Polyline(poly) });
    let mut expected = vec![
        "  0", "POLYLINE", "  5", "13", "100", "AcDbEntity", "  8", "0", "100", "AcDb2dPolyline", " 66", "     1", " 10",
        "0.0", " 20", "0.0", " 30", "0.0",
    ];
    let handles = ["10", "11", "12"];
    let coords = [["1.1", "2.1", "3.1"], ["1.2", "2.2", "3.2"], ["1.3", "2.3", "3.3"]];
    for i in 0..3 {
        expected.extend([
            "  0", "VERTEX", "  5", handles[i], "100", "AcDbEntity", "  8", "0", "100", "AcDbVertex", "100",
            "AcDb2dVertex", " 10", coords[i][0], " 20", coords[i][1], " 30", coords[i][2], " 70", "     0", " 50", "0.0",
        ]);
    }
    expected.extend(["  0", "SEQEND"]);
    assert_contains(&drawing, expected.join("\r\n"));
}

#[test]
fn write_3d_polyline() {
    let mut drawing = Drawing::new();
    let mut poly = Polyline::default();
    poly.add_vertex(&mut drawing.handles, Vertex { location: pt(1.1, 2.1, 3.1), ..Default::default() });
    poly.set_is_3d_polyline(true);
    drawing.add_entity(Entity { common: Default::default(), specific: EntityType::Polyline(poly) });
    assert_contains(
        &drawing,
        vec![
            "  0", "POLYLINE", "  5", "11", "100", "AcDbEntity", "  8", "0", "100", "AcDb3dPolyline", " 66", "     1",
            " 10", "0.0", " 20", "0.0", " 30", "0.0", " 70", "     8", "  0", "VERTEX", "  5", "10", "100", "AcDbEntity",
            "  8", "0", "100", "AcDbVertex", "100", "AcDb3dPolylineVertex", " 10", "1.1", " 20", "2.1", " 30", "3.1",
            " 70", "    32",
        ]
        .join("\r\n"),
    );
}

#[test]
fn read_lw_polyline_with_no_vertices() {
    let entities = from_section("ENTITIES", vec!["0", "LWPOLYLINE", "43", "43.0"].join("\r\n").as_str());
    assert_eq!(1, entities.len());
    match entities[0].specific {
        EntityType::LwPolyline(ref poly) => {
            assert!(approx(43.0, poly.constant_width));
            assert_eq!(0, poly.vertices.len());
        }
        _ => panic!("expected an LWPOLYLINE"),
    }
}

#[test]
fn read_lw_polyline_with_one_vertex() {
    let entities = from_section(
        "ENTITIES",
        vec![
            "0", "LWPOLYLINE", "43", "43.0", "10", "1.1", "20", "2.1", "40", "40.1", "41", "41.1", "42", "42.1", "91",
            "91",
        ]
        .join("\r\n")
        .as_str(),
    );
    assert_eq!(1, entities.len());
    match entities[0].specific {
        EntityType::LwPolyline(ref poly) => {
            assert!(approx(43.0, poly.constant_width));
            assert_eq!(1, poly.vertices.len());
            assert!(approx(1.1, poly.vertices[0].x));
            assert!(approx(2.1, poly.vertices[0].y));
            assert!(approx(40.1, poly.vertices[0].starting_width));
            assert!(approx(41.1, poly.vertices[0].ending_width));
            assert!(approx(42.1, poly.vertices[0].bulge));
            assert_eq!(91, poly.vertices[0].id);
        }
        _ => panic!("expected an LWPOLYLINE"),
    }
}

#[test]
fn read_lw_polyline_with_multiple_vertices() {
    let entities = from_section(
        "ENTITIES",
        vec![
            "0", "LWPOLYLINE", "43", "43.0", "10", "1.1", "20", "2.1", "40", "40.1", "41", "41.1", "42", "42.1", "91",
            "91", "10", "1.2", "20", "2.2", "40", "40.2", "41", "41.2", "42", "42.2", "91", "92",
        ]
        .join("\r\n")
        .as_str(),
    );
    assert_eq!(1, entities.len());
    match entities[0].specific {
        EntityType::LwPolyline(ref poly) => {
            assert!(approx(43.0, poly.constant_width));
            assert_eq!(2, poly.vertices.len());
            assert!(approx(1.1, poly.vertices[0].x));
            assert!(approx(2.1, poly.vertices[0].y));
            assert!(approx(40.1, poly.vertices[0].starting_width));
            assert!(approx(41.1, poly.vertices[0].ending_width));
            assert!(approx(42.1, poly.vertices[0].bulge));
            assert_eq!(91, poly.vertices[0].id);
            assert!(approx(1.2, poly.vertices[1].x));
            assert!(approx(2.2, poly.vertices[1].y));
            assert!(approx(40.2, poly.vertices[1].starting_width));
            assert!(approx(41.2, poly.vertices[1].ending_width));
            assert!(approx(42.2, poly.vertices[1].bulge));
            assert_eq!(92, poly.vertices[1].id);
        }
        _ => panic!("expected an LWPOLYLINE"),
    }
}

#[test]
fn write_lw_polyline() {
    let mut drawing = Drawing::new();
    drawing.version = AcadVersion::R2013;
    let mut poly = LwPolyline::default();
    poly.constant_width = b(43.0);
    poly.vertices.push(LwPolylineVertex { x: b(1.1), y: b(2.1), ..Default::default() });
    poly.vertices.push(LwPolylineVertex {
        x: b(1.2),
        y: b(2.2),
        starting_width: b(40.2),
        ending_width: b(41.2),
        bulge: b(42.2),
        id: 92,
    });
    drawing.add_entity(Entity::new(EntityType::LwPolyline(poly)));
    assert_contains(
        &drawing,
        vec![
            "100", "AcDbPolyline", " 90", "        2", " 70", "     0", " 43", "43.0", " 10", "1.1", " 20", "2.1", " 91",
            "        0", " 10", "1.2", " 20", "2.2", " 91", "       92", " 40", "40.2", " 41", "41.2", " 42", "42.2",
        ]
        .join("\r\n"),
    );
}

#[test]
fn read_dimension() {
    let ent = read_entity(
        "DIMENSION",
        vec![
            "1", "text", "100", "AcDbOrdinateDimension", "13", "1.1", "23", "2.2", "33", "3.3", "14", "4.4", "24", "5.5",
            "34", "6.6",
        ]
        .join("\r\n"),
    );
    match ent.specific {
        EntityType::OrdinateDimension(ref dim) => {
            assert_eq!("text", dim.dimension_base.text);
            assert_eq!(pt(1.1, 2.2, 3.3), dim.definition_point_2);
            assert_eq!(pt(4.4, 5.5, 6.6), dim.definition_point_3);
        }
        _ => panic!("expected an ordinate dimension"),
    }
}

#[test]
fn read_entity_after_unsupported_dimension() {
    // an unknown dimension marker is ignored: the dimension stays rotated and
    // keeps the fields read around the marker, and the next entity follows
    let entities = from_section(
        "ENTITIES",
        vec![
            "0", "DIMENSION", "1", "text", "100", "AcDbSomeUnsupportedDimensionType", "10", "1.1", "20", "2.2", "30",
            "3.3", "0", "LINE",
        ]
        .join("\r\n")
        .as_str(),
    );
    assert_eq!(2, entities.len());
    match entities[0].specific {
        EntityType::RotatedDimension(ref dim) => {
            assert_eq!("text", dim.dimension_base.text);
            assert_eq!(pt(1.1, 2.2, 3.3), dim.dimension_base.definition_point_1);
        }
        _ => panic!("expected a rotated dimension"),
    }
    match entities[1].specific {
        EntityType::Line(_) => {}
        _ => panic!("expected a line"),
    }
}

#[test]
fn write_dimension() {
    let dim = RadialDimension {
        dimension_base: DimensionBase { text: String::from("some-text"), ..Default::default() },
        definition_point_2: pt(1.1, 2.2, 3.3),
        ..Default::default()
    };
    let mut drawing = Drawing::new();
    drawing.add_entity(Entity::new(EntityType::RadialDimension(dim)));
    assert_contains(&drawing, vec!["  0", "DIMENSION"].join("\r\n"));
    assert_contains(&drawing, vec!["  1", "some-text"].join("\r\n"));
    assert_contains(
        &drawing,
        vec!["100", "AcDbRadialDimension", " 15", "1.1", " 25", "2.2", " 35", "3.3", " 40", "0.0"].join("\r\n"),
    );
}

#[test]
fn read_insert_with_separate_attributes() {
    let entities = from_section(
        "ENTITIES",
        vec!["  0", "INSERT", " 66", "0", "  0", "ATTRIB", "  0", "SEQEND"].join("\r\n").as_str(),
    );
    assert_eq!(3, entities.len());
    match entities[0].specific {
        EntityType::Insert(_) => (),
        _ => panic!("expected an INSERT"),
    }
    match entities[1].specific {
        EntityType::Attribute(_) => (),
        _ => panic!("expected an ATTRIB"),
    }
    match entities[2].specific {
        EntityType::Seqend(_) => (),
        _ => panic!("expected a SEQEND"),
    }
}

#[test]
fn read_insert_with_embedded_attributes() {
    let entities = from_section(
        "ENTITIES",
        vec!["  0", "INSERT", " 66", "1", "  0", "ATTRIB", "  0", "ATTRIB", "  0", "SEQEND"].join("\r\n").as_str(),
    );
    assert_eq!(1, entities.len());
    match entities[0].specific {
        EntityType::Insert(ref ins) => assert_eq!(2, ins.attributes().len()),
        _ => panic!("exepcted an INSERT"),
    }
}

#[test]
fn write_insert_with_embedded_attributes() {
    let mut drawing = Drawing::new();
    let mut ins = Insert::default();
    ins.add_attribute(&mut drawing.handles, Attribute::default());
    drawing.add_entity(Entity::new(EntityType::Insert(ins)));
    assert_contains(&drawing, vec!["  0", "INSERT"].join("\r\n"));
    assert_contains(&drawing, vec!["100", "AcDbBlockReference", " 66", "     1"].join("\r\n"));
    assert_contains(&drawing, vec!["  0", "ATTRIB"].join("\r\n"));
    assert_contains(&drawing, vec!["  0", "SEQEND"].join("\r\n"));
}

#[test]
fn round_trip_insert_with_attributes() {
    let mut drawing = Drawing::new();
    let mut ins = Insert::default();
    ins.add_attribute(&mut drawing.handles, Attribute::default());
    drawing.add_entity(Entity::new(EntityType::Insert(ins)));
    let entities = parse_drawing(&to_test_string(&drawing));
    assert_eq!(1, entities.len());
    match entities[0].specific {
        EntityType::Insert(ref ins) => assert_eq!(1, ins.attributes().len()),
        _ => panic!("expected an INSERT"),
    }
}

#[test]
fn read_attribute_with_attached_mtext() {
    let entities = from_section("ENTITIES", vec!["  0", "ATTRIB", "  0", "MTEXT", "  1", "m_text"].join("\r\n").as_str());
    assert_eq!(1, entities.len());
    match entities[0].specific {
        EntityType::Attribute(ref att) => assert_eq!("m_text", att.m_text.text),
        _ => panic!("exepcted an attribute"),
    }
}

#[test]
fn write_attribute_with_attached_mtext() {
    let mut drawing = Drawing::new();
    drawing.version = AcadVersion::R13;
    drawing.add_entity(Entity::new(EntityType::Attribute(Default::default())));
    assert_contains(&drawing, vec!["  0", "ATTRIB"].join("\r\n"));
    assert_contains(&drawing, vec!["  0", "MTEXT"].join("\r\n"));
}

#[test]
fn round_trip_attribute_with_attached_mtext() {
    let att = Attribute { m_text: MText { text: String::from("m_text"), ..Default::default() }, ..Default::default() };
    let mut drawing = Drawing::new();
    drawing.version = AcadVersion::R13;
    drawing.add_entity(Entity::new(EntityType::Attribute(att)));
    let entities = parse_drawing(&to_test_string(&drawing));
    assert_eq!(1, entities.len());
    match entities[0].specific {
        EntityType::Attribute(ref att) => assert_eq!("m_text", att.m_text.text),
        _ => panic!("expected a attribute"),
    }
}

#[test]
fn read_extension_data() {
    let ent = read_entity("LINE", vec!["102", "{IXMILIA", "  1", "some string", "102", "}"].join("\r\n"));
    assert_eq!(1, ent.common.extension_data_groups.len());
    let group = &ent.common.extension_data_groups[0];
    assert_eq!("IXMILIA", group.application_name);
    match group.items[0] {
        ExtensionGroupItem::CodePair(ref p) => assert_eq!(&CodePair::new_str(1, "some string"), &CodePair { offset: 0, ..p.clone() }),
    }
}

#[test]
fn write_extension_data() {
    let mut drawing = Drawing::new();
    drawing.version = AcadVersion::R14;
    drawing.add_entity(Entity {
        common: EntityCommon {
            extension_data_groups: vec![ExtensionGroup {
                application_name: String::from("IXMILIA"),
                items: vec![ExtensionGroupItem::CodePair(CodePair::new_str(1, "some string"))],
            }],
            ..Default::default()
        },
        specific: EntityType::Line(Line::default()),
    });
    assert_contains(&drawing, vec!["102", "{IXMILIA", "  1", "some string", "102", "}"].join("\r\n"));
}

#[test]
fn read_x_data() {
    let ent = read_entity("LINE", vec!["1001", "IXMILIA", "1000", "some string"].join("\r\n"));
    assert_eq!(1, ent.common.x_data.len());
    let x = &ent.common.x_data[0];
    assert_eq!("IXMILIA", x.application_name);
    match x.items[0] {
        XDataItem::Str(ref s) => assert_eq!("some string", s),
        _ => panic!("expected a string"),
    }
}

#[test]
fn write_x_data() {
    let mut drawing = Drawing::new();
    drawing.version = AcadVersion::R2000;
    drawing.add_entity(Entity {
        common: EntityCommon {
            x_data: vec![XData { application_name: String::from("IXMILIA"), items: vec![XDataItem::Real(b(1.1))] }],
            ..Default::default()
        },
        specific: EntityType::Line(Line::default()),
    });
    assert_contains(&drawing, vec!["1001", "IXMILIA", "1040", "1.1", "  0", "ENDSEC"].join("\r\n"));
}

#[test]
fn read_entity_after_extension_data() {
    let entities = parse_drawing(
        vec![
            "  0", "SECTION", "  2", "ENTITIES", "  0", "LINE", "102", "{IXMILIA", "102", "}", "  0", "CIRCLE", "  0",
            "ENDSEC", "  0", "EOF",
        ]
        .join("\r\n")
        .as_str(),
    );
    assert_eq!(2, entities.len());
    match entities[0].specific {
        EntityType::Line(_) => (),
        _ => panic!("expected a line"),
    }
    match entities[1].specific {
        EntityType::Circle(_) => (),
        _ => panic!("expected a circle"),
    }
}

#[test]
fn read_entity_after_x_data() {
    let entities = parse_drawing(
        vec!["  0", "SECTION", "  2", "ENTITIES", "  0", "LINE", "1001", "IXMILIA", "  0", "CIRCLE", "  0", "ENDSEC", "  0", "EOF"]
            .join("\r\n")
            .as_str(),
    );
    assert_eq!(2, entities.len());
    match entities[0].specific {
        EntityType::Line(_) => (),
        _ => panic!("expected a line"),
    }
    match entities[1].specific {
        EntityType::Circle(_) => (),
        _ => panic!("expected a circle"),
    }
}

#[test]
fn first_read_error_is_reported() {
    let mut iter = CodePairPutBack::from_code_pair_iter(items_of(&["10", "1.1"]));
    assert_eq!(Err(DxfError::ExpectedEntityTag(0)), Entity::read(&mut iter).map(|_| ()));
}
