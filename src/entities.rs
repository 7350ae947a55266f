use vstd::prelude::*;
use crate::code_pair::{text_is, Handle, REAL_ONE};
use crate::enums::{AcadVersion, AttachmentPoint, BackgroundFillSetting, DimensionType, DrawingDirection, HorizontalTextJustification, LineSpacingStyle, MTextFlag, PolylineCurvedAndSmoothSurfaceType, Version, VerticalTextJustification};

verus! {

/// A point or direction in space; each coordinate is the IEEE-754 bit
/// pattern of a 64-bit float.
#[derive(Clone, Copy, Debug, PartialEq, Eq, Structural, Default)]
pub struct Point {
    pub x: u64,
    pub y: u64,
    pub z: u64,
}

impl Point {
    pub fn new(x: u64, y: u64, z: u64) -> (r: Point)
        ensures
            r == (Point { x, y, z }),
    {
        Point { x, y, z }
    }

    /// The origin.
    pub open spec fn spec_origin() -> Point {
        Point { x: 0, y: 0, z: 0 }
    }

    /// The unit vector along the z axis.
    pub open spec fn spec_z_axis() -> Point {
        Point { x: 0, y: 0, z: REAL_ONE }
    }

    pub fn z_axis() -> (r: Point)
        ensures
            r == Point::spec_z_axis(),
    {
        Point { x: 0, y: 0, z: REAL_ONE }
    }
}

/// A single vertex of a light-weight polyline.
#[derive(Clone, Copy, Debug, PartialEq)]
pub struct LwPolylineVertex {
    pub x: u64,
    pub y: u64,
    pub id: i32,
    pub starting_width: u64,
    pub ending_width: u64,
    pub bulge: u64,
}

impl LwPolylineVertex {
    /// The value a new, empty `LwPolylineVertex` has.
    pub open spec fn default_value() -> LwPolylineVertex {
        LwPolylineVertex {
            x: 0,
            y: 0,
            id: 0,
            starting_width: 0,
            ending_width: 0,
            bulge: 0,
        }
    }
}

impl Default for LwPolylineVertex {
    fn default() -> (r: LwPolylineVertex)
        ensures
            r == LwPolylineVertex::default_value(),
    {
        LwPolylineVertex {
            x: 0,
            y: 0,
            id: 0,
            starting_width: 0,
            ending_width: 0,
            bulge: 0,
        }
    }
}

/// A vertex of a polyline.
#[derive(Clone, Copy, Debug, PartialEq)]
pub struct Vertex {
    pub location: Point,
    pub starting_width: u64,
    pub ending_width: u64,
    pub bulge: u64,
    pub flags: i32,
    pub curve_fit_tangent_direction: u64,
    pub polyface_mesh_vertex_index1: i32,
    pub polyface_mesh_vertex_index2: i32,
    pub polyface_mesh_vertex_index3: i32,
    pub polyface_mesh_vertex_index4: i32,
    pub identifier: i32,
}

impl Vertex {
    /// The value a new, empty `Vertex` has.
    pub open spec fn default_value() -> Vertex {
        Vertex {
            location: Point { x: 0, y: 0, z: 0 },
            starting_width: 0,
            ending_width: 0,
            bulge: 0,
            flags: 0,
            curve_fit_tangent_direction: 0,
            polyface_mesh_vertex_index1: 0,
            polyface_mesh_vertex_index2: 0,
            polyface_mesh_vertex_index3: 0,
            polyface_mesh_vertex_index4: 0,
            identifier: 0,
        }
    }
}

impl Default for Vertex {
    fn default() -> (r: Vertex)
        ensures
            r == Vertex::default_value(),
    {
        Vertex {
            location: Point { x: 0, y: 0, z: 0 },
            starting_width: 0,
            ending_width: 0,
            bulge: 0,
            flags: 0,
            curve_fit_tangent_direction: 0,
            polyface_mesh_vertex_index1: 0,
            polyface_mesh_vertex_index2: 0,
            polyface_mesh_vertex_index3: 0,
            polyface_mesh_vertex_index4: 0,
            identifier: 0,
        }
    }
}

/// The terminator of a nested sequence of entities.
#[derive(Clone, Copy, Debug, PartialEq)]
pub struct Seqend {
}

impl Seqend {
    /// The value a new, empty `Seqend` has.
    pub open spec fn default_value() -> Seqend {
        Seqend {
        }
    }
}

impl Default for Seqend {
    fn default() -> (r: Seqend)
        ensures
            r == Seqend::default_value(),
    {
        Seqend {
        }
    }
}

/// A line segment.
#[derive(Clone, Copy, Debug, PartialEq)]
pub struct Line {
    pub p1: Point,
    pub p2: Point,
    pub thickness: u64,
    pub extrusion_direction: Point,
}

impl Line {
    /// The value a new, empty `Line` has.
    pub open spec fn default_value() -> Line {
        Line {
            p1: Point { x: 0, y: 0, z: 0 },
            p2: Point { x: 0, y: 0, z: 0 },
            thickness: 0,
            extrusion_direction: Point { x: 0, y: 0, z: REAL_ONE },
        }
    }
}

impl Default for Line {
    fn default() -> (r: Line)
        ensures
            r == Line::default_value(),
    {
        Line {
            p1: Point { x: 0, y: 0, z: 0 },
            p2: Point { x: 0, y: 0, z: 0 },
            thickness: 0,
            extrusion_direction: Point { x: 0, y: 0, z: REAL_ONE },
        }
    }
}

/// A circle.
#[derive(Clone, Copy, Debug, PartialEq)]
pub struct Circle {
    pub center: Point,
    pub radius: u64,
    pub thickness: u64,
    pub normal: Point,
}

impl Circle {
    /// The value a new, empty `Circle` has.
    pub open spec fn default_value() -> Circle {
        Circle {
            center: Point { x: 0, y: 0, z: 0 },
            radius: 0,
            thickness: 0,
            normal: Point { x: 0, y: 0, z: REAL_ONE },
        }
    }
}

impl Default for Circle {
    fn default() -> (r: Circle)
        ensures
            r == Circle::default_value(),
    {
        Circle {
            center: Point { x: 0, y: 0, z: 0 },
            radius: 0,
            thickness: 0,
            normal: Point { x: 0, y: 0, z: REAL_ONE },
        }
    }
}

/// A circular arc.
#[derive(Clone, Copy, Debug, PartialEq)]
pub struct Arc {
    pub center: Point,
    pub radius: u64,
    pub start_angle: u64,
    pub end_angle: u64,
    pub thickness: u64,
    pub normal: Point,
}

impl Arc {
    /// The value a new, empty `Arc` has.
    pub open spec fn default_value() -> Arc {
        Arc {
            center: Point { x: 0, y: 0, z: 0 },
            radius: 0,
            start_angle: 0,
            end_angle: 0,
            thickness: 0,
            normal: Point { x: 0, y: 0, z: REAL_ONE },
        }
    }
}

impl Default for Arc {
    fn default() -> (r: Arc)
        ensures
            r == Arc::default_value(),
    {
        Arc {
            center: Point { x: 0, y: 0, z: 0 },
            radius: 0,
            start_angle: 0,
            end_angle: 0,
            thickness: 0,
            normal: Point { x: 0, y: 0, z: REAL_ONE },
        }
    }
}

/// A three- or four-sided face in space.
#[derive(Clone, Copy, Debug, PartialEq)]
pub struct Face3D {
    pub first_corner: Point,
    pub second_corner: Point,
    pub third_corner: Point,
    pub fourth_corner: Point,
    pub edge_flags: i32,
}

impl Face3D {
    /// The value a new, empty `Face3D` has.
    pub open spec fn default_value() -> Face3D {
        Face3D {
            first_corner: Point { x: 0, y: 0, z: 0 },
            second_corner: Point { x: 0, y: 0, z: 0 },
            third_corner: Point { x: 0, y: 0, z: 0 },
            fourth_corner: Point { x: 0, y: 0, z: 0 },
            edge_flags: 0,
        }
    }
}

impl Default for Face3D {
    fn default() -> (r: Face3D)
        ensures
            r == Face3D::default_value(),
    {
        Face3D {
            first_corner: Point { x: 0, y: 0, z: 0 },
            second_corner: Point { x: 0, y: 0, z: 0 },
            third_corner: Point { x: 0, y: 0, z: 0 },
            fourth_corner: Point { x: 0, y: 0, z: 0 },
            edge_flags: 0,
        }
    }
}

/// A filled three- or four-sided area.
#[derive(Clone, Copy, Debug, PartialEq)]
pub struct Solid {
    pub first_corner: Point,
    pub second_corner: Point,
    pub third_corner: Point,
    pub fourth_corner: Point,
    pub thickness: u64,
    pub extrusion_direction: Point,
}

impl Solid {
    /// The value a new, empty `Solid` has.
    pub open spec fn default_value() -> Solid {
        Solid {
            first_corner: Point { x: 0, y: 0, z: 0 },
            second_corner: Point { x: 0, y: 0, z: 0 },
            third_corner: Point { x: 0, y: 0, z: 0 },
            fourth_corner: Point { x: 0, y: 0, z: 0 },
            thickness: 0,
            extrusion_direction: Point { x: 0, y: 0, z: REAL_ONE },
        }
    }
}

impl Default for Solid {
    fn default() -> (r: Solid)
        ensures
            r == Solid::default_value(),
    {
        Solid {
            first_corner: Point { x: 0, y: 0, z: 0 },
            second_corner: Point { x: 0, y: 0, z: 0 },
            third_corner: Point { x: 0, y: 0, z: 0 },
            fourth_corner: Point { x: 0, y: 0, z: 0 },
            thickness: 0,
            extrusion_direction: Point { x: 0, y: 0, z: REAL_ONE },
        }
    }
}

/// A wide line drawn as a four-sided area.
#[derive(Clone, Copy, Debug, PartialEq)]
pub struct Trace {
    pub first_corner: Point,
    pub second_corner: Point,
    pub third_corner: Point,
    pub fourth_corner: Point,
    pub thickness: u64,
    pub extrusion_direction: Point,
}

impl Trace {
    /// The value a new, empty `Trace` has.
    pub open spec fn default_value() -> Trace {
        Trace {
            first_corner: Point { x: 0, y: 0, z: 0 },
            second_corner: Point { x: 0, y: 0, z: 0 },
            third_corner: Point { x: 0, y: 0, z: 0 },
            fourth_corner: Point { x: 0, y: 0, z: 0 },
            thickness: 0,
            extrusion_direction: Point { x: 0, y: 0, z: REAL_ONE },
        }
    }
}

impl Default for Trace {
    fn default() -> (r: Trace)
        ensures
            r == Trace::default_value(),
    {
        Trace {
            first_corner: Point { x: 0, y: 0, z: 0 },
            second_corner: Point { x: 0, y: 0, z: 0 },
            third_corner: Point { x: 0, y: 0, z: 0 },
            fourth_corner: Point { x: 0, y: 0, z: 0 },
            thickness: 0,
            extrusion_direction: Point { x: 0, y: 0, z: REAL_ONE },
        }
    }
}

/// A point in model space.
#[derive(Clone, Copy, Debug, PartialEq)]
pub struct ModelPoint {
    pub location: Point,
    pub thickness: u64,
    pub extrusion_direction: Point,
    pub angle: u64,
}

impl ModelPoint {
    /// The value a new, empty `ModelPoint` has.
    pub open spec fn default_value() -> ModelPoint {
        ModelPoint {
            location: Point { x: 0, y: 0, z: 0 },
            thickness: 0,
            extrusion_direction: Point { x: 0, y: 0, z: REAL_ONE },
            angle: 0,
        }
    }
}

impl Default for ModelPoint {
    fn default() -> (r: ModelPoint)
        ensures
            r == ModelPoint::default_value(),
    {
        ModelPoint {
            location: Point { x: 0, y: 0, z: 0 },
            thickness: 0,
            extrusion_direction: Point { x: 0, y: 0, z: REAL_ONE },
            angle: 0,
        }
    }
}

/// An entity whose data is kept for an application that is not present.
#[derive(Clone, Copy, Debug, PartialEq)]
pub struct ProxyEntity {
    pub proxy_entity_class_id: i32,
    pub application_entity_class_id: i32,
    pub object_drawing_format: u32,
}

impl ProxyEntity {
    /// The value a new, empty `ProxyEntity` has.
    pub open spec fn default_value() -> ProxyEntity {
        ProxyEntity {
            proxy_entity_class_id: 498,
            application_entity_class_id: 500,
            object_drawing_format: 0,
        }
    }
}

impl Default for ProxyEntity {
    fn default() -> (r: ProxyEntity)
        ensures
            r == ProxyEntity::default_value(),
    {
        ProxyEntity {
            proxy_entity_class_id: 498,
            application_entity_class_id: 500,
            object_drawing_format: 0,
        }
    }
}

/// A three-dimensional solid body.
#[derive(Clone, Debug, PartialEq)]
pub struct Solid3D {
    pub format_version: i16,
    pub custom_data: Vec<String>,
    pub custom_data2: Vec<String>,
    pub history_object_handle: Handle,
}

/// The mathematical value of a [`Solid3D`].
pub struct Solid3DView {
    pub format_version: i16,
    pub custom_data: Seq<Seq<char>>,
    pub custom_data2: Seq<Seq<char>>,
    pub history_object_handle: Handle,
}

impl View for Solid3D {
    type V = Solid3DView;

    open spec fn view(&self) -> Solid3DView {
        Solid3DView {
            format_version: self.format_version,
            custom_data: self.custom_data@.map_values(|s: String| s@),
            custom_data2: self.custom_data2@.map_values(|s: String| s@),
            history_object_handle: self.history_object_handle,
        }
    }
}

impl Solid3D {
    /// The value a new, empty `Solid3D` has.
    pub open spec fn default_view() -> Solid3DView {
        Solid3DView {
            format_version: 1,
            custom_data: Seq::empty(),
            custom_data2: Seq::empty(),
            history_object_handle: Handle(0),
        }
    }
}

impl Default for Solid3D {
    fn default() -> (r: Solid3D)
        ensures
            r@ == Solid3D::default_view(),
    {
        let r = Solid3D {
            format_version: 1,
            custom_data: Vec::new(),
            custom_data2: Vec::new(),
            history_object_handle: Handle(0),
        };

        assert(r@.custom_data =~= Seq::empty());
        assert(r@.custom_data2 =~= Seq::empty());
        r
    }
}

/// A raster image placed in the drawing.
#[derive(Clone, Debug, PartialEq)]
pub struct Image {
    pub location: Point,
    pub image_def_handle: Handle,
    pub display_options_flags: i32,
    pub clipping_state: bool,
    pub brightness: i16,
    pub contrast: i16,
    pub fade: i16,
    pub clipping_type: i16,
    pub clipping_vertices: Vec<Point>,
    pub clipping_vertices_x: Vec<u64>,
    pub clipping_vertices_y: Vec<u64>,
}

/// The mathematical value of a [`Image`].
pub struct ImageView {
    pub location: Point,
    pub image_def_handle: Handle,
    pub display_options_flags: i32,
    pub clipping_state: bool,
    pub brightness: i16,
    pub contrast: i16,
    pub fade: i16,
    pub clipping_type: i16,
    pub clipping_vertices: Seq<Point>,
    pub clipping_vertices_x: Seq<u64>,
    pub clipping_vertices_y: Seq<u64>,
}

impl View for Image {
    type V = ImageView;

    open spec fn view(&self) -> ImageView {
        ImageView {
            location: self.location,
            image_def_handle: self.image_def_handle,
            display_options_flags: self.display_options_flags,
            clipping_state: self.clipping_state,
            brightness: self.brightness,
            contrast: self.contrast,
            fade: self.fade,
            clipping_type: self.clipping_type,
            clipping_vertices: self.clipping_vertices@,
            clipping_vertices_x: self.clipping_vertices_x@,
            clipping_vertices_y: self.clipping_vertices_y@,
        }
    }
}

impl Image {
    /// The value a new, empty `Image` has.
    pub open spec fn default_view() -> ImageView {
        ImageView {
            location: Point { x: 0, y: 0, z: 0 },
            image_def_handle: Handle(0),
            display_options_flags: 0,
            clipping_state: true,
            brightness: 50,
            contrast: 50,
            fade: 0,
            clipping_type: 1,
            clipping_vertices: Seq::empty(),
            clipping_vertices_x: Seq::empty(),
            clipping_vertices_y: Seq::empty(),
        }
    }
}

impl Default for Image {
    fn default() -> (r: Image)
        ensures
            r@ == Image::default_view(),
    {
        let r = Image {
            location: Point { x: 0, y: 0, z: 0 },
            image_def_handle: Handle(0),
            display_options_flags: 0,
            clipping_state: true,
            brightness: 50,
            contrast: 50,
            fade: 0,
            clipping_type: 1,
            clipping_vertices: Vec::new(),
            clipping_vertices_x: Vec::new(),
            clipping_vertices_y: Vec::new(),
        };

        r
    }
}

/// A leader line.
#[derive(Clone, Debug, PartialEq)]
pub struct Leader {
    pub dimension_style_name: String,
    pub use_arrowheads: bool,
    pub vertices: Vec<Point>,
    pub vertices_x: Vec<u64>,
    pub vertices_y: Vec<u64>,
    pub vertices_z: Vec<u64>,
}

/// The mathematical value of a [`Leader`].
pub struct LeaderView {
    pub dimension_style_name: Seq<char>,
    pub use_arrowheads: bool,
    pub vertices: Seq<Point>,
    pub vertices_x: Seq<u64>,
    pub vertices_y: Seq<u64>,
    pub vertices_z: Seq<u64>,
}

impl View for Leader {
    type V = LeaderView;

    open spec fn view(&self) -> LeaderView {
        LeaderView {
            dimension_style_name: self.dimension_style_name@,
            use_arrowheads: self.use_arrowheads,
            vertices: self.vertices@,
            vertices_x: self.vertices_x@,
            vertices_y: self.vertices_y@,
            vertices_z: self.vertices_z@,
        }
    }
}

impl Leader {
    /// The value a new, empty `Leader` has.
    pub open spec fn default_view() -> LeaderView {
        LeaderView {
            dimension_style_name: Seq::empty(),
            use_arrowheads: true,
            vertices: Seq::empty(),
            vertices_x: Seq::empty(),
            vertices_y: Seq::empty(),
            vertices_z: Seq::empty(),
        }
    }
}

impl Default for Leader {
    fn default() -> (r: Leader)
        ensures
            r@ == Leader::default_view(),
    {
        let r = Leader {
            dimension_style_name: String::new(),
            use_arrowheads: true,
            vertices: Vec::new(),
            vertices_x: Vec::new(),
            vertices_y: Vec::new(),
            vertices_z: Vec::new(),
        };

        r
    }
}

/// Multi-line text.
#[derive(Clone, Debug, PartialEq)]
pub struct MText {
    pub insertion_point: Point,
    pub initial_text_height: u64,
    pub reference_rectangle_width: u64,
    pub attachment_point: AttachmentPoint,
    pub drawing_direction: DrawingDirection,
    pub extended_text: Vec<String>,
    pub text: String,
    pub text_style_name: String,
    pub extrusion_direction: Point,
    pub x_axis_direction: Point,
    pub horizontal_width: u64,
    pub vertical_height: u64,
    pub rotation_angle: u64,
    pub line_spacing_style: LineSpacingStyle,
    pub line_spacing_factor: u64,
    pub background_fill_setting: BackgroundFillSetting,
    pub background_color_rgb: i32,
    pub background_color_name: String,
    pub fill_box_scale: u64,
    pub background_fill_color: i16,
    pub background_fill_color_transparency: i32,
    pub column_type: i16,
    pub column_count: i32,
    pub is_column_flow_reversed: bool,
    pub is_column_auto_height: bool,
    pub column_width: u64,
    pub column_gutter: u64,
    pub column_heights: Vec<u64>,
}

/// The mathematical value of a [`MText`].
pub struct MTextView {
    pub insertion_point: Point,
    pub initial_text_height: u64,
    pub reference_rectangle_width: u64,
    pub attachment_point: AttachmentPoint,
    pub drawing_direction: DrawingDirection,
    pub extended_text: Seq<Seq<char>>,
    pub text: Seq<char>,
    pub text_style_name: Seq<char>,
    pub extrusion_direction: Point,
    pub x_axis_direction: Point,
    pub horizontal_width: u64,
    pub vertical_height: u64,
    pub rotation_angle: u64,
    pub line_spacing_style: LineSpacingStyle,
    pub line_spacing_factor: u64,
    pub background_fill_setting: BackgroundFillSetting,
    pub background_color_rgb: i32,
    pub background_color_name: Seq<char>,
    pub fill_box_scale: u64,
    pub background_fill_color: i16,
    pub background_fill_color_transparency: i32,
    pub column_type: i16,
    pub column_count: i32,
    pub is_column_flow_reversed: bool,
    pub is_column_auto_height: bool,
    pub column_width: u64,
    pub column_gutter: u64,
    pub column_heights: Seq<u64>,
}

impl View for MText {
    type V = MTextView;

    open spec fn view(&self) -> MTextView {
        MTextView {
            insertion_point: self.insertion_point,
            initial_text_height: self.initial_text_height,
            reference_rectangle_width: self.reference_rectangle_width,
            attachment_point: self.attachment_point,
            drawing_direction: self.drawing_direction,
            extended_text: self.extended_text@.map_values(|s: String| s@),
            text: self.text@,
            text_style_name: self.text_style_name@,
            extrusion_direction: self.extrusion_direction,
            x_axis_direction: self.x_axis_direction,
            horizontal_width: self.horizontal_width,
            vertical_height: self.vertical_height,
            rotation_angle: self.rotation_angle,
            line_spacing_style: self.line_spacing_style,
            line_spacing_factor: self.line_spacing_factor,
            background_fill_setting: self.background_fill_setting,
            background_color_rgb: self.background_color_rgb,
            background_color_name: self.background_color_name@,
            fill_box_scale: self.fill_box_scale,
            background_fill_color: self.background_fill_color,
            background_fill_color_transparency: self.background_fill_color_transparency,
            column_type: self.column_type,
            column_count: self.column_count,
            is_column_flow_reversed: self.is_column_flow_reversed,
            is_column_auto_height: self.is_column_auto_height,
            column_width: self.column_width,
            column_gutter: self.column_gutter,
            column_heights: self.column_heights@,
        }
    }
}

impl MText {
    /// The value a new, empty `MText` has.
    pub open spec fn default_view() -> MTextView {
        MTextView {
            insertion_point: Point { x: 0, y: 0, z: 0 },
            initial_text_height: 0,
            reference_rectangle_width: 0,
            attachment_point: AttachmentPoint::TopLeft,
            drawing_direction: DrawingDirection::LeftToRight,
            extended_text: Seq::empty(),
            text: Seq::empty(),
            text_style_name: Seq::empty(),
            extrusion_direction: Point { x: 0, y: 0, z: REAL_ONE },
            x_axis_direction: Point { x: REAL_ONE, y: 0, z: 0 },
            horizontal_width: 0,
            vertical_height: 0,
            rotation_angle: 0,
            line_spacing_style: LineSpacingStyle::AtLeast,
            line_spacing_factor: REAL_ONE,
            background_fill_setting: BackgroundFillSetting::Off,
            background_color_rgb: 0,
            background_color_name: Seq::empty(),
            fill_box_scale: REAL_ONE,
            background_fill_color: 0,
            background_fill_color_transparency: 0,
            column_type: 0,
            column_count: 0,
            is_column_flow_reversed: false,
            is_column_auto_height: false,
            column_width: 0,
            column_gutter: 0,
            column_heights: Seq::empty(),
        }
    }
}

impl Default for MText {
    fn default() -> (r: MText)
        ensures
            r@ == MText::default_view(),
    {
        let r = MText {
            insertion_point: Point { x: 0, y: 0, z: 0 },
            initial_text_height: 0,
            reference_rectangle_width: 0,
            attachment_point: AttachmentPoint::TopLeft,
            drawing_direction: DrawingDirection::LeftToRight,
            extended_text: Vec::new(),
            text: String::new(),
            text_style_name: String::new(),
            extrusion_direction: Point { x: 0, y: 0, z: REAL_ONE },
            x_axis_direction: Point { x: REAL_ONE, y: 0, z: 0 },
            horizontal_width: 0,
            vertical_height: 0,
            rotation_angle: 0,
            line_spacing_style: LineSpacingStyle::AtLeast,
            line_spacing_factor: REAL_ONE,
            background_fill_setting: BackgroundFillSetting::Off,
            background_color_rgb: 0,
            background_color_name: String::new(),
            fill_box_scale: REAL_ONE,
            background_fill_color: 0,
            background_fill_color_transparency: 0,
            column_type: 0,
            column_count: 0,
            is_column_flow_reversed: false,
            is_column_auto_height: false,
            column_width: 0,
            column_gutter: 0,
            column_heights: Vec::new(),
        };

        assert(r@.extended_text =~= Seq::empty());
        r
    }
}

/// A light-weight polyline: a flat list of two-dimensional vertices.
#[derive(Clone, Debug, PartialEq)]
pub struct LwPolyline {
    pub flags: i32,
    pub constant_width: u64,
    pub thickness: u64,
    pub extrusion_direction: Point,
    pub vertices: Vec<LwPolylineVertex>,
}

/// The mathematical value of a [`LwPolyline`].
pub struct LwPolylineView {
    pub flags: i32,
    pub constant_width: u64,
    pub thickness: u64,
    pub extrusion_direction: Point,
    pub vertices: Seq<LwPolylineVertex>,
}

impl View for LwPolyline {
    type V = LwPolylineView;

    open spec fn view(&self) -> LwPolylineView {
        LwPolylineView {
            flags: self.flags,
            constant_width: self.constant_width,
            thickness: self.thickness,
            extrusion_direction: self.extrusion_direction,
            vertices: self.vertices@,
        }
    }
}

impl LwPolyline {
    /// The value a new, empty `LwPolyline` has.
    pub open spec fn default_view() -> LwPolylineView {
        LwPolylineView {
            flags: 0,
            constant_width: 0,
            thickness: 0,
            extrusion_direction: Point { x: 0, y: 0, z: REAL_ONE },
            vertices: Seq::empty(),
        }
    }
}

impl Default for LwPolyline {
    fn default() -> (r: LwPolyline)
        ensures
            r@ == LwPolyline::default_view(),
    {
        let r = LwPolyline {
            flags: 0,
            constant_width: 0,
            thickness: 0,
            extrusion_direction: Point { x: 0, y: 0, z: REAL_ONE },
            vertices: Vec::new(),
        };

        assert(r@.vertices =~= Seq::empty());
        r
    }
}

/// The fields that attributes and attribute definitions share.
#[derive(Clone, Debug, PartialEq)]
pub struct AttributeFields {
    pub value: String,
    pub x_record_tag: String,
    pub text_style_name: String,
    pub location: Point,
    pub alignment_point: Point,
    pub second_alignment_point: Point,
    pub thickness: u64,
    pub text_height: u64,
    pub annotation_scale: u64,
    pub relative_x_scale_factor: u64,
    pub rotation: u64,
    pub oblique_angle: u64,
    pub m_text_flag: MTextFlag,
    pub is_really_locked: bool,
    pub secondary_attribute_count: i32,
    pub flags: i32,
    pub text_generation_flags: i32,
    pub horizontal_text_justification: HorizontalTextJustification,
    pub field_length: i16,
    pub vertical_text_justification: VerticalTextJustification,
    pub normal: Point,
    pub keep_duplicate_records: bool,
    pub version: Version,
    pub is_locked_in_block: bool,
    pub secondary_attributes_handle: Vec<Handle>,
}

/// The mathematical value of a [`AttributeFields`].
pub struct AttributeFieldsView {
    pub value: Seq<char>,
    pub x_record_tag: Seq<char>,
    pub text_style_name: Seq<char>,
    pub location: Point,
    pub alignment_point: Point,
    pub second_alignment_point: Point,
    pub thickness: u64,
    pub text_height: u64,
    pub annotation_scale: u64,
    pub relative_x_scale_factor: u64,
    pub rotation: u64,
    pub oblique_angle: u64,
    pub m_text_flag: MTextFlag,
    pub is_really_locked: bool,
    pub secondary_attribute_count: i32,
    pub flags: i32,
    pub text_generation_flags: i32,
    pub horizontal_text_justification: HorizontalTextJustification,
    pub field_length: i16,
    pub vertical_text_justification: VerticalTextJustification,
    pub normal: Point,
    pub keep_duplicate_records: bool,
    pub version: Version,
    pub is_locked_in_block: bool,
    pub secondary_attributes_handle: Seq<Handle>,
}

impl View for AttributeFields {
    type V = AttributeFieldsView;

    open spec fn view(&self) -> AttributeFieldsView {
        AttributeFieldsView {
            value: self.value@,
            x_record_tag: self.x_record_tag@,
            text_style_name: self.text_style_name@,
            location: self.location,
            alignment_point: self.alignment_point,
            second_alignment_point: self.second_alignment_point,
            thickness: self.thickness,
            text_height: self.text_height,
            annotation_scale: self.annotation_scale,
            relative_x_scale_factor: self.relative_x_scale_factor,
            rotation: self.rotation,
            oblique_angle: self.oblique_angle,
            m_text_flag: self.m_text_flag,
            is_really_locked: self.is_really_locked,
            secondary_attribute_count: self.secondary_attribute_count,
            flags: self.flags,
            text_generation_flags: self.text_generation_flags,
            horizontal_text_justification: self.horizontal_text_justification,
            field_length: self.field_length,
            vertical_text_justification: self.vertical_text_justification,
            normal: self.normal,
            keep_duplicate_records: self.keep_duplicate_records,
            version: self.version,
            is_locked_in_block: self.is_locked_in_block,
            secondary_attributes_handle: self.secondary_attributes_handle@,
        }
    }
}

impl AttributeFields {
    /// The value a new, empty `AttributeFields` has.
    pub open spec fn default_view() -> AttributeFieldsView {
        AttributeFieldsView {
            value: Seq::empty(),
            x_record_tag: Seq::empty(),
            text_style_name: Seq::empty(),
            location: Point { x: 0, y: 0, z: 0 },
            alignment_point: Point { x: 0, y: 0, z: 0 },
            second_alignment_point: Point { x: 0, y: 0, z: 0 },
            thickness: 0,
            text_height: REAL_ONE,
            annotation_scale: REAL_ONE,
            relative_x_scale_factor: REAL_ONE,
            rotation: 0,
            oblique_angle: 0,
            m_text_flag: MTextFlag::MultilineAttribute,
            is_really_locked: false,
            secondary_attribute_count: 0,
            flags: 0,
            text_generation_flags: 0,
            horizontal_text_justification: HorizontalTextJustification::Left,
            field_length: 0,
            vertical_text_justification: VerticalTextJustification::Baseline,
            normal: Point { x: 0, y: 0, z: REAL_ONE },
            keep_duplicate_records: false,
            version: Version::R2010,
            is_locked_in_block: false,
            secondary_attributes_handle: Seq::empty(),
        }
    }
}

impl Default for AttributeFields {
    fn default() -> (r: AttributeFields)
        ensures
            r@ == AttributeFields::default_view(),
    {
        let r = AttributeFields {
            value: String::new(),
            x_record_tag: String::new(),
            text_style_name: String::new(),
            location: Point { x: 0, y: 0, z: 0 },
            alignment_point: Point { x: 0, y: 0, z: 0 },
            second_alignment_point: Point { x: 0, y: 0, z: 0 },
            thickness: 0,
            text_height: REAL_ONE,
            annotation_scale: REAL_ONE,
            relative_x_scale_factor: REAL_ONE,
            rotation: 0,
            oblique_angle: 0,
            m_text_flag: MTextFlag::MultilineAttribute,
            is_really_locked: false,
            secondary_attribute_count: 0,
            flags: 0,
            text_generation_flags: 0,
            horizontal_text_justification: HorizontalTextJustification::Left,
            field_length: 0,
            vertical_text_justification: VerticalTextJustification::Baseline,
            normal: Point { x: 0, y: 0, z: REAL_ONE },
            keep_duplicate_records: false,
            version: Version::R2010,
            is_locked_in_block: false,
            secondary_attributes_handle: Vec::new(),
        };

        r
    }
}

/// A text value attached to a block reference.
#[derive(Clone, Debug, PartialEq)]
pub struct Attribute {
    pub attribute_tag: String,
    pub fields: AttributeFields,
    pub m_text: MText,
}

/// The mathematical value of a [`Attribute`].
pub struct AttributeView {
    pub attribute_tag: Seq<char>,
    pub fields: AttributeFieldsView,
    pub m_text: MTextView,
}

impl View for Attribute {
    type V = AttributeView;

    open spec fn view(&self) -> AttributeView {
        AttributeView {
            attribute_tag: self.attribute_tag@,
            fields: self.fields@,
            m_text: self.m_text@,
        }
    }
}

impl Attribute {
    /// The value a new, empty `Attribute` has.
    pub open spec fn default_view() -> AttributeView {
        AttributeView {
            attribute_tag: Seq::empty(),
            fields: AttributeFields::default_view(),
            m_text: MText::default_view(),
        }
    }
}

impl Default for Attribute {
    fn default() -> (r: Attribute)
        ensures
            r@ == Attribute::default_view(),
    {
        let r = Attribute {
            attribute_tag: String::new(),
            fields: AttributeFields::default(),
            m_text: MText::default(),
        };

        r
    }
}

/// The template from which attributes of a block are made.
#[derive(Clone, Debug, PartialEq)]
pub struct AttributeDefinition {
    pub text_tag: String,
    pub prompt: String,
    pub fields: AttributeFields,
    pub m_text: MText,
}

/// The mathematical value of a [`AttributeDefinition`].
pub struct AttributeDefinitionView {
    pub text_tag: Seq<char>,
    pub prompt: Seq<char>,
    pub fields: AttributeFieldsView,
    pub m_text: MTextView,
}

impl View for AttributeDefinition {
    type V = AttributeDefinitionView;

    open spec fn view(&self) -> AttributeDefinitionView {
        AttributeDefinitionView {
            text_tag: self.text_tag@,
            prompt: self.prompt@,
            fields: self.fields@,
            m_text: self.m_text@,
        }
    }
}

impl AttributeDefinition {
    /// The value a new, empty `AttributeDefinition` has.
    pub open spec fn default_view() -> AttributeDefinitionView {
        AttributeDefinitionView {
            text_tag: Seq::empty(),
            prompt: Seq::empty(),
            fields: AttributeFields::default_view(),
            m_text: MText::default_view(),
        }
    }
}

impl Default for AttributeDefinition {
    fn default() -> (r: AttributeDefinition)
        ensures
            r@ == AttributeDefinition::default_view(),
    {
        let r = AttributeDefinition {
            text_tag: String::new(),
            prompt: String::new(),
            fields: AttributeFields::default(),
            m_text: MText::default(),
        };

        r
    }
}

/// A reference to a block, optionally owning attributes.
#[derive(Clone, Debug, PartialEq)]
pub struct Insert {
    pub block_name: String,
    pub location: Point,
    pub x_scale_factor: u64,
    pub y_scale_factor: u64,
    pub z_scale_factor: u64,
    pub rotation: u64,
    pub has_attributes: bool,
    pub extrusion_direction: Point,
    pub attributes_and_handles: Vec<(Attribute, Handle)>,
}

/// The mathematical value of a [`Insert`].
pub struct InsertView {
    pub block_name: Seq<char>,
    pub location: Point,
    pub x_scale_factor: u64,
    pub y_scale_factor: u64,
    pub z_scale_factor: u64,
    pub rotation: u64,
    pub has_attributes: bool,
    pub extrusion_direction: Point,
    pub attributes_and_handles: Seq<(AttributeView, Handle)>,
}

impl View for Insert {
    type V = InsertView;

    open spec fn view(&self) -> InsertView {
        InsertView {
            block_name: self.block_name@,
            location: self.location,
            x_scale_factor: self.x_scale_factor,
            y_scale_factor: self.y_scale_factor,
            z_scale_factor: self.z_scale_factor,
            rotation: self.rotation,
            has_attributes: self.has_attributes,
            extrusion_direction: self.extrusion_direction,
            attributes_and_handles: self.attributes_and_handles@.map_values(|a: (Attribute, Handle)| (a.0@, a.1)),
        }
    }
}

impl Insert {
    /// The value a new, empty `Insert` has.
    pub open spec fn default_view() -> InsertView {
        InsertView {
            block_name: Seq::empty(),
            location: Point { x: 0, y: 0, z: 0 },
            x_scale_factor: REAL_ONE,
            y_scale_factor: REAL_ONE,
            z_scale_factor: REAL_ONE,
            rotation: 0,
            has_attributes: false,
            extrusion_direction: Point { x: 0, y: 0, z: REAL_ONE },
            attributes_and_handles: Seq::empty(),
        }
    }
}

impl Default for Insert {
    fn default() -> (r: Insert)
        ensures
            r@ == Insert::default_view(),
    {
        let r = Insert {
            block_name: String::new(),
            location: Point { x: 0, y: 0, z: 0 },
            x_scale_factor: REAL_ONE,
            y_scale_factor: REAL_ONE,
            z_scale_factor: REAL_ONE,
            rotation: 0,
            has_attributes: false,
            extrusion_direction: Point { x: 0, y: 0, z: REAL_ONE },
            attributes_and_handles: Vec::new(),
        };

        assert(r@.attributes_and_handles =~= Seq::empty());
        r
    }
}

/// A polyline whose vertices are separate entities that it owns.
#[derive(Clone, Debug, PartialEq)]
pub struct Polyline {
    pub contains_vertices: bool,
    pub location: Point,
    pub thickness: u64,
    pub flags: i32,
    pub default_starting_width: u64,
    pub default_ending_width: u64,
    pub polygon_mesh_m_vertex_count: i32,
    pub polygon_mesh_n_vertex_count: i32,
    pub smooth_surface_m_density: i32,
    pub smooth_surface_n_density: i32,
    pub surface_type: PolylineCurvedAndSmoothSurfaceType,
    pub normal: Point,
    pub vertices_and_handles: Vec<(Vertex, Handle)>,
}

/// The mathematical value of a [`Polyline`].
pub struct PolylineView {
    pub contains_vertices: bool,
    pub location: Point,
    pub thickness: u64,
    pub flags: i32,
    pub default_starting_width: u64,
    pub default_ending_width: u64,
    pub polygon_mesh_m_vertex_count: i32,
    pub polygon_mesh_n_vertex_count: i32,
    pub smooth_surface_m_density: i32,
    pub smooth_surface_n_density: i32,
    pub surface_type: PolylineCurvedAndSmoothSurfaceType,
    pub normal: Point,
    pub vertices_and_handles: Seq<(Vertex, Handle)>,
}

impl View for Polyline {
    type V = PolylineView;

    open spec fn view(&self) -> PolylineView {
        PolylineView {
            contains_vertices: self.contains_vertices,
            location: self.location,
            thickness: self.thickness,
            flags: self.flags,
            default_starting_width: self.default_starting_width,
            default_ending_width: self.default_ending_width,
            polygon_mesh_m_vertex_count: self.polygon_mesh_m_vertex_count,
            polygon_mesh_n_vertex_count: self.polygon_mesh_n_vertex_count,
            smooth_surface_m_density: self.smooth_surface_m_density,
            smooth_surface_n_density: self.smooth_surface_n_density,
            surface_type: self.surface_type,
            normal: self.normal,
            vertices_and_handles: self.vertices_and_handles@,
        }
    }
}

impl Polyline {
    /// The value a new, empty `Polyline` has.
    pub open spec fn default_view() -> PolylineView {
        PolylineView {
            contains_vertices: true,
            location: Point { x: 0, y: 0, z: 0 },
            thickness: 0,
            flags: 0,
            default_starting_width: 0,
            default_ending_width: 0,
            polygon_mesh_m_vertex_count: 0,
            polygon_mesh_n_vertex_count: 0,
            smooth_surface_m_density: 0,
            smooth_surface_n_density: 0,
            surface_type: PolylineCurvedAndSmoothSurfaceType::NoSmoothing,
            normal: Point { x: 0, y: 0, z: REAL_ONE },
            vertices_and_handles: Seq::empty(),
        }
    }
}

impl Default for Polyline {
    fn default() -> (r: Polyline)
        ensures
            r@ == Polyline::default_view(),
    {
        let r = Polyline {
            contains_vertices: true,
            location: Point { x: 0, y: 0, z: 0 },
            thickness: 0,
            flags: 0,
            default_starting_width: 0,
            default_ending_width: 0,
            polygon_mesh_m_vertex_count: 0,
            polygon_mesh_n_vertex_count: 0,
            smooth_surface_m_density: 0,
            smooth_surface_n_density: 0,
            surface_type: PolylineCurvedAndSmoothSurfaceType::NoSmoothing,
            normal: Point { x: 0, y: 0, z: REAL_ONE },
            vertices_and_handles: Vec::new(),
        };

        assert(r@.vertices_and_handles =~= Seq::empty());
        r
    }
}

/// The fields every dimension shares.
#[derive(Clone, Debug, PartialEq)]
pub struct DimensionBase {
    pub version: Version,
    pub block_name: String,
    pub definition_point_1: Point,
    pub text_mid_point: Point,
    pub dimension_type: DimensionType,
    pub is_block_reference_referenced_by_this_block_only: bool,
    pub is_ordinate_x_type: bool,
    pub is_at_user_defined_location: bool,
    pub attachment_point: AttachmentPoint,
    pub text_line_spacing_style: LineSpacingStyle,
    pub text_line_spacing_factor: u64,
    pub actual_measurement: u64,
    pub text: String,
    pub text_rotation_angle: u64,
    pub horizontal_direction_angle: u64,
    pub normal: Point,
    pub dimension_style_name: String,
}

/// The mathematical value of a [`DimensionBase`].
pub struct DimensionBaseView {
    pub version: Version,
    pub block_name: Seq<char>,
    pub definition_point_1: Point,
    pub text_mid_point: Point,
    pub dimension_type: DimensionType,
    pub is_block_reference_referenced_by_this_block_only: bool,
    pub is_ordinate_x_type: bool,
    pub is_at_user_defined_location: bool,
    pub attachment_point: AttachmentPoint,
    pub text_line_spacing_style: LineSpacingStyle,
    pub text_line_spacing_factor: u64,
    pub actual_measurement: u64,
    pub text: Seq<char>,
    pub text_rotation_angle: u64,
    pub horizontal_direction_angle: u64,
    pub normal: Point,
    pub dimension_style_name: Seq<char>,
}

impl View for DimensionBase {
    type V = DimensionBaseView;

    open spec fn view(&self) -> DimensionBaseView {
        DimensionBaseView {
            version: self.version,
            block_name: self.block_name@,
            definition_point_1: self.definition_point_1,
            text_mid_point: self.text_mid_point,
            dimension_type: self.dimension_type,
            is_block_reference_referenced_by_this_block_only: self.is_block_reference_referenced_by_this_block_only,
            is_ordinate_x_type: self.is_ordinate_x_type,
            is_at_user_defined_location: self.is_at_user_defined_location,
            attachment_point: self.attachment_point,
            text_line_spacing_style: self.text_line_spacing_style,
            text_line_spacing_factor: self.text_line_spacing_factor,
            actual_measurement: self.actual_measurement,
            text: self.text@,
            text_rotation_angle: self.text_rotation_angle,
            horizontal_direction_angle: self.horizontal_direction_angle,
            normal: self.normal,
            dimension_style_name: self.dimension_style_name@,
        }
    }
}

impl DimensionBase {
    /// The value a new, empty `DimensionBase` has.
    pub open spec fn default_view() -> DimensionBaseView {
        DimensionBaseView {
            version: Version::R2010,
            block_name: Seq::empty(),
            definition_point_1: Point { x: 0, y: 0, z: 0 },
            text_mid_point: Point { x: 0, y: 0, z: 0 },
            dimension_type: DimensionType::RotatedHorizontalOrVertical,
            is_block_reference_referenced_by_this_block_only: false,
            is_ordinate_x_type: false,
            is_at_user_defined_location: false,
            attachment_point: AttachmentPoint::TopLeft,
            text_line_spacing_style: LineSpacingStyle::AtLeast,
            text_line_spacing_factor: REAL_ONE,
            actual_measurement: 0,
            text: Seq::empty(),
            text_rotation_angle: 0,
            horizontal_direction_angle: 0,
            normal: Point { x: 0, y: 0, z: REAL_ONE },
            dimension_style_name: Seq::empty(),
        }
    }
}

impl Default for DimensionBase {
    fn default() -> (r: DimensionBase)
        ensures
            r@ == DimensionBase::default_view(),
    {
        let r = DimensionBase {
            version: Version::R2010,
            block_name: String::new(),
            definition_point_1: Point { x: 0, y: 0, z: 0 },
            text_mid_point: Point { x: 0, y: 0, z: 0 },
            dimension_type: DimensionType::RotatedHorizontalOrVertical,
            is_block_reference_referenced_by_this_block_only: false,
            is_ordinate_x_type: false,
            is_at_user_defined_location: false,
            attachment_point: AttachmentPoint::TopLeft,
            text_line_spacing_style: LineSpacingStyle::AtLeast,
            text_line_spacing_factor: REAL_ONE,
            actual_measurement: 0,
            text: String::new(),
            text_rotation_angle: 0,
            horizontal_direction_angle: 0,
            normal: Point { x: 0, y: 0, z: REAL_ONE },
            dimension_style_name: String::new(),
        };

        r
    }
}

/// A linear dimension measured along a rotated direction.
#[derive(Clone, Debug, PartialEq)]
pub struct RotatedDimension {
    pub dimension_base: DimensionBase,
    pub insertion_point: Point,
    pub definition_point_2: Point,
    pub definition_point_3: Point,
    pub rotation_angle: u64,
    pub extension_line_angle: u64,
}

/// The mathematical value of a [`RotatedDimension`].
pub struct RotatedDimensionView {
    pub dimension_base: DimensionBaseView,
    pub insertion_point: Point,
    pub definition_point_2: Point,
    pub definition_point_3: Point,
    pub rotation_angle: u64,
    pub extension_line_angle: u64,
}

impl View for RotatedDimension {
    type V = RotatedDimensionView;

    open spec fn view(&self) -> RotatedDimensionView {
        RotatedDimensionView {
            dimension_base: self.dimension_base@,
            insertion_point: self.insertion_point,
            definition_point_2: self.definition_point_2,
            definition_point_3: self.definition_point_3,
            rotation_angle: self.rotation_angle,
            extension_line_angle: self.extension_line_angle,
        }
    }
}

impl RotatedDimension {
    /// The value a new, empty `RotatedDimension` has.
    pub open spec fn default_view() -> RotatedDimensionView {
        RotatedDimensionView {
            dimension_base: DimensionBase::default_view(),
            insertion_point: Point { x: 0, y: 0, z: 0 },
            definition_point_2: Point { x: 0, y: 0, z: 0 },
            definition_point_3: Point { x: 0, y: 0, z: 0 },
            rotation_angle: 0,
            extension_line_angle: 0,
        }
    }
}

impl Default for RotatedDimension {
    fn default() -> (r: RotatedDimension)
        ensures
            r@ == RotatedDimension::default_view(),
    {
        let r = RotatedDimension {
            dimension_base: DimensionBase::default(),
            insertion_point: Point { x: 0, y: 0, z: 0 },
            definition_point_2: Point { x: 0, y: 0, z: 0 },
            definition_point_3: Point { x: 0, y: 0, z: 0 },
            rotation_angle: 0,
            extension_line_angle: 0,
        };

        r
    }
}

/// A dimension of a radius.
#[derive(Clone, Debug, PartialEq)]
pub struct RadialDimension {
    pub dimension_base: DimensionBase,
    pub definition_point_2: Point,
    pub leader_length: u64,
}

/// The mathematical value of a [`RadialDimension`].
pub struct RadialDimensionView {
    pub dimension_base: DimensionBaseView,
    pub definition_point_2: Point,
    pub leader_length: u64,
}

impl View for RadialDimension {
    type V = RadialDimensionView;

    open spec fn view(&self) -> RadialDimensionView {
        RadialDimensionView {
            dimension_base: self.dimension_base@,
            definition_point_2: self.definition_point_2,
            leader_length: self.leader_length,
        }
    }
}

impl RadialDimension {
    /// The value a new, empty `RadialDimension` has.
    pub open spec fn default_view() -> RadialDimensionView {
        RadialDimensionView {
            dimension_base: DimensionBase::default_view(),
            definition_point_2: Point { x: 0, y: 0, z: 0 },
            leader_length: 0,
        }
    }
}

impl Default for RadialDimension {
    fn default() -> (r: RadialDimension)
        ensures
            r@ == RadialDimension::default_view(),
    {
        let r = RadialDimension {
            dimension_base: DimensionBase::default(),
            definition_point_2: Point { x: 0, y: 0, z: 0 },
            leader_length: 0,
        };

        r
    }
}

/// A dimension of a diameter.
#[derive(Clone, Debug, PartialEq)]
pub struct DiameterDimension {
    pub dimension_base: DimensionBase,
    pub definition_point_2: Point,
    pub leader_length: u64,
}

/// The mathematical value of a [`DiameterDimension`].
pub struct DiameterDimensionView {
    pub dimension_base: DimensionBaseView,
    pub definition_point_2: Point,
    pub leader_length: u64,
}

impl View for DiameterDimension {
    type V = DiameterDimensionView;

    open spec fn view(&self) -> DiameterDimensionView {
        DiameterDimensionView {
            dimension_base: self.dimension_base@,
            definition_point_2: self.definition_point_2,
            leader_length: self.leader_length,
        }
    }
}

impl DiameterDimension {
    /// The value a new, empty `DiameterDimension` has.
    pub open spec fn default_view() -> DiameterDimensionView {
        DiameterDimensionView {
            dimension_base: DimensionBase::default_view(),
            definition_point_2: Point { x: 0, y: 0, z: 0 },
            leader_length: 0,
        }
    }
}

impl Default for DiameterDimension {
    fn default() -> (r: DiameterDimension)
        ensures
            r@ == DiameterDimension::default_view(),
    {
        let r = DiameterDimension {
            dimension_base: DimensionBase::default(),
            definition_point_2: Point { x: 0, y: 0, z: 0 },
            leader_length: 0,
        };

        r
    }
}

/// An angular dimension given by three points.
#[derive(Clone, Debug, PartialEq)]
pub struct AngularThreePointDimension {
    pub dimension_base: DimensionBase,
    pub definition_point_2: Point,
    pub definition_point_3: Point,
    pub definition_point_4: Point,
    pub definition_point_5: Point,
}

/// The mathematical value of a [`AngularThreePointDimension`].
pub struct AngularThreePointDimensionView {
    pub dimension_base: DimensionBaseView,
    pub definition_point_2: Point,
    pub definition_point_3: Point,
    pub definition_point_4: Point,
    pub definition_point_5: Point,
}

impl View for AngularThreePointDimension {
    type V = AngularThreePointDimensionView;

    open spec fn view(&self) -> AngularThreePointDimensionView {
        AngularThreePointDimensionView {
            dimension_base: self.dimension_base@,
            definition_point_2: self.definition_point_2,
            definition_point_3: self.definition_point_3,
            definition_point_4: self.definition_point_4,
            definition_point_5: self.definition_point_5,
        }
    }
}

impl AngularThreePointDimension {
    /// The value a new, empty `AngularThreePointDimension` has.
    pub open spec fn default_view() -> AngularThreePointDimensionView {
        AngularThreePointDimensionView {
            dimension_base: DimensionBase::default_view(),
            definition_point_2: Point { x: 0, y: 0, z: 0 },
            definition_point_3: Point { x: 0, y: 0, z: 0 },
            definition_point_4: Point { x: 0, y: 0, z: 0 },
            definition_point_5: Point { x: 0, y: 0, z: 0 },
        }
    }
}

impl Default for AngularThreePointDimension {
    fn default() -> (r: AngularThreePointDimension)
        ensures
            r@ == AngularThreePointDimension::default_view(),
    {
        let r = AngularThreePointDimension {
            dimension_base: DimensionBase::default(),
            definition_point_2: Point { x: 0, y: 0, z: 0 },
            definition_point_3: Point { x: 0, y: 0, z: 0 },
            definition_point_4: Point { x: 0, y: 0, z: 0 },
            definition_point_5: Point { x: 0, y: 0, z: 0 },
        };

        r
    }
}

/// A dimension of one coordinate of a point.
#[derive(Clone, Debug, PartialEq)]
pub struct OrdinateDimension {
    pub dimension_base: DimensionBase,
    pub definition_point_2: Point,
    pub definition_point_3: Point,
}

/// The mathematical value of a [`OrdinateDimension`].
pub struct OrdinateDimensionView {
    pub dimension_base: DimensionBaseView,
    pub definition_point_2: Point,
    pub definition_point_3: Point,
}

impl View for OrdinateDimension {
    type V = OrdinateDimensionView;

    open spec fn view(&self) -> OrdinateDimensionView {
        OrdinateDimensionView {
            dimension_base: self.dimension_base@,
            definition_point_2: self.definition_point_2,
            definition_point_3: self.definition_point_3,
        }
    }
}

impl OrdinateDimension {
    /// The value a new, empty `OrdinateDimension` has.
    pub open spec fn default_view() -> OrdinateDimensionView {
        OrdinateDimensionView {
            dimension_base: DimensionBase::default_view(),
            definition_point_2: Point { x: 0, y: 0, z: 0 },
            definition_point_3: Point { x: 0, y: 0, z: 0 },
        }
    }
}

impl Default for OrdinateDimension {
    fn default() -> (r: OrdinateDimension)
        ensures
            r@ == OrdinateDimension::default_view(),
    {
        let r = OrdinateDimension {
            dimension_base: DimensionBase::default(),
            definition_point_2: Point { x: 0, y: 0, z: 0 },
            definition_point_3: Point { x: 0, y: 0, z: 0 },
        };

        r
    }
}

/// The specific data of an entity: one variant per kind.
#[derive(Clone, Debug, PartialEq)]
pub enum EntityType {
    Line(Line),
    Circle(Circle),
    Arc(Arc),
    Face3D(Face3D),
    Solid(Solid),
    Trace(Trace),
    ModelPoint(ModelPoint),
    ProxyEntity(ProxyEntity),
    Solid3D(Solid3D),
    Image(Image),
    Leader(Leader),
    MText(MText),
    LwPolyline(LwPolyline),
    Attribute(Attribute),
    AttributeDefinition(AttributeDefinition),
    Insert(Insert),
    Polyline(Polyline),
    Vertex(Vertex),
    Seqend(Seqend),
    RotatedDimension(RotatedDimension),
    RadialDimension(RadialDimension),
    DiameterDimension(DiameterDimension),
    AngularThreePointDimension(AngularThreePointDimension),
    OrdinateDimension(OrdinateDimension),
}

/// The mathematical value of an [`EntityType`].
pub enum EntityTypeView {
    Line(Line),
    Circle(Circle),
    Arc(Arc),
    Face3D(Face3D),
    Solid(Solid),
    Trace(Trace),
    ModelPoint(ModelPoint),
    ProxyEntity(ProxyEntity),
    Solid3D(Solid3DView),
    Image(ImageView),
    Leader(LeaderView),
    MText(MTextView),
    LwPolyline(LwPolylineView),
    Attribute(AttributeView),
    AttributeDefinition(AttributeDefinitionView),
    Insert(InsertView),
    Polyline(PolylineView),
    Vertex(Vertex),
    Seqend(Seqend),
    RotatedDimension(RotatedDimensionView),
    RadialDimension(RadialDimensionView),
    DiameterDimension(DiameterDimensionView),
    AngularThreePointDimension(AngularThreePointDimensionView),
    OrdinateDimension(OrdinateDimensionView),
}

impl View for EntityType {
    type V = EntityTypeView;

    open spec fn view(&self) -> EntityTypeView {
        match self {
            EntityType::Line(e) => EntityTypeView::Line(*e),
            EntityType::Circle(e) => EntityTypeView::Circle(*e),
            EntityType::Arc(e) => EntityTypeView::Arc(*e),
            EntityType::Face3D(e) => EntityTypeView::Face3D(*e),
            EntityType::Solid(e) => EntityTypeView::Solid(*e),
            EntityType::Trace(e) => EntityTypeView::Trace(*e),
            EntityType::ModelPoint(e) => EntityTypeView::ModelPoint(*e),
            EntityType::ProxyEntity(e) => EntityTypeView::ProxyEntity(*e),
            EntityType::Solid3D(e) => EntityTypeView::Solid3D(e@),
            EntityType::Image(e) => EntityTypeView::Image(e@),
            EntityType::Leader(e) => EntityTypeView::Leader(e@),
            EntityType::MText(e) => EntityTypeView::MText(e@),
            EntityType::LwPolyline(e) => EntityTypeView::LwPolyline(e@),
            EntityType::Attribute(e) => EntityTypeView::Attribute(e@),
            EntityType::AttributeDefinition(e) => EntityTypeView::AttributeDefinition(e@),
            EntityType::Insert(e) => EntityTypeView::Insert(e@),
            EntityType::Polyline(e) => EntityTypeView::Polyline(e@),
            EntityType::Vertex(e) => EntityTypeView::Vertex(*e),
            EntityType::Seqend(e) => EntityTypeView::Seqend(*e),
            EntityType::RotatedDimension(e) => EntityTypeView::RotatedDimension(e@),
            EntityType::RadialDimension(e) => EntityTypeView::RadialDimension(e@),
            EntityType::DiameterDimension(e) => EntityTypeView::DiameterDimension(e@),
            EntityType::AngularThreePointDimension(e) => EntityTypeView::AngularThreePointDimension(e@),
            EntityType::OrdinateDimension(e) => EntityTypeView::OrdinateDimension(e@),
        }
    }
}

impl EntityTypeView {
    /// The type name written in an entity's tag.
    pub open spec fn type_string(self) -> Seq<char> {
        match self {
            EntityTypeView::Line(_) => "LINE"@,
            EntityTypeView::Circle(_) => "CIRCLE"@,
            EntityTypeView::Arc(_) => "ARC"@,
            EntityTypeView::Face3D(_) => "3DFACE"@,
            EntityTypeView::Solid(_) => "SOLID"@,
            EntityTypeView::Trace(_) => "TRACE"@,
            EntityTypeView::ModelPoint(_) => "POINT"@,
            EntityTypeView::ProxyEntity(_) => "ACAD_PROXY_ENTITY"@,
            EntityTypeView::Solid3D(_) => "3DSOLID"@,
            EntityTypeView::Image(_) => "IMAGE"@,
            EntityTypeView::Leader(_) => "LEADER"@,
            EntityTypeView::MText(_) => "MTEXT"@,
            EntityTypeView::LwPolyline(_) => "LWPOLYLINE"@,
            EntityTypeView::Attribute(_) => "ATTRIB"@,
            EntityTypeView::AttributeDefinition(_) => "ATTDEF"@,
            EntityTypeView::Insert(_) => "INSERT"@,
            EntityTypeView::Polyline(_) => "POLYLINE"@,
            EntityTypeView::Vertex(_) => "VERTEX"@,
            EntityTypeView::Seqend(_) => "SEQEND"@,
            EntityTypeView::RotatedDimension(_) => "DIMENSION"@,
            EntityTypeView::RadialDimension(_) => "DIMENSION"@,
            EntityTypeView::DiameterDimension(_) => "DIMENSION"@,
            EntityTypeView::AngularThreePointDimension(_) => "DIMENSION"@,
            EntityTypeView::OrdinateDimension(_) => "DIMENSION"@,
        }
    }

    /// The oldest format version that can hold this kind.
    pub open spec fn min_version(self) -> AcadVersion {
        match self {
            EntityTypeView::Line(_) => AcadVersion::R10,
            EntityTypeView::Circle(_) => AcadVersion::R10,
            EntityTypeView::Arc(_) => AcadVersion::R10,
            EntityTypeView::Face3D(_) => AcadVersion::R10,
            EntityTypeView::Solid(_) => AcadVersion::R10,
            EntityTypeView::Trace(_) => AcadVersion::R10,
            EntityTypeView::ModelPoint(_) => AcadVersion::R10,
            EntityTypeView::ProxyEntity(_) => AcadVersion::R14,
            EntityTypeView::Solid3D(_) => AcadVersion::R13,
            EntityTypeView::Image(_) => AcadVersion::R14,
            EntityTypeView::Leader(_) => AcadVersion::R13,
            EntityTypeView::MText(_) => AcadVersion::R13,
            EntityTypeView::LwPolyline(_) => AcadVersion::R13,
            EntityTypeView::Attribute(_) => AcadVersion::R10,
            EntityTypeView::AttributeDefinition(_) => AcadVersion::R10,
            EntityTypeView::Insert(_) => AcadVersion::R10,
            EntityTypeView::Polyline(_) => AcadVersion::R10,
            EntityTypeView::Vertex(_) => AcadVersion::R10,
            EntityTypeView::Seqend(_) => AcadVersion::R10,
            EntityTypeView::RotatedDimension(_) => AcadVersion::R10,
            EntityTypeView::RadialDimension(_) => AcadVersion::R10,
            EntityTypeView::DiameterDimension(_) => AcadVersion::R10,
            EntityTypeView::AngularThreePointDimension(_) => AcadVersion::R10,
            EntityTypeView::OrdinateDimension(_) => AcadVersion::R10,
        }
    }

    /// Whether this kind can be written in the given version.
    pub open spec fn is_supported_on_version(self, version: AcadVersion) -> bool {
        version.spec_at_least(self.min_version())
    }
}

impl EntityType {
    /// The type name written in an entity's tag.
    pub fn to_type_string(&self) -> (r: &'static str)
        ensures
            r@ == self@.type_string(),
    {
        match self {
            EntityType::Line(_) => "LINE",
            EntityType::Circle(_) => "CIRCLE",
            EntityType::Arc(_) => "ARC",
            EntityType::Face3D(_) => "3DFACE",
            EntityType::Solid(_) => "SOLID",
            EntityType::Trace(_) => "TRACE",
            EntityType::ModelPoint(_) => "POINT",
            EntityType::ProxyEntity(_) => "ACAD_PROXY_ENTITY",
            EntityType::Solid3D(_) => "3DSOLID",
            EntityType::Image(_) => "IMAGE",
            EntityType::Leader(_) => "LEADER",
            EntityType::MText(_) => "MTEXT",
            EntityType::LwPolyline(_) => "LWPOLYLINE",
            EntityType::Attribute(_) => "ATTRIB",
            EntityType::AttributeDefinition(_) => "ATTDEF",
            EntityType::Insert(_) => "INSERT",
            EntityType::Polyline(_) => "POLYLINE",
            EntityType::Vertex(_) => "VERTEX",
            EntityType::Seqend(_) => "SEQEND",
            EntityType::RotatedDimension(_) => "DIMENSION",
            EntityType::RadialDimension(_) => "DIMENSION",
            EntityType::DiameterDimension(_) => "DIMENSION",
            EntityType::AngularThreePointDimension(_) => "DIMENSION",
            EntityType::OrdinateDimension(_) => "DIMENSION",
        }
    }

    /// Whether this kind can be written in the given version.
    pub fn is_supported_on_version(&self, version: AcadVersion) -> (r: bool)
        ensures
            r == self@.is_supported_on_version(version),
    {
        let min = match self {
            EntityType::Line(_) => AcadVersion::R10,
            EntityType::Circle(_) => AcadVersion::R10,
            EntityType::Arc(_) => AcadVersion::R10,
            EntityType::Face3D(_) => AcadVersion::R10,
            EntityType::Solid(_) => AcadVersion::R10,
            EntityType::Trace(_) => AcadVersion::R10,
            EntityType::ModelPoint(_) => AcadVersion::R10,
            EntityType::ProxyEntity(_) => AcadVersion::R14,
            EntityType::Solid3D(_) => AcadVersion::R13,
            EntityType::Image(_) => AcadVersion::R14,
            EntityType::Leader(_) => AcadVersion::R13,
            EntityType::MText(_) => AcadVersion::R13,
            EntityType::LwPolyline(_) => AcadVersion::R13,
            EntityType::Attribute(_) => AcadVersion::R10,
            EntityType::AttributeDefinition(_) => AcadVersion::R10,
            EntityType::Insert(_) => AcadVersion::R10,
            EntityType::Polyline(_) => AcadVersion::R10,
            EntityType::Vertex(_) => AcadVersion::R10,
            EntityType::Seqend(_) => AcadVersion::R10,
            EntityType::RotatedDimension(_) => AcadVersion::R10,
            EntityType::RadialDimension(_) => AcadVersion::R10,
            EntityType::DiameterDimension(_) => AcadVersion::R10,
            EntityType::AngularThreePointDimension(_) => AcadVersion::R10,
            EntityType::OrdinateDimension(_) => AcadVersion::R10,
        };
        version.at_least(min)
    }
}

/// The kind a type name resolves to, as a new entity of that kind; `None`
/// for a name no kind has. Dimensions are resolved separately.
pub open spec fn resolve_type_name(name: Seq<char>) -> Option<EntityTypeView> {
    if name == "LINE"@ {
        Some(EntityTypeView::Line(Line::default_value()))
    }
    else if name == "CIRCLE"@ {
        Some(EntityTypeView::Circle(Circle::default_value()))
    }
    else if name == "ARC"@ {
        Some(EntityTypeView::Arc(Arc::default_value()))
    }
    else if name == "3DFACE"@ {
        Some(EntityTypeView::Face3D(Face3D::default_value()))
    }
    else if name == "SOLID"@ {
        Some(EntityTypeView::Solid(Solid::default_value()))
    }
    else if name == "TRACE"@ {
        Some(EntityTypeView::Trace(Trace::default_value()))
    }
    else if name == "POINT"@ {
        Some(EntityTypeView::ModelPoint(ModelPoint::default_value()))
    }
    else if name == "ACAD_PROXY_ENTITY"@ {
        Some(EntityTypeView::ProxyEntity(ProxyEntity::default_value()))
    }
    else if name == "3DSOLID"@ {
        Some(EntityTypeView::Solid3D(Solid3D::default_view()))
    }
    else if name == "IMAGE"@ {
        Some(EntityTypeView::Image(Image::default_view()))
    }
    else if name == "LEADER"@ {
        Some(EntityTypeView::Leader(Leader::default_view()))
    }
    else if name == "MTEXT"@ {
        Some(EntityTypeView::MText(MText::default_view()))
    }
    else if name == "LWPOLYLINE"@ {
        Some(EntityTypeView::LwPolyline(LwPolyline::default_view()))
    }
    else if name == "ATTRIB"@ {
        Some(EntityTypeView::Attribute(Attribute::default_view()))
    }
    else if name == "ATTDEF"@ {
        Some(EntityTypeView::AttributeDefinition(AttributeDefinition::default_view()))
    }
    else if name == "INSERT"@ {
        Some(EntityTypeView::Insert(Insert::default_view()))
    }
    else if name == "POLYLINE"@ {
        Some(EntityTypeView::Polyline(Polyline::default_view()))
    }
    else if name == "VERTEX"@ {
        Some(EntityTypeView::Vertex(Vertex::default_value()))
    }
    else if name == "SEQEND"@ {
        Some(EntityTypeView::Seqend(Seqend::default_value()))
    }
    else {
        None
    }
}

impl EntityType {
    /// A new entity of the kind the type name names, if any.
    pub fn from_type_string(name: &String) -> (r: Option<EntityType>)
        ensures
            match resolve_type_name(name@) {
                Some(v) => r matches Some(e) && e@ == v,
                None => r is None,
            },
    {
        if text_is(name, "LINE") {
            Some(EntityType::Line(Line::default()))
        } else if text_is(name, "CIRCLE") {
            Some(EntityType::Circle(Circle::default()))
        } else if text_is(name, "ARC") {
            Some(EntityType::Arc(Arc::default()))
        } else if text_is(name, "3DFACE") {
            Some(EntityType::Face3D(Face3D::default()))
        } else if text_is(name, "SOLID") {
            Some(EntityType::Solid(Solid::default()))
        } else if text_is(name, "TRACE") {
            Some(EntityType::Trace(Trace::default()))
        } else if text_is(name, "POINT") {
            Some(EntityType::ModelPoint(ModelPoint::default()))
        } else if text_is(name, "ACAD_PROXY_ENTITY") {
            Some(EntityType::ProxyEntity(ProxyEntity::default()))
        } else if text_is(name, "3DSOLID") {
            Some(EntityType::Solid3D(Solid3D::default()))
        } else if text_is(name, "IMAGE") {
            Some(EntityType::Image(Image::default()))
        } else if text_is(name, "LEADER") {
            Some(EntityType::Leader(Leader::default()))
        } else if text_is(name, "MTEXT") {
            Some(EntityType::MText(MText::default()))
        } else if text_is(name, "LWPOLYLINE") {
            Some(EntityType::LwPolyline(LwPolyline::default()))
        } else if text_is(name, "ATTRIB") {
            Some(EntityType::Attribute(Attribute::default()))
        } else if text_is(name, "ATTDEF") {
            Some(EntityType::AttributeDefinition(AttributeDefinition::default()))
        } else if text_is(name, "INSERT") {
            Some(EntityType::Insert(Insert::default()))
        } else if text_is(name, "POLYLINE") {
            Some(EntityType::Polyline(Polyline::default()))
        } else if text_is(name, "VERTEX") {
            Some(EntityType::Vertex(Vertex::default()))
        } else if text_is(name, "SEQEND") {
            Some(EntityType::Seqend(Seqend::default()))
        } else {
            None
        }
    }
}

} // verus!