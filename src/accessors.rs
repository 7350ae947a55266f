use vstd::prelude::*;
use crate::code_pair::{Handle, REAL_ONE};
use crate::entities::{
    Arc, Attribute, AttributeView, Circle, Face3D, Image, Insert, InsertView, Line, ModelPoint,
    Point, Polyline, PolylineView, ProxyEntity, Solid, Trace, Vertex,
};

verus! {

/// Hands out handles for children as they are attached, one after another.
pub struct HandleAllocator {
    next: u64,
}

impl HandleAllocator {
    /// The value of the next handle to be handed out.
    pub closed spec fn next_value(&self) -> u64 {
        self.next
    }

    pub fn new(first: u64) -> (r: HandleAllocator)
        ensures
            r.next_value() == first,
    {
        HandleAllocator { next: first }
    }

    pub fn next_handle(&mut self) -> (r: Handle)
        requires
            old(self).next_value() < u64::MAX,
        ensures
            r == Handle(old(self).next_value()),
            final(self).next_value() == old(self).next_value() + 1,
    {
        let h = Handle(self.next);
        self.next = self.next + 1;
        h
    }
}

impl Arc {
    pub fn new(center: Point, radius: u64, start: u64, end: u64) -> (r: Arc)
        ensures
            r == (Arc { center, radius, start_angle: start, end_angle: end, ..Arc::default_value() }),
    {
        Arc { center, radius, start_angle: start, end_angle: end, thickness: 0, normal: Point::z_axis() }
    }
}

impl Circle {
    pub fn new(center: Point, radius: u64) -> (r: Circle)
        ensures
            r == (Circle { center, radius, ..Circle::default_value() }),
    {
        Circle { center, radius, thickness: 0, normal: Point::z_axis() }
    }
}

impl Face3D {
    pub fn new(first_corner: Point, second_corner: Point, third_corner: Point, fourth_corner: Point) -> (r: Face3D)
        ensures
            r == (Face3D { first_corner, second_corner, third_corner, fourth_corner, ..Face3D::default_value() }),
    {
        Face3D { first_corner, second_corner, third_corner, fourth_corner, edge_flags: 0 }
    }
}

impl Line {
    pub fn new(p1: Point, p2: Point) -> (r: Line)
        ensures
            r == (Line { p1, p2, ..Line::default_value() }),
    {
        Line { p1, p2, thickness: 0, extrusion_direction: Point::z_axis() }
    }
}

impl ModelPoint {
    pub fn new(p: Point) -> (r: ModelPoint)
        ensures
            r == (ModelPoint { location: p, ..ModelPoint::default_value() }),
    {
        ModelPoint { location: p, thickness: 0, extrusion_direction: Point::z_axis(), angle: 0 }
    }
}

impl Solid {
    pub fn new(first_corner: Point, second_corner: Point, third_corner: Point, fourth_corner: Point) -> (r: Solid)
        ensures
            r == (Solid { first_corner, second_corner, third_corner, fourth_corner, ..Solid::default_value() }),
    {
        Solid {
            first_corner,
            second_corner,
            third_corner,
            fourth_corner,
            thickness: 0,
            extrusion_direction: Point::z_axis(),
        }
    }
}

impl Trace {
    pub fn new(first_corner: Point, second_corner: Point, third_corner: Point, fourth_corner: Point) -> (r: Trace)
        ensures
            r == (Trace { first_corner, second_corner, third_corner, fourth_corner, ..Trace::default_value() }),
    {
        Trace {
            first_corner,
            second_corner,
            third_corner,
            fourth_corner,
            thickness: 0,
            extrusion_direction: Point::z_axis(),
        }
    }
}

impl Vertex {
    pub fn new(location: Point) -> (r: Vertex)
        ensures
            r == (Vertex { location, ..Vertex::default_value() }),
    {
        Vertex { location, ..Vertex::default() }
    }

    pub fn get_is_3d_polyline_vertex(&self) -> (r: bool)
        ensures
            r == ((self.flags & 32) != 0),
    {
        (self.flags & 32) != 0
    }

    pub fn set_is_3d_polyline_vertex(&mut self, val: bool)
        ensures
            *final(self) == (Vertex {
                flags: if val { old(self).flags | 32 } else { old(self).flags & !32i32 },
                ..*old(self)
            }),
    {
        self.flags = if val { self.flags | 32 } else { self.flags & !32i32 };
    }

    pub fn get_is_3d_polygon_mesh(&self) -> (r: bool)
        ensures
            r == ((self.flags & 64) != 0),
    {
        (self.flags & 64) != 0
    }

    pub fn set_is_3d_polygon_mesh(&mut self, val: bool)
        ensures
            *final(self) == (Vertex {
                flags: if val { old(self).flags | 64 } else { old(self).flags & !64i32 },
                ..*old(self)
            }),
    {
        self.flags = if val { self.flags | 64 } else { self.flags & !64i32 };
    }
}

impl Image {
    pub fn get_show_image(&self) -> (r: bool)
        ensures
            r == ((self.display_options_flags & 1) != 0),
    {
        (self.display_options_flags & 1) != 0
    }

    pub fn set_show_image(&mut self, val: bool)
        ensures
            final(self).display_options_flags == (if val {
                old(self).display_options_flags | 1
            } else {
                old(self).display_options_flags & !1i32
            }),
            final(self)@ == (crate::entities::ImageView {
                display_options_flags: final(self).display_options_flags,
                ..old(self)@
            }),
    {
        self.display_options_flags = if val {
            self.display_options_flags | 1
        } else {
            self.display_options_flags & !1i32
        };
    }

    pub fn get_use_clipping_boundary(&self) -> (r: bool)
        ensures
            r == ((self.display_options_flags & 4) != 0),
    {
        (self.display_options_flags & 4) != 0
    }

    pub fn set_use_clipping_boundary(&mut self, val: bool)
        ensures
            final(self).display_options_flags == (if val {
                old(self).display_options_flags | 4
            } else {
                old(self).display_options_flags & !4i32
            }),
            final(self)@ == (crate::entities::ImageView {
                display_options_flags: final(self).display_options_flags,
                ..old(self)@
            }),
    {
        self.display_options_flags = if val {
            self.display_options_flags | 4
        } else {
            self.display_options_flags & !4i32
        };
    }
}

impl Insert {
    /// The attributes, in the order they were attached.
    pub fn attributes(&self) -> (r: Vec<&Attribute>)
        ensures
            r@.len() == self.attributes_and_handles@.len(),
            forall|i: int| 0 <= i < r@.len() ==> *r@[i] == self.attributes_and_handles@[i].0,
    {
        let mut r: Vec<&Attribute> = Vec::new();
        let mut i: usize = 0;
        while i < self.attributes_and_handles.len()
            invariant
                i <= self.attributes_and_handles@.len(),
                r@.len() == i,
                forall|j: int| 0 <= j < i ==> *r@[j] == self.attributes_and_handles@[j].0,
            decreases self.attributes_and_handles.len() - i,
        {
            r.push(&self.attributes_and_handles[i].0);
            i = i + 1;
        }
        r
    }

    /// The attributes with their handles, for changing the attributes.
    pub fn attributes_mut(&mut self) -> (r: &mut Vec<(Attribute, Handle)>)
        ensures
            *r == old(self).attributes_and_handles,
            final(self).attributes_and_handles == *final(r),
    {
        &mut self.attributes_and_handles
    }

    /// Attaches an attribute, under the next handle of the allocator.
    pub fn add_attribute(&mut self, handles: &mut HandleAllocator, att: Attribute)
        requires
            old(handles).next_value() < u64::MAX,
        ensures
            final(self)@ == (InsertView {
                attributes_and_handles: old(self)@.attributes_and_handles.push(
                    (att@, Handle(old(handles).next_value())),
                ),
                ..old(self)@
            }),
            final(handles).next_value() == old(handles).next_value() + 1,
    {
        let h = handles.next_handle();
        let ghost a = att@;
        self.attributes_and_handles.push((att, h));
        assert(self@.attributes_and_handles =~= old(self)@.attributes_and_handles.push((a, h)));
    }
}

impl Polyline {
    /// The vertices, in the order they were attached.
    pub fn vertices(&self) -> (r: Vec<Vertex>)
        ensures
            r@ == self.vertices_and_handles@.map_values(|v: (Vertex, Handle)| v.0),
    {
        let mut r: Vec<Vertex> = Vec::new();
        let mut i: usize = 0;
        while i < self.vertices_and_handles.len()
            invariant
                i <= self.vertices_and_handles@.len(),
                r@ == self.vertices_and_handles@.subrange(0, i as int).map_values(|v: (Vertex, Handle)| v.0),
            decreases self.vertices_and_handles.len() - i,
        {
            r.push(self.vertices_and_handles[i].0);
            i = i + 1;
            assert(r@ =~= self.vertices_and_handles@.subrange(0, i as int).map_values(|v: (Vertex, Handle)| v.0));
        }
        assert(self.vertices_and_handles@.subrange(0, i as int) =~= self.vertices_and_handles@);
        r
    }

    /// The vertices with their handles, for changing the vertices.
    pub fn vertices_mut(&mut self) -> (r: &mut Vec<(Vertex, Handle)>)
        ensures
            *r == old(self).vertices_and_handles,
            final(self).vertices_and_handles == *final(r),
    {
        &mut self.vertices_and_handles
    }

    /// Attaches a vertex, under the next handle of the allocator.
    pub fn add_vertex(&mut self, handles: &mut HandleAllocator, vertex: Vertex)
        requires
            old(handles).next_value() < u64::MAX,
        ensures
            final(self)@ == (PolylineView {
                vertices_and_handles: old(self)@.vertices_and_handles.push(
                    (vertex, Handle(old(handles).next_value())),
                ),
                ..old(self)@
            }),
            final(handles).next_value() == old(handles).next_value() + 1,
    {
        let h = handles.next_handle();
        self.vertices_and_handles.push((vertex, h));
    }

    pub fn get_is_3d_polyline(&self) -> (r: bool)
        ensures
            r == ((self.flags & 8) != 0),
    {
        (self.flags & 8) != 0
    }

    pub fn set_is_3d_polyline(&mut self, val: bool)
        ensures
            final(self)@ == (PolylineView {
                flags: if val { old(self).flags | 8 } else { old(self).flags & !8i32 },
                ..old(self)@
            }),
    {
        self.flags = if val { self.flags | 8 } else { self.flags & !8i32 };
    }

    pub fn get_is_3d_polygon_mesh(&self) -> (r: bool)
        ensures
            r == ((self.flags & 16) != 0),
    {
        (self.flags & 16) != 0
    }

    pub fn set_is_3d_polygon_mesh(&mut self, val: bool)
        ensures
            final(self)@ == (PolylineView {
                flags: if val { old(self).flags | 16 } else { old(self).flags & !16i32 },
                ..old(self)@
            }),
    {
        self.flags = if val { self.flags | 16 } else { self.flags & !16i32 };
    }
}

impl ProxyEntity {
    /// The lower word of the object drawing format.
    pub fn get_object_drawing_format_version(&self) -> (r: i32)
        ensures
            r == (self.object_drawing_format & 0xFFFF) as i32,
    {
        (self.object_drawing_format & 0xFFFF) as i32
    }

    /// Sets bits of the lower word of the object drawing format.
    pub fn set_object_drawing_format_version(&mut self, version: i32)
        ensures
            *final(self) == (ProxyEntity {
                object_drawing_format: old(self).object_drawing_format | ((version as u32) & 0xFFFF),
                ..*old(self)
            }),
    {
        self.object_drawing_format = self.object_drawing_format | ((version as u32) & 0xFFFF);
    }

    /// The object drawing format shifted down by four bits.
    pub fn get_object_maintenance_release_version(&self) -> (r: i32)
        ensures
            r == (self.object_drawing_format as i32) >> 4u32,
    {
        (self.object_drawing_format as i32) >> 4u32
    }

    /// Replaces all but the lower word of the object drawing format by the
    /// version shifted up by four bits.
    pub fn set_object_mainenance_release_version(&mut self, version: i32)
        requires
            ((version as u32) << 4u32) as int + (old(self).object_drawing_format & 0xFFFF) as int <= u32::MAX,
        ensures
            *final(self) == (ProxyEntity {
                object_drawing_format: (((version as u32) << 4u32) + (old(self).object_drawing_format
                    & 0xFFFF)) as u32,
                ..*old(self)
            }),
    {
        self.object_drawing_format = ((version as u32) << 4u32) + (self.object_drawing_format & 0xFFFF);
    }
}

} // verus!
