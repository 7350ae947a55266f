use vstd::prelude::*;
use crate::code_pair::{handle_value, int_value, real_value, short_value, string_value, CodePair, CodePairView, DxfError, DxfResult};
use crate::entities::{AngularThreePointDimension, AngularThreePointDimensionView, Arc, AttributeFields, AttributeFieldsView, Circle, DiameterDimension, DiameterDimensionView, DimensionBase, DimensionBaseView, EntityType, EntityTypeView, Face3D, Image, ImageView, Insert, InsertView, Leader, LeaderView, Line, LwPolyline, LwPolylineView, MText, MTextView, ModelPoint, OrdinateDimension, OrdinateDimensionView, Point, Polyline, PolylineView, ProxyEntity, RadialDimension, RadialDimensionView, RotatedDimension, RotatedDimensionView, Solid, Solid3D, Solid3DView, Trace, Vertex};

use crate::enums::{AttachmentPoint, BackgroundFillSetting, DrawingDirection, HorizontalTextJustification, LineSpacingStyle, PolylineCurvedAndSmoothSurfaceType, Version, VerticalTextJustification};

verus! {

/// What a record does to a `Line`'s own fields: `None` when the code
/// is not one of them.
pub open spec fn line_field(v: Line, p: CodePairView) -> Option<DxfResult<Line>> {
    if p.code == 10 {
        Some(
            match real_value(p) {
                Ok(x) => Ok(Line { p1: Point { x: x, ..v.p1 }, ..v }),
                Err(e) => Err(e),
            },
        )
    } else if p.code == 20 {
        Some(
            match real_value(p) {
                Ok(x) => Ok(Line { p1: Point { y: x, ..v.p1 }, ..v }),
                Err(e) => Err(e),
            },
        )
    } else if p.code == 30 {
        Some(
            match real_value(p) {
                Ok(x) => Ok(Line { p1: Point { z: x, ..v.p1 }, ..v }),
                Err(e) => Err(e),
            },
        )
    } else if p.code == 11 {
        Some(
            match real_value(p) {
                Ok(x) => Ok(Line { p2: Point { x: x, ..v.p2 }, ..v }),
                Err(e) => Err(e),
            },
        )
    } else if p.code == 21 {
        Some(
            match real_value(p) {
                Ok(x) => Ok(Line { p2: Point { y: x, ..v.p2 }, ..v }),
                Err(e) => Err(e),
            },
        )
    } else if p.code == 31 {
        Some(
            match real_value(p) {
                Ok(x) => Ok(Line { p2: Point { z: x, ..v.p2 }, ..v }),
                Err(e) => Err(e),
            },
        )
    } else if p.code == 39 {
        Some(
            match real_value(p) {
                Ok(x) => Ok(Line { thickness: x, ..v }),
                Err(e) => Err(e),
            },
        )
    } else if p.code == 210 {
        Some(
            match real_value(p) {
                Ok(x) => Ok(Line { extrusion_direction: Point { x: x, ..v.extrusion_direction }, ..v }),
                Err(e) => Err(e),
            },
        )
    } else if p.code == 220 {
        Some(
            match real_value(p) {
                Ok(x) => Ok(Line { extrusion_direction: Point { y: x, ..v.extrusion_direction }, ..v }),
                Err(e) => Err(e),
            },
        )
    } else if p.code == 230 {
        Some(
            match real_value(p) {
                Ok(x) => Ok(Line { extrusion_direction: Point { z: x, ..v.extrusion_direction }, ..v }),
                Err(e) => Err(e),
            },
        )
    } else {
        None
    }
}

impl Line {
    /// Applies a record to this `Line`'s own fields; `Ok(false)` when the
    /// code is not one of them.
    pub fn apply_code_pair(&mut self, p: &CodePair) -> (r: DxfResult<bool>)
        ensures
            match line_field(*old(self), p@) {
                None => r == Ok::<bool, DxfError>(false) && *final(self) == *old(self),
                Some(Ok(n)) => r == Ok::<bool, DxfError>(true) && *final(self) == n,
                Some(Err(e)) => r == Err::<bool, DxfError>(e) && *final(self) == *old(self),
            },
    {
        if p.code == 10 {
            self.p1.x = p.assert_real()?;
        } else if p.code == 20 {
            self.p1.y = p.assert_real()?;
        } else if p.code == 30 {
            self.p1.z = p.assert_real()?;
        } else if p.code == 11 {
            self.p2.x = p.assert_real()?;
        } else if p.code == 21 {
            self.p2.y = p.assert_real()?;
        } else if p.code == 31 {
            self.p2.z = p.assert_real()?;
        } else if p.code == 39 {
            self.thickness = p.assert_real()?;
        } else if p.code == 210 {
            self.extrusion_direction.x = p.assert_real()?;
        } else if p.code == 220 {
            self.extrusion_direction.y = p.assert_real()?;
        } else if p.code == 230 {
            self.extrusion_direction.z = p.assert_real()?;
        } else {
            return Ok(false);
        }
        Ok(true)
    }
}

/// What a record does to a `Circle`'s own fields: `None` when the code
/// is not one of them.
pub open spec fn circle_field(v: Circle, p: CodePairView) -> Option<DxfResult<Circle>> {
    if p.code == 10 {
        Some(
            match real_value(p) {
                Ok(x) => Ok(Circle { center: Point { x: x, ..v.center }, ..v }),
                Err(e) => Err(e),
            },
        )
    } else if p.code == 20 {
        Some(
            match real_value(p) {
                Ok(x) => Ok(Circle { center: Point { y: x, ..v.center }, ..v }),
                Err(e) => Err(e),
            },
        )
    } else if p.code == 30 {
        Some(
            match real_value(p) {
                Ok(x) => Ok(Circle { center: Point { z: x, ..v.center }, ..v }),
                Err(e) => Err(e),
            },
        )
    } else if p.code == 40 {
        Some(
            match real_value(p) {
                Ok(x) => Ok(Circle { radius: x, ..v }),
                Err(e) => Err(e),
            },
        )
    } else if p.code == 39 {
        Some(
            match real_value(p) {
                Ok(x) => Ok(Circle { thickness: x, ..v }),
                Err(e) => Err(e),
            },
        )
    } else if p.code == 210 {
        Some(
            match real_value(p) {
                Ok(x) => Ok(Circle { normal: Point { x: x, ..v.normal }, ..v }),
                Err(e) => Err(e),
            },
        )
    } else if p.code == 220 {
        Some(
            match real_value(p) {
                Ok(x) => Ok(Circle { normal: Point { y: x, ..v.normal }, ..v }),
                Err(e) => Err(e),
            },
        )
    } else if p.code == 230 {
        Some(
            match real_value(p) {
                Ok(x) => Ok(Circle { normal: Point { z: x, ..v.normal }, ..v }),
                Err(e) => Err(e),
            },
        )
    } else {
        None
    }
}

impl Circle {
    /// Applies a record to this `Circle`'s own fields; `Ok(false)` when the
    /// code is not one of them.
    pub fn apply_code_pair(&mut self, p: &CodePair) -> (r: DxfResult<bool>)
        ensures
            match circle_field(*old(self), p@) {
                None => r == Ok::<bool, DxfError>(false) && *final(self) == *old(self),
                Some(Ok(n)) => r == Ok::<bool, DxfError>(true) && *final(self) == n,
                Some(Err(e)) => r == Err::<bool, DxfError>(e) && *final(self) == *old(self),
            },
    {
        if p.code == 10 {
            self.center.x = p.assert_real()?;
        } else if p.code == 20 {
            self.center.y = p.assert_real()?;
        } else if p.code == 30 {
            self.center.z = p.assert_real()?;
        } else if p.code == 40 {
            self.radius = p.assert_real()?;
        } else if p.code == 39 {
            self.thickness = p.assert_real()?;
        } else if p.code == 210 {
            self.normal.x = p.assert_real()?;
        } else if p.code == 220 {
            self.normal.y = p.assert_real()?;
        } else if p.code == 230 {
            self.normal.z = p.assert_real()?;
        } else {
            return Ok(false);
        }
        Ok(true)
    }
}

/// What a record does to a `Arc`'s own fields: `None` when the code
/// is not one of them.
pub open spec fn arc_field(v: Arc, p: CodePairView) -> Option<DxfResult<Arc>> {
    if p.code == 10 {
        Some(
            match real_value(p) {
                Ok(x) => Ok(Arc { center: Point { x: x, ..v.center }, ..v }),
                Err(e) => Err(e),
            },
        )
    } else if p.code == 20 {
        Some(
            match real_value(p) {
                Ok(x) => Ok(Arc { center: Point { y: x, ..v.center }, ..v }),
                Err(e) => Err(e),
            },
        )
    } else if p.code == 30 {
        Some(
            match real_value(p) {
                Ok(x) => Ok(Arc { center: Point { z: x, ..v.center }, ..v }),
                Err(e) => Err(e),
            },
        )
    } else if p.code == 40 {
        Some(
            match real_value(p) {
                Ok(x) => Ok(Arc { radius: x, ..v }),
                Err(e) => Err(e),
            },
        )
    } else if p.code == 50 {
        Some(
            match real_value(p) {
                Ok(x) => Ok(Arc { start_angle: x, ..v }),
                Err(e) => Err(e),
            },
        )
    } else if p.code == 51 {
        Some(
            match real_value(p) {
                Ok(x) => Ok(Arc { end_angle: x, ..v }),
                Err(e) => Err(e),
            },
        )
    } else if p.code == 39 {
        Some(
            match real_value(p) {
                Ok(x) => Ok(Arc { thickness: x, ..v }),
                Err(e) => Err(e),
            },
        )
    } else if p.code == 210 {
        Some(
            match real_value(p) {
                Ok(x) => Ok(Arc { normal: Point { x: x, ..v.normal }, ..v }),
                Err(e) => Err(e),
            },
        )
    } else if p.code == 220 {
        Some(
            match real_value(p) {
                Ok(x) => Ok(Arc { normal: Point { y: x, ..v.normal }, ..v }),
                Err(e) => Err(e),
            },
        )
    } else if p.code == 230 {
        Some(
            match real_value(p) {
                Ok(x) => Ok(Arc { normal: Point { z: x, ..v.normal }, ..v }),
                Err(e) => Err(e),
            },
        )
    } else {
        None
    }
}

impl Arc {
    /// Applies a record to this `Arc`'s own fields; `Ok(false)` when the
    /// code is not one of them.
    pub fn apply_code_pair(&mut self, p: &CodePair) -> (r: DxfResult<bool>)
        ensures
            match arc_field(*old(self), p@) {
                None => r == Ok::<bool, DxfError>(false) && *final(self) == *old(self),
                Some(Ok(n)) => r == Ok::<bool, DxfError>(true) && *final(self) == n,
                Some(Err(e)) => r == Err::<bool, DxfError>(e) && *final(self) == *old(self),
            },
    {
        if p.code == 10 {
            self.center.x = p.assert_real()?;
        } else if p.code == 20 {
            self.center.y = p.assert_real()?;
        } else if p.code == 30 {
            self.center.z = p.assert_real()?;
        } else if p.code == 40 {
            self.radius = p.assert_real()?;
        } else if p.code == 50 {
            self.start_angle = p.assert_real()?;
        } else if p.code == 51 {
            self.end_angle = p.assert_real()?;
        } else if p.code == 39 {
            self.thickness = p.assert_real()?;
        } else if p.code == 210 {
            self.normal.x = p.assert_real()?;
        } else if p.code == 220 {
            self.normal.y = p.assert_real()?;
        } else if p.code == 230 {
            self.normal.z = p.assert_real()?;
        } else {
            return Ok(false);
        }
        Ok(true)
    }
}

/// What a record does to a `Face3D`'s own fields: `None` when the code
/// is not one of them.
pub open spec fn face3d_field(v: Face3D, p: CodePairView) -> Option<DxfResult<Face3D>> {
    if p.code == 10 {
        Some(
            match real_value(p) {
                Ok(x) => Ok(Face3D { first_corner: Point { x: x, ..v.first_corner }, ..v }),
                Err(e) => Err(e),
            },
        )
    } else if p.code == 20 {
        Some(
            match real_value(p) {
                Ok(x) => Ok(Face3D { first_corner: Point { y: x, ..v.first_corner }, ..v }),
                Err(e) => Err(e),
            },
        )
    } else if p.code == 30 {
        Some(
            match real_value(p) {
                Ok(x) => Ok(Face3D { first_corner: Point { z: x, ..v.first_corner }, ..v }),
                Err(e) => Err(e),
            },
        )
    } else if p.code == 11 {
        Some(
            match real_value(p) {
                Ok(x) => Ok(Face3D { second_corner: Point { x: x, ..v.second_corner }, ..v }),
                Err(e) => Err(e),
            },
        )
    } else if p.code == 21 {
        Some(
            match real_value(p) {
                Ok(x) => Ok(Face3D { second_corner: Point { y: x, ..v.second_corner }, ..v }),
                Err(e) => Err(e),
            },
        )
    } else if p.code == 31 {
        Some(
            match real_value(p) {
                Ok(x) => Ok(Face3D { second_corner: Point { z: x, ..v.second_corner }, ..v }),
                Err(e) => Err(e),
            },
        )
    } else if p.code == 12 {
        Some(
            match real_value(p) {
                Ok(x) => Ok(Face3D { third_corner: Point { x: x, ..v.third_corner }, ..v }),
                Err(e) => Err(e),
            },
        )
    } else if p.code == 22 {
        Some(
            match real_value(p) {
                Ok(x) => Ok(Face3D { third_corner: Point { y: x, ..v.third_corner }, ..v }),
                Err(e) => Err(e),
            },
        )
    } else if p.code == 32 {
        Some(
            match real_value(p) {
                Ok(x) => Ok(Face3D { third_corner: Point { z: x, ..v.third_corner }, ..v }),
                Err(e) => Err(e),
            },
        )
    } else if p.code == 13 {
        Some(
            match real_value(p) {
                Ok(x) => Ok(Face3D { fourth_corner: Point { x: x, ..v.fourth_corner }, ..v }),
                Err(e) => Err(e),
            },
        )
    } else if p.code == 23 {
        Some(
            match real_value(p) {
                Ok(x) => Ok(Face3D { fourth_corner: Point { y: x, ..v.fourth_corner }, ..v }),
                Err(e) => Err(e),
            },
        )
    } else if p.code == 33 {
        Some(
            match real_value(p) {
                Ok(x) => Ok(Face3D { fourth_corner: Point { z: x, ..v.fourth_corner }, ..v }),
                Err(e) => Err(e),
            },
        )
    } else if p.code == 70 {
        Some(
            match short_value(p) {
                Ok(x) => Ok(Face3D { edge_flags: x as i32, ..v }),
                Err(e) => Err(e),
            },
        )
    } else {
        None
    }
}

impl Face3D {
    /// Applies a record to this `Face3D`'s own fields; `Ok(false)` when the
    /// code is not one of them.
    pub fn apply_code_pair(&mut self, p: &CodePair) -> (r: DxfResult<bool>)
        ensures
            match face3d_field(*old(self), p@) {
                None => r == Ok::<bool, DxfError>(false) && *final(self) == *old(self),
                Some(Ok(n)) => r == Ok::<bool, DxfError>(true) && *final(self) == n,
                Some(Err(e)) => r == Err::<bool, DxfError>(e) && *final(self) == *old(self),
            },
    {
        if p.code == 10 {
            self.first_corner.x = p.assert_real()?;
        } else if p.code == 20 {
            self.first_corner.y = p.assert_real()?;
        } else if p.code == 30 {
            self.first_corner.z = p.assert_real()?;
        } else if p.code == 11 {
            self.second_corner.x = p.assert_real()?;
        } else if p.code == 21 {
            self.second_corner.y = p.assert_real()?;
        } else if p.code == 31 {
            self.second_corner.z = p.assert_real()?;
        } else if p.code == 12 {
            self.third_corner.x = p.assert_real()?;
        } else if p.code == 22 {
            self.third_corner.y = p.assert_real()?;
        } else if p.code == 32 {
            self.third_corner.z = p.assert_real()?;
        } else if p.code == 13 {
            self.fourth_corner.x = p.assert_real()?;
        } else if p.code == 23 {
            self.fourth_corner.y = p.assert_real()?;
        } else if p.code == 33 {
            self.fourth_corner.z = p.assert_real()?;
        } else if p.code == 70 {
            self.edge_flags = p.assert_i16()? as i32;
        } else {
            return Ok(false);
        }
        Ok(true)
    }
}

/// What a record does to a `Solid`'s own fields: `None` when the code
/// is not one of them.
pub open spec fn solid_field(v: Solid, p: CodePairView) -> Option<DxfResult<Solid>> {
    if p.code == 10 {
        Some(
            match real_value(p) {
                Ok(x) => Ok(Solid { first_corner: Point { x: x, ..v.first_corner }, ..v }),
                Err(e) => Err(e),
            },
        )
    } else if p.code == 20 {
        Some(
            match real_value(p) {
                Ok(x) => Ok(Solid { first_corner: Point { y: x, ..v.first_corner }, ..v }),
                Err(e) => Err(e),
            },
        )
    } else if p.code == 30 {
        Some(
            match real_value(p) {
                Ok(x) => Ok(Solid { first_corner: Point { z: x, ..v.first_corner }, ..v }),
                Err(e) => Err(e),
            },
        )
    } else if p.code == 11 {
        Some(
            match real_value(p) {
                Ok(x) => Ok(Solid { second_corner: Point { x: x, ..v.second_corner }, ..v }),
                Err(e) => Err(e),
            },
        )
    } else if p.code == 21 {
        Some(
            match real_value(p) {
                Ok(x) => Ok(Solid { second_corner: Point { y: x, ..v.second_corner }, ..v }),
                Err(e) => Err(e),
            },
        )
    } else if p.code == 31 {
        Some(
            match real_value(p) {
                Ok(x) => Ok(Solid { second_corner: Point { z: x, ..v.second_corner }, ..v }),
                Err(e) => Err(e),
            },
        )
    } else if p.code == 12 {
        Some(
            match real_value(p) {
                Ok(x) => Ok(Solid { third_corner: Point { x: x, ..v.third_corner }, ..v }),
                Err(e) => Err(e),
            },
        )
    } else if p.code == 22 {
        Some(
            match real_value(p) {
                Ok(x) => Ok(Solid { third_corner: Point { y: x, ..v.third_corner }, ..v }),
                Err(e) => Err(e),
            },
        )
    } else if p.code == 32 {
        Some(
            match real_value(p) {
                Ok(x) => Ok(Solid { third_corner: Point { z: x, ..v.third_corner }, ..v }),
                Err(e) => Err(e),
            },
        )
    } else if p.code == 13 {
        Some(
            match real_value(p) {
                Ok(x) => Ok(Solid { fourth_corner: Point { x: x, ..v.fourth_corner }, ..v }),
                Err(e) => Err(e),
            },
        )
    } else if p.code == 23 {
        Some(
            match real_value(p) {
                Ok(x) => Ok(Solid { fourth_corner: Point { y: x, ..v.fourth_corner }, ..v }),
                Err(e) => Err(e),
            },
        )
    } else if p.code == 33 {
        Some(
            match real_value(p) {
                Ok(x) => Ok(Solid { fourth_corner: Point { z: x, ..v.fourth_corner }, ..v }),
                Err(e) => Err(e),
            },
        )
    } else if p.code == 39 {
        Some(
            match real_value(p) {
                Ok(x) => Ok(Solid { thickness: x, ..v }),
                Err(e) => Err(e),
            },
        )
    } else if p.code == 210 {
        Some(
            match real_value(p) {
                Ok(x) => Ok(Solid { extrusion_direction: Point { x: x, ..v.extrusion_direction }, ..v }),
                Err(e) => Err(e),
            },
        )
    } else if p.code == 220 {
        Some(
            match real_value(p) {
                Ok(x) => Ok(Solid { extrusion_direction: Point { y: x, ..v.extrusion_direction }, ..v }),
                Err(e) => Err(e),
            },
        )
    } else if p.code == 230 {
        Some(
            match real_value(p) {
                Ok(x) => Ok(Solid { extrusion_direction: Point { z: x, ..v.extrusion_direction }, ..v }),
                Err(e) => Err(e),
            },
        )
    } else {
        None
    }
}

impl Solid {
    /// Applies a record to this `Solid`'s own fields; `Ok(false)` when the
    /// code is not one of them.
    pub fn apply_code_pair(&mut self, p: &CodePair) -> (r: DxfResult<bool>)
        ensures
            match solid_field(*old(self), p@) {
                None => r == Ok::<bool, DxfError>(false) && *final(self) == *old(self),
                Some(Ok(n)) => r == Ok::<bool, DxfError>(true) && *final(self) == n,
                Some(Err(e)) => r == Err::<bool, DxfError>(e) && *final(self) == *old(self),
            },
    {
        if p.code == 10 {
            self.first_corner.x = p.assert_real()?;
        } else if p.code == 20 {
            self.first_corner.y = p.assert_real()?;
        } else if p.code == 30 {
            self.first_corner.z = p.assert_real()?;
        } else if p.code == 11 {
            self.second_corner.x = p.assert_real()?;
        } else if p.code == 21 {
            self.second_corner.y = p.assert_real()?;
        } else if p.code == 31 {
            self.second_corner.z = p.assert_real()?;
        } else if p.code == 12 {
            self.third_corner.x = p.assert_real()?;
        } else if p.code == 22 {
            self.third_corner.y = p.assert_real()?;
        } else if p.code == 32 {
            self.third_corner.z = p.assert_real()?;
        } else if p.code == 13 {
            self.fourth_corner.x = p.assert_real()?;
        } else if p.code == 23 {
            self.fourth_corner.y = p.assert_real()?;
        } else if p.code == 33 {
            self.fourth_corner.z = p.assert_real()?;
        } else if p.code == 39 {
            self.thickness = p.assert_real()?;
        } else if p.code == 210 {
            self.extrusion_direction.x = p.assert_real()?;
        } else if p.code == 220 {
            self.extrusion_direction.y = p.assert_real()?;
        } else if p.code == 230 {
            self.extrusion_direction.z = p.assert_real()?;
        } else {
            return Ok(false);
        }
        Ok(true)
    }
}

/// What a record does to a `Trace`'s own fields: `None` when the code
/// is not one of them.
pub open spec fn trace_field(v: Trace, p: CodePairView) -> Option<DxfResult<Trace>> {
    if p.code == 10 {
        Some(
            match real_value(p) {
                Ok(x) => Ok(Trace { first_corner: Point { x: x, ..v.first_corner }, ..v }),
                Err(e) => Err(e),
            },
        )
    } else if p.code == 20 {
        Some(
            match real_value(p) {
                Ok(x) => Ok(Trace { first_corner: Point { y: x, ..v.first_corner }, ..v }),
                Err(e) => Err(e),
            },
        )
    } else if p.code == 30 {
        Some(
            match real_value(p) {
                Ok(x) => Ok(Trace { first_corner: Point { z: x, ..v.first_corner }, ..v }),
                Err(e) => Err(e),
            },
        )
    } else if p.code == 11 {
        Some(
            match real_value(p) {
                Ok(x) => Ok(Trace { second_corner: Point { x: x, ..v.second_corner }, ..v }),
                Err(e) => Err(e),
            },
        )
    } else if p.code == 21 {
        Some(
            match real_value(p) {
                Ok(x) => Ok(Trace { second_corner: Point { y: x, ..v.second_corner }, ..v }),
                Err(e) => Err(e),
            },
        )
    } else if p.code == 31 {
        Some(
            match real_value(p) {
                Ok(x) => Ok(Trace { second_corner: Point { z: x, ..v.second_corner }, ..v }),
                Err(e) => Err(e),
            },
        )
    } else if p.code == 12 {
        Some(
            match real_value(p) {
                Ok(x) => Ok(Trace { third_corner: Point { x: x, ..v.third_corner }, ..v }),
                Err(e) => Err(e),
            },
        )
    } else if p.code == 22 {
        Some(
            match real_value(p) {
                Ok(x) => Ok(Trace { third_corner: Point { y: x, ..v.third_corner }, ..v }),
                Err(e) => Err(e),
            },
        )
    } else if p.code == 32 {
        Some(
            match real_value(p) {
                Ok(x) => Ok(Trace { third_corner: Point { z: x, ..v.third_corner }, ..v }),
                Err(e) => Err(e),
            },
        )
    } else if p.code == 13 {
        Some(
            match real_value(p) {
                Ok(x) => Ok(Trace { fourth_corner: Point { x: x, ..v.fourth_corner }, ..v }),
                Err(e) => Err(e),
            },
        )
    } else if p.code == 23 {
        Some(
            match real_value(p) {
                Ok(x) => Ok(Trace { fourth_corner: Point { y: x, ..v.fourth_corner }, ..v }),
                Err(e) => Err(e),
            },
        )
    } else if p.code == 33 {
        Some(
            match real_value(p) {
                Ok(x) => Ok(Trace { fourth_corner: Point { z: x, ..v.fourth_corner }, ..v }),
                Err(e) => Err(e),
            },
        )
    } else if p.code == 39 {
        Some(
            match real_value(p) {
                Ok(x) => Ok(Trace { thickness: x, ..v }),
                Err(e) => Err(e),
            },
        )
    } else if p.code == 210 {
        Some(
            match real_value(p) {
                Ok(x) => Ok(Trace { extrusion_direction: Point { x: x, ..v.extrusion_direction }, ..v }),
                Err(e) => Err(e),
            },
        )
    } else if p.code == 220 {
        Some(
            match real_value(p) {
                Ok(x) => Ok(Trace { extrusion_direction: Point { y: x, ..v.extrusion_direction }, ..v }),
                Err(e) => Err(e),
            },
        )
    } else if p.code == 230 {
        Some(
            match real_value(p) {
                Ok(x) => Ok(Trace { extrusion_direction: Point { z: x, ..v.extrusion_direction }, ..v }),
                Err(e) => Err(e),
            },
        )
    } else {
        None
    }
}

impl Trace {
    /// Applies a record to this `Trace`'s own fields; `Ok(false)` when the
    /// code is not one of them.
    pub fn apply_code_pair(&mut self, p: &CodePair) -> (r: DxfResult<bool>)
        ensures
            match trace_field(*old(self), p@) {
                None => r == Ok::<bool, DxfError>(false) && *final(self) == *old(self),
                Some(Ok(n)) => r == Ok::<bool, DxfError>(true) && *final(self) == n,
                Some(Err(e)) => r == Err::<bool, DxfError>(e) && *final(self) == *old(self),
            },
    {
        if p.code == 10 {
            self.first_corner.x = p.assert_real()?;
        } else if p.code == 20 {
            self.first_corner.y = p.assert_real()?;
        } else if p.code == 30 {
            self.first_corner.z = p.assert_real()?;
        } else if p.code == 11 {
            self.second_corner.x = p.assert_real()?;
        } else if p.code == 21 {
            self.second_corner.y = p.assert_real()?;
        } else if p.code == 31 {
            self.second_corner.z = p.assert_real()?;
        } else if p.code == 12 {
            self.third_corner.x = p.assert_real()?;
        } else if p.code == 22 {
            self.third_corner.y = p.assert_real()?;
        } else if p.code == 32 {
            self.third_corner.z = p.assert_real()?;
        } else if p.code == 13 {
            self.fourth_corner.x = p.assert_real()?;
        } else if p.code == 23 {
            self.fourth_corner.y = p.assert_real()?;
        } else if p.code == 33 {
            self.fourth_corner.z = p.assert_real()?;
        } else if p.code == 39 {
            self.thickness = p.assert_real()?;
        } else if p.code == 210 {
            self.extrusion_direction.x = p.assert_real()?;
        } else if p.code == 220 {
            self.extrusion_direction.y = p.assert_real()?;
        } else if p.code == 230 {
            self.extrusion_direction.z = p.assert_real()?;
        } else {
            return Ok(false);
        }
        Ok(true)
    }
}

/// What a record does to a `ModelPoint`'s own fields: `None` when the code
/// is not one of them.
pub open spec fn model_point_field(v: ModelPoint, p: CodePairView) -> Option<DxfResult<ModelPoint>> {
    if p.code == 10 {
        Some(
            match real_value(p) {
                Ok(x) => Ok(ModelPoint { location: Point { x: x, ..v.location }, ..v }),
                Err(e) => Err(e),
            },
        )
    } else if p.code == 20 {
        Some(
            match real_value(p) {
                Ok(x) => Ok(ModelPoint { location: Point { y: x, ..v.location }, ..v }),
                Err(e) => Err(e),
            },
        )
    } else if p.code == 30 {
        Some(
            match real_value(p) {
                Ok(x) => Ok(ModelPoint { location: Point { z: x, ..v.location }, ..v }),
                Err(e) => Err(e),
            },
        )
    } else if p.code == 39 {
        Some(
            match real_value(p) {
                Ok(x) => Ok(ModelPoint { thickness: x, ..v }),
                Err(e) => Err(e),
            },
        )
    } else if p.code == 210 {
        Some(
            match real_value(p) {
                Ok(x) => Ok(ModelPoint { extrusion_direction: Point { x: x, ..v.extrusion_direction }, ..v }),
                Err(e) => Err(e),
            },
        )
    } else if p.code == 220 {
        Some(
            match real_value(p) {
                Ok(x) => Ok(ModelPoint { extrusion_direction: Point { y: x, ..v.extrusion_direction }, ..v }),
                Err(e) => Err(e),
            },
        )
    } else if p.code == 230 {
        Some(
            match real_value(p) {
                Ok(x) => Ok(ModelPoint { extrusion_direction: Point { z: x, ..v.extrusion_direction }, ..v }),
                Err(e) => Err(e),
            },
        )
    } else if p.code == 50 {
        Some(
            match real_value(p) {
                Ok(x) => Ok(ModelPoint { angle: x, ..v }),
                Err(e) => Err(e),
            },
        )
    } else {
        None
    }
}

impl ModelPoint {
    /// Applies a record to this `ModelPoint`'s own fields; `Ok(false)` when the
    /// code is not one of them.
    pub fn apply_code_pair(&mut self, p: &CodePair) -> (r: DxfResult<bool>)
        ensures
            match model_point_field(*old(self), p@) {
                None => r == Ok::<bool, DxfError>(false) && *final(self) == *old(self),
                Some(Ok(n)) => r == Ok::<bool, DxfError>(true) && *final(self) == n,
                Some(Err(e)) => r == Err::<bool, DxfError>(e) && *final(self) == *old(self),
            },
    {
        if p.code == 10 {
            self.location.x = p.assert_real()?;
        } else if p.code == 20 {
            self.location.y = p.assert_real()?;
        } else if p.code == 30 {
            self.location.z = p.assert_real()?;
        } else if p.code == 39 {
            self.thickness = p.assert_real()?;
        } else if p.code == 210 {
            self.extrusion_direction.x = p.assert_real()?;
        } else if p.code == 220 {
            self.extrusion_direction.y = p.assert_real()?;
        } else if p.code == 230 {
            self.extrusion_direction.z = p.assert_real()?;
        } else if p.code == 50 {
            self.angle = p.assert_real()?;
        } else {
            return Ok(false);
        }
        Ok(true)
    }
}

/// What a record does to a `ProxyEntity`'s own fields: `None` when the code
/// is not one of them.
pub open spec fn proxy_entity_field(v: ProxyEntity, p: CodePairView) -> Option<DxfResult<ProxyEntity>> {
    if p.code == 90 {
        Some(
            match int_value(p) {
                Ok(x) => Ok(ProxyEntity { proxy_entity_class_id: x, ..v }),
                Err(e) => Err(e),
            },
        )
    } else if p.code == 91 {
        Some(
            match int_value(p) {
                Ok(x) => Ok(ProxyEntity { application_entity_class_id: x, ..v }),
                Err(e) => Err(e),
            },
        )
    } else if p.code == 95 {
        Some(
            match int_value(p) {
                Ok(x) => Ok(ProxyEntity { object_drawing_format: x as u32, ..v }),
                Err(e) => Err(e),
            },
        )
    } else {
        None
    }
}

impl ProxyEntity {
    /// Applies a record to this `ProxyEntity`'s own fields; `Ok(false)` when the
    /// code is not one of them.
    pub fn apply_code_pair(&mut self, p: &CodePair) -> (r: DxfResult<bool>)
        ensures
            match proxy_entity_field(*old(self), p@) {
                None => r == Ok::<bool, DxfError>(false) && *final(self) == *old(self),
                Some(Ok(n)) => r == Ok::<bool, DxfError>(true) && *final(self) == n,
                Some(Err(e)) => r == Err::<bool, DxfError>(e) && *final(self) == *old(self),
            },
    {
        if p.code == 90 {
            self.proxy_entity_class_id = p.assert_i32()?;
        } else if p.code == 91 {
            self.application_entity_class_id = p.assert_i32()?;
        } else if p.code == 95 {
            self.object_drawing_format = p.assert_i32()? as u32;
        } else {
            return Ok(false);
        }
        Ok(true)
    }
}

/// What a record does to a `Solid3D`'s own fields: `None` when the code
/// is not one of them.
pub open spec fn solid3d_field(v: Solid3DView, p: CodePairView) -> Option<DxfResult<Solid3DView>> {
    if p.code == 70 {
        Some(
            match short_value(p) {
                Ok(x) => Ok(Solid3DView { format_version: x, ..v }),
                Err(e) => Err(e),
            },
        )
    } else if p.code == 1 {
        Some(
            match string_value(p) {
                Ok(x) => Ok(Solid3DView { custom_data: v.custom_data.push(x), ..v }),
                Err(e) => Err(e),
            },
        )
    } else if p.code == 3 {
        Some(
            match string_value(p) {
                Ok(x) => Ok(Solid3DView { custom_data2: v.custom_data2.push(x), ..v }),
                Err(e) => Err(e),
            },
        )
    } else if p.code == 350 {
        Some(
            match handle_value(p) {
                Ok(x) => Ok(Solid3DView { history_object_handle: x, ..v }),
                Err(e) => Err(e),
            },
        )
    } else {
        None
    }
}

impl Solid3D {
    /// Applies a record to this `Solid3D`'s own fields; `Ok(false)` when the
    /// code is not one of them.
    pub fn apply_code_pair(&mut self, p: &CodePair) -> (r: DxfResult<bool>)
        ensures
            match solid3d_field(old(self)@, p@) {
                None => r == Ok::<bool, DxfError>(false) && final(self)@ == old(self)@,
                Some(Ok(n)) => r == Ok::<bool, DxfError>(true) && final(self)@ == n,
                Some(Err(e)) => r == Err::<bool, DxfError>(e) && final(self)@ == old(self)@,
            },
    {
        if p.code == 70 {
            self.format_version = p.assert_i16()?;
        } else if p.code == 1 {
            let x = p.assert_string()?;
            let ghost before = self.custom_data@;
            self.custom_data.push(x);
            assert(self.custom_data@.map_values(|s: String| s@) =~= before.map_values(|s: String| s@).push(x@));
        } else if p.code == 3 {
            let x = p.assert_string()?;
            let ghost before = self.custom_data2@;
            self.custom_data2.push(x);
            assert(self.custom_data2@.map_values(|s: String| s@) =~= before.map_values(|s: String| s@).push(x@));
        } else if p.code == 350 {
            self.history_object_handle = p.as_handle()?;
        } else {
            return Ok(false);
        }
        Ok(true)
    }
}

/// What a record does to a `Image`'s own fields: `None` when the code
/// is not one of them.
pub open spec fn image_field(v: ImageView, p: CodePairView) -> Option<DxfResult<ImageView>> {
    if p.code == 10 {
        Some(
            match real_value(p) {
                Ok(x) => Ok(ImageView { location: Point { x: x, ..v.location }, ..v }),
                Err(e) => Err(e),
            },
        )
    } else if p.code == 20 {
        Some(
            match real_value(p) {
                Ok(x) => Ok(ImageView { location: Point { y: x, ..v.location }, ..v }),
                Err(e) => Err(e),
            },
        )
    } else if p.code == 30 {
        Some(
            match real_value(p) {
                Ok(x) => Ok(ImageView { location: Point { z: x, ..v.location }, ..v }),
                Err(e) => Err(e),
            },
        )
    } else if p.code == 340 {
        Some(
            match handle_value(p) {
                Ok(x) => Ok(ImageView { image_def_handle: x, ..v }),
                Err(e) => Err(e),
            },
        )
    } else if p.code == 70 {
        Some(
            match short_value(p) {
                Ok(x) => Ok(ImageView { display_options_flags: x as i32, ..v }),
                Err(e) => Err(e),
            },
        )
    } else if p.code == 280 {
        Some(
            match short_value(p) {
                Ok(x) => Ok(ImageView { clipping_state: x != 0, ..v }),
                Err(e) => Err(e),
            },
        )
    } else if p.code == 281 {
        Some(
            match short_value(p) {
                Ok(x) => Ok(ImageView { brightness: x, ..v }),
                Err(e) => Err(e),
            },
        )
    } else if p.code == 282 {
        Some(
            match short_value(p) {
                Ok(x) => Ok(ImageView { contrast: x, ..v }),
                Err(e) => Err(e),
            },
        )
    } else if p.code == 283 {
        Some(
            match short_value(p) {
                Ok(x) => Ok(ImageView { fade: x, ..v }),
                Err(e) => Err(e),
            },
        )
    } else if p.code == 71 {
        Some(
            match short_value(p) {
                Ok(x) => Ok(ImageView { clipping_type: x, ..v }),
                Err(e) => Err(e),
            },
        )
    } else if p.code == 91 {
        Some(
            Ok(v),
        )
    } else if p.code == 14 {
        Some(
            match real_value(p) {
                Ok(x) => Ok(ImageView { clipping_vertices_x: v.clipping_vertices_x.push(x), ..v }),
                Err(e) => Err(e),
            },
        )
    } else if p.code == 24 {
        Some(
            match real_value(p) {
                Ok(x) => Ok(ImageView { clipping_vertices_y: v.clipping_vertices_y.push(x), ..v }),
                Err(e) => Err(e),
            },
        )
    } else {
        None
    }
}

impl Image {
    /// Applies a record to this `Image`'s own fields; `Ok(false)` when the
    /// code is not one of them.
    pub fn apply_code_pair(&mut self, p: &CodePair) -> (r: DxfResult<bool>)
        ensures
            match image_field(old(self)@, p@) {
                None => r == Ok::<bool, DxfError>(false) && final(self)@ == old(self)@,
                Some(Ok(n)) => r == Ok::<bool, DxfError>(true) && final(self)@ == n,
                Some(Err(e)) => r == Err::<bool, DxfError>(e) && final(self)@ == old(self)@,
            },
    {
        if p.code == 10 {
            self.location.x = p.assert_real()?;
        } else if p.code == 20 {
            self.location.y = p.assert_real()?;
        } else if p.code == 30 {
            self.location.z = p.assert_real()?;
        } else if p.code == 340 {
            self.image_def_handle = p.as_handle()?;
        } else if p.code == 70 {
            self.display_options_flags = p.assert_i16()? as i32;
        } else if p.code == 280 {
            self.clipping_state = p.assert_i16()? != 0;
        } else if p.code == 281 {
            self.brightness = p.assert_i16()?;
        } else if p.code == 282 {
            self.contrast = p.assert_i16()?;
        } else if p.code == 283 {
            self.fade = p.assert_i16()?;
        } else if p.code == 71 {
            self.clipping_type = p.assert_i16()?;
        } else if p.code == 91 {
            p.code == p.code;
        } else if p.code == 14 {
            let x = p.assert_real()?;
            self.clipping_vertices_x.push(x);
        } else if p.code == 24 {
            let x = p.assert_real()?;
            self.clipping_vertices_y.push(x);
        } else {
            return Ok(false);
        }
        Ok(true)
    }
}

/// What a record does to a `Leader`'s own fields: `None` when the code
/// is not one of them.
pub open spec fn leader_field(v: LeaderView, p: CodePairView) -> Option<DxfResult<LeaderView>> {
    if p.code == 3 {
        Some(
            match string_value(p) {
                Ok(x) => Ok(LeaderView { dimension_style_name: x, ..v }),
                Err(e) => Err(e),
            },
        )
    } else if p.code == 71 {
        Some(
            match short_value(p) {
                Ok(x) => Ok(LeaderView { use_arrowheads: x != 0, ..v }),
                Err(e) => Err(e),
            },
        )
    } else if p.code == 76 {
        Some(
            Ok(v),
        )
    } else if p.code == 10 {
        Some(
            match real_value(p) {
                Ok(x) => Ok(LeaderView { vertices_x: v.vertices_x.push(x), ..v }),
                Err(e) => Err(e),
            },
        )
    } else if p.code == 20 {
        Some(
            match real_value(p) {
                Ok(x) => Ok(LeaderView { vertices_y: v.vertices_y.push(x), ..v }),
                Err(e) => Err(e),
            },
        )
    } else if p.code == 30 {
        Some(
            match real_value(p) {
                Ok(x) => Ok(LeaderView { vertices_z: v.vertices_z.push(x), ..v }),
                Err(e) => Err(e),
            },
        )
    } else {
        None
    }
}

impl Leader {
    /// Applies a record to this `Leader`'s own fields; `Ok(false)` when the
    /// code is not one of them.
    pub fn apply_code_pair(&mut self, p: &CodePair) -> (r: DxfResult<bool>)
        ensures
            match leader_field(old(self)@, p@) {
                None => r == Ok::<bool, DxfError>(false) && final(self)@ == old(self)@,
                Some(Ok(n)) => r == Ok::<bool, DxfError>(true) && final(self)@ == n,
                Some(Err(e)) => r == Err::<bool, DxfError>(e) && final(self)@ == old(self)@,
            },
    {
        if p.code == 3 {
            self.dimension_style_name = p.assert_string()?;
        } else if p.code == 71 {
            self.use_arrowheads = p.assert_i16()? != 0;
        } else if p.code == 76 {
            p.code == p.code;
        } else if p.code == 10 {
            let x = p.assert_real()?;
            self.vertices_x.push(x);
        } else if p.code == 20 {
            let x = p.assert_real()?;
            self.vertices_y.push(x);
        } else if p.code == 30 {
            let x = p.assert_real()?;
            self.vertices_z.push(x);
        } else {
            return Ok(false);
        }
        Ok(true)
    }
}

/// What a record does to a `Insert`'s own fields: `None` when the code
/// is not one of them.
pub open spec fn insert_field(v: InsertView, p: CodePairView) -> Option<DxfResult<InsertView>> {
    if p.code == 66 {
        Some(
            match short_value(p) {
                Ok(x) => Ok(InsertView { has_attributes: x != 0, ..v }),
                Err(e) => Err(e),
            },
        )
    } else if p.code == 2 {
        Some(
            match string_value(p) {
                Ok(x) => Ok(InsertView { block_name: x, ..v }),
                Err(e) => Err(e),
            },
        )
    } else if p.code == 10 {
        Some(
            match real_value(p) {
                Ok(x) => Ok(InsertView { location: Point { x: x, ..v.location }, ..v }),
                Err(e) => Err(e),
            },
        )
    } else if p.code == 20 {
        Some(
            match real_value(p) {
                Ok(x) => Ok(InsertView { location: Point { y: x, ..v.location }, ..v }),
                Err(e) => Err(e),
            },
        )
    } else if p.code == 30 {
        Some(
            match real_value(p) {
                Ok(x) => Ok(InsertView { location: Point { z: x, ..v.location }, ..v }),
                Err(e) => Err(e),
            },
        )
    } else if p.code == 41 {
        Some(
            match real_value(p) {
                Ok(x) => Ok(InsertView { x_scale_factor: x, ..v }),
                Err(e) => Err(e),
            },
        )
    } else if p.code == 42 {
        Some(
            match real_value(p) {
                Ok(x) => Ok(InsertView { y_scale_factor: x, ..v }),
                Err(e) => Err(e),
            },
        )
    } else if p.code == 43 {
        Some(
            match real_value(p) {
                Ok(x) => Ok(InsertView { z_scale_factor: x, ..v }),
                Err(e) => Err(e),
            },
        )
    } else if p.code == 50 {
        Some(
            match real_value(p) {
                Ok(x) => Ok(InsertView { rotation: x, ..v }),
                Err(e) => Err(e),
            },
        )
    } else if p.code == 210 {
        Some(
            match real_value(p) {
                Ok(x) => Ok(InsertView { extrusion_direction: Point { x: x, ..v.extrusion_direction }, ..v }),
                Err(e) => Err(e),
            },
        )
    } else if p.code == 220 {
        Some(
            match real_value(p) {
                Ok(x) => Ok(InsertView { extrusion_direction: Point { y: x, ..v.extrusion_direction }, ..v }),
                Err(e) => Err(e),
            },
        )
    } else if p.code == 230 {
        Some(
            match real_value(p) {
                Ok(x) => Ok(InsertView { extrusion_direction: Point { z: x, ..v.extrusion_direction }, ..v }),
                Err(e) => Err(e),
            },
        )
    } else {
        None
    }
}

impl Insert {
    /// Applies a record to this `Insert`'s own fields; `Ok(false)` when the
    /// code is not one of them.
    pub fn apply_code_pair(&mut self, p: &CodePair) -> (r: DxfResult<bool>)
        ensures
            match insert_field(old(self)@, p@) {
                None => r == Ok::<bool, DxfError>(false) && final(self)@ == old(self)@,
                Some(Ok(n)) => r == Ok::<bool, DxfError>(true) && final(self)@ == n,
                Some(Err(e)) => r == Err::<bool, DxfError>(e) && final(self)@ == old(self)@,
            },
    {
        if p.code == 66 {
            self.has_attributes = p.assert_i16()? != 0;
        } else if p.code == 2 {
            self.block_name = p.assert_string()?;
        } else if p.code == 10 {
            self.location.x = p.assert_real()?;
        } else if p.code == 20 {
            self.location.y = p.assert_real()?;
        } else if p.code == 30 {
            self.location.z = p.assert_real()?;
        } else if p.code == 41 {
            self.x_scale_factor = p.assert_real()?;
        } else if p.code == 42 {
            self.y_scale_factor = p.assert_real()?;
        } else if p.code == 43 {
            self.z_scale_factor = p.assert_real()?;
        } else if p.code == 50 {
            self.rotation = p.assert_real()?;
        } else if p.code == 210 {
            self.extrusion_direction.x = p.assert_real()?;
        } else if p.code == 220 {
            self.extrusion_direction.y = p.assert_real()?;
        } else if p.code == 230 {
            self.extrusion_direction.z = p.assert_real()?;
        } else {
            return Ok(false);
        }
        Ok(true)
    }
}

/// What a record does to a `Polyline`'s own fields: `None` when the code
/// is not one of them.
pub open spec fn polyline_field(v: PolylineView, p: CodePairView) -> Option<DxfResult<PolylineView>> {
    if p.code == 66 {
        Some(
            match short_value(p) {
                Ok(x) => Ok(PolylineView { contains_vertices: x != 0, ..v }),
                Err(e) => Err(e),
            },
        )
    } else if p.code == 10 {
        Some(
            match real_value(p) {
                Ok(x) => Ok(PolylineView { location: Point { x: x, ..v.location }, ..v }),
                Err(e) => Err(e),
            },
        )
    } else if p.code == 20 {
        Some(
            match real_value(p) {
                Ok(x) => Ok(PolylineView { location: Point { y: x, ..v.location }, ..v }),
                Err(e) => Err(e),
            },
        )
    } else if p.code == 30 {
        Some(
            match real_value(p) {
                Ok(x) => Ok(PolylineView { location: Point { z: x, ..v.location }, ..v }),
                Err(e) => Err(e),
            },
        )
    } else if p.code == 39 {
        Some(
            match real_value(p) {
                Ok(x) => Ok(PolylineView { thickness: x, ..v }),
                Err(e) => Err(e),
            },
        )
    } else if p.code == 70 {
        Some(
            match short_value(p) {
                Ok(x) => Ok(PolylineView { flags: x as i32, ..v }),
                Err(e) => Err(e),
            },
        )
    } else if p.code == 40 {
        Some(
            match real_value(p) {
                Ok(x) => Ok(PolylineView { default_starting_width: x, ..v }),
                Err(e) => Err(e),
            },
        )
    } else if p.code == 41 {
        Some(
            match real_value(p) {
                Ok(x) => Ok(PolylineView { default_ending_width: x, ..v }),
                Err(e) => Err(e),
            },
        )
    } else if p.code == 71 {
        Some(
            match short_value(p) {
                Ok(x) => Ok(PolylineView { polygon_mesh_m_vertex_count: x as i32, ..v }),
                Err(e) => Err(e),
            },
        )
    } else if p.code == 72 {
        Some(
            match short_value(p) {
                Ok(x) => Ok(PolylineView { polygon_mesh_n_vertex_count: x as i32, ..v }),
                Err(e) => Err(e),
            },
        )
    } else if p.code == 73 {
        Some(
            match short_value(p) {
                Ok(x) => Ok(PolylineView { smooth_surface_m_density: x as i32, ..v }),
                Err(e) => Err(e),
            },
        )
    } else if p.code == 74 {
        Some(
            match short_value(p) {
                Ok(x) => Ok(PolylineView { smooth_surface_n_density: x as i32, ..v }),
                Err(e) => Err(e),
            },
        )
    } else if p.code == 75 {
        Some(
            match short_value(p) {
                Ok(x) => match PolylineCurvedAndSmoothSurfaceType::spec_from_i16(x) {
                    Some(en) => Ok(PolylineView { surface_type: en, ..v }),
                    None => Err(DxfError::UnexpectedEnumValue(p.offset)),
                },
                Err(e) => Err(e),
            },
        )
    } else if p.code == 210 {
        Some(
            match real_value(p) {
                Ok(x) => Ok(PolylineView { normal: Point { x: x, ..v.normal }, ..v }),
                Err(e) => Err(e),
            },
        )
    } else if p.code == 220 {
        Some(
            match real_value(p) {
                Ok(x) => Ok(PolylineView { normal: Point { y: x, ..v.normal }, ..v }),
                Err(e) => Err(e),
            },
        )
    } else if p.code == 230 {
        Some(
            match real_value(p) {
                Ok(x) => Ok(PolylineView { normal: Point { z: x, ..v.normal }, ..v }),
                Err(e) => Err(e),
            },
        )
    } else {
        None
    }
}

impl Polyline {
    /// Applies a record to this `Polyline`'s own fields; `Ok(false)` when the
    /// code is not one of them.
    pub fn apply_code_pair(&mut self, p: &CodePair) -> (r: DxfResult<bool>)
        ensures
            match polyline_field(old(self)@, p@) {
                None => r == Ok::<bool, DxfError>(false) && final(self)@ == old(self)@,
                Some(Ok(n)) => r == Ok::<bool, DxfError>(true) && final(self)@ == n,
                Some(Err(e)) => r == Err::<bool, DxfError>(e) && final(self)@ == old(self)@,
            },
    {
        if p.code == 66 {
            self.contains_vertices = p.assert_i16()? != 0;
        } else if p.code == 10 {
            self.location.x = p.assert_real()?;
        } else if p.code == 20 {
            self.location.y = p.assert_real()?;
        } else if p.code == 30 {
            self.location.z = p.assert_real()?;
        } else if p.code == 39 {
            self.thickness = p.assert_real()?;
        } else if p.code == 70 {
            self.flags = p.assert_i16()? as i32;
        } else if p.code == 40 {
            self.default_starting_width = p.assert_real()?;
        } else if p.code == 41 {
            self.default_ending_width = p.assert_real()?;
        } else if p.code == 71 {
            self.polygon_mesh_m_vertex_count = p.assert_i16()? as i32;
        } else if p.code == 72 {
            self.polygon_mesh_n_vertex_count = p.assert_i16()? as i32;
        } else if p.code == 73 {
            self.smooth_surface_m_density = p.assert_i16()? as i32;
        } else if p.code == 74 {
            self.smooth_surface_n_density = p.assert_i16()? as i32;
        } else if p.code == 75 {
            let x = p.assert_i16()?;
            match PolylineCurvedAndSmoothSurfaceType::from_i16(x) {
                Some(en) => {
                    self.surface_type = en;
                },
                None => {
                    return Err(DxfError::UnexpectedEnumValue(p.offset));
                },
            }
        } else if p.code == 210 {
            self.normal.x = p.assert_real()?;
        } else if p.code == 220 {
            self.normal.y = p.assert_real()?;
        } else if p.code == 230 {
            self.normal.z = p.assert_real()?;
        } else {
            return Ok(false);
        }
        Ok(true)
    }
}

/// What a record does to a `Vertex`'s own fields: `None` when the code
/// is not one of them.
pub open spec fn vertex_field(v: Vertex, p: CodePairView) -> Option<DxfResult<Vertex>> {
    if p.code == 10 {
        Some(
            match real_value(p) {
                Ok(x) => Ok(Vertex { location: Point { x: x, ..v.location }, ..v }),
                Err(e) => Err(e),
            },
        )
    } else if p.code == 20 {
        Some(
            match real_value(p) {
                Ok(x) => Ok(Vertex { location: Point { y: x, ..v.location }, ..v }),
                Err(e) => Err(e),
            },
        )
    } else if p.code == 30 {
        Some(
            match real_value(p) {
                Ok(x) => Ok(Vertex { location: Point { z: x, ..v.location }, ..v }),
                Err(e) => Err(e),
            },
        )
    } else if p.code == 40 {
        Some(
            match real_value(p) {
                Ok(x) => Ok(Vertex { starting_width: x, ..v }),
                Err(e) => Err(e),
            },
        )
    } else if p.code == 41 {
        Some(
            match real_value(p) {
                Ok(x) => Ok(Vertex { ending_width: x, ..v }),
                Err(e) => Err(e),
            },
        )
    } else if p.code == 42 {
        Some(
            match real_value(p) {
                Ok(x) => Ok(Vertex { bulge: x, ..v }),
                Err(e) => Err(e),
            },
        )
    } else if p.code == 70 {
        Some(
            match short_value(p) {
                Ok(x) => Ok(Vertex { flags: x as i32, ..v }),
                Err(e) => Err(e),
            },
        )
    } else if p.code == 50 {
        Some(
            match real_value(p) {
                Ok(x) => Ok(Vertex { curve_fit_tangent_direction: x, ..v }),
                Err(e) => Err(e),
            },
        )
    } else if p.code == 71 {
        Some(
            match short_value(p) {
                Ok(x) => Ok(Vertex { polyface_mesh_vertex_index1: x as i32, ..v }),
                Err(e) => Err(e),
            },
        )
    } else if p.code == 72 {
        Some(
            match short_value(p) {
                Ok(x) => Ok(Vertex { polyface_mesh_vertex_index2: x as i32, ..v }),
                Err(e) => Err(e),
            },
        )
    } else if p.code == 73 {
        Some(
            match short_value(p) {
                Ok(x) => Ok(Vertex { polyface_mesh_vertex_index3: x as i32, ..v }),
                Err(e) => Err(e),
            },
        )
    } else if p.code == 74 {
        Some(
            match short_value(p) {
                Ok(x) => Ok(Vertex { polyface_mesh_vertex_index4: x as i32, ..v }),
                Err(e) => Err(e),
            },
        )
    } else if p.code == 91 {
        Some(
            match int_value(p) {
                Ok(x) => Ok(Vertex { identifier: x, ..v }),
                Err(e) => Err(e),
            },
        )
    } else {
        None
    }
}

impl Vertex {
    /// Applies a record to this `Vertex`'s own fields; `Ok(false)` when the
    /// code is not one of them.
    pub fn apply_code_pair(&mut self, p: &CodePair) -> (r: DxfResult<bool>)
        ensures
            match vertex_field(*old(self), p@) {
                None => r == Ok::<bool, DxfError>(false) && *final(self) == *old(self),
                Some(Ok(n)) => r == Ok::<bool, DxfError>(true) && *final(self) == n,
                Some(Err(e)) => r == Err::<bool, DxfError>(e) && *final(self) == *old(self),
            },
    {
        if p.code == 10 {
            self.location.x = p.assert_real()?;
        } else if p.code == 20 {
            self.location.y = p.assert_real()?;
        } else if p.code == 30 {
            self.location.z = p.assert_real()?;
        } else if p.code == 40 {
            self.starting_width = p.assert_real()?;
        } else if p.code == 41 {
            self.ending_width = p.assert_real()?;
        } else if p.code == 42 {
            self.bulge = p.assert_real()?;
        } else if p.code == 70 {
            self.flags = p.assert_i16()? as i32;
        } else if p.code == 50 {
            self.curve_fit_tangent_direction = p.assert_real()?;
        } else if p.code == 71 {
            self.polyface_mesh_vertex_index1 = p.assert_i16()? as i32;
        } else if p.code == 72 {
            self.polyface_mesh_vertex_index2 = p.assert_i16()? as i32;
        } else if p.code == 73 {
            self.polyface_mesh_vertex_index3 = p.assert_i16()? as i32;
        } else if p.code == 74 {
            self.polyface_mesh_vertex_index4 = p.assert_i16()? as i32;
        } else if p.code == 91 {
            self.identifier = p.assert_i32()?;
        } else {
            return Ok(false);
        }
        Ok(true)
    }
}

/// What a record does to a `MText`'s own fields: `None` when the code
/// is not one of them.
pub open spec fn m_text_field(v: MTextView, p: CodePairView) -> Option<DxfResult<MTextView>> {
    if p.code == 10 {
        Some(
            match real_value(p) {
                Ok(x) => Ok(MTextView { insertion_point: Point { x: x, ..v.insertion_point }, ..v }),
                Err(e) => Err(e),
            },
        )
    } else if p.code == 20 {
        Some(
            match real_value(p) {
                Ok(x) => Ok(MTextView { insertion_point: Point { y: x, ..v.insertion_point }, ..v }),
                Err(e) => Err(e),
            },
        )
    } else if p.code == 30 {
        Some(
            match real_value(p) {
                Ok(x) => Ok(MTextView { insertion_point: Point { z: x, ..v.insertion_point }, ..v }),
                Err(e) => Err(e),
            },
        )
    } else if p.code == 40 {
        Some(
            match real_value(p) {
                Ok(x) => Ok(MTextView { initial_text_height: x, ..v }),
                Err(e) => Err(e),
            },
        )
    } else if p.code == 41 {
        Some(
            match real_value(p) {
                Ok(x) => Ok(MTextView { reference_rectangle_width: x, ..v }),
                Err(e) => Err(e),
            },
        )
    } else if p.code == 71 {
        Some(
            match short_value(p) {
                Ok(x) => match AttachmentPoint::spec_from_i16(x) {
                    Some(en) => Ok(MTextView { attachment_point: en, ..v }),
                    None => Err(DxfError::UnexpectedEnumValue(p.offset)),
                },
                Err(e) => Err(e),
            },
        )
    } else if p.code == 72 {
        Some(
            match short_value(p) {
                Ok(x) => match DrawingDirection::spec_from_i16(x) {
                    Some(en) => Ok(MTextView { drawing_direction: en, ..v }),
                    None => Err(DxfError::UnexpectedEnumValue(p.offset)),
                },
                Err(e) => Err(e),
            },
        )
    } else if p.code == 3 {
        Some(
            match string_value(p) {
                Ok(x) => Ok(MTextView { extended_text: v.extended_text.push(x), ..v }),
                Err(e) => Err(e),
            },
        )
    } else if p.code == 1 {
        Some(
            match string_value(p) {
                Ok(x) => Ok(MTextView { text: x, ..v }),
                Err(e) => Err(e),
            },
        )
    } else if p.code == 7 {
        Some(
            match string_value(p) {
                Ok(x) => Ok(MTextView { text_style_name: x, ..v }),
                Err(e) => Err(e),
            },
        )
    } else if p.code == 210 {
        Some(
            match real_value(p) {
                Ok(x) => Ok(MTextView { extrusion_direction: Point { x: x, ..v.extrusion_direction }, ..v }),
                Err(e) => Err(e),
            },
        )
    } else if p.code == 220 {
        Some(
            match real_value(p) {
                Ok(x) => Ok(MTextView { extrusion_direction: Point { y: x, ..v.extrusion_direction }, ..v }),
                Err(e) => Err(e),
            },
        )
    } else if p.code == 230 {
        Some(
            match real_value(p) {
                Ok(x) => Ok(MTextView { extrusion_direction: Point { z: x, ..v.extrusion_direction }, ..v }),
                Err(e) => Err(e),
            },
        )
    } else if p.code == 11 {
        Some(
            match real_value(p) {
                Ok(x) => Ok(MTextView { x_axis_direction: Point { x: x, ..v.x_axis_direction }, ..v }),
                Err(e) => Err(e),
            },
        )
    } else if p.code == 21 {
        Some(
            match real_value(p) {
                Ok(x) => Ok(MTextView { x_axis_direction: Point { y: x, ..v.x_axis_direction }, ..v }),
                Err(e) => Err(e),
            },
        )
    } else if p.code == 31 {
        Some(
            match real_value(p) {
                Ok(x) => Ok(MTextView { x_axis_direction: Point { z: x, ..v.x_axis_direction }, ..v }),
                Err(e) => Err(e),
            },
        )
    } else if p.code == 42 {
        Some(
            match real_value(p) {
                Ok(x) => Ok(MTextView { horizontal_width: x, ..v }),
                Err(e) => Err(e),
            },
        )
    } else if p.code == 43 {
        Some(
            match real_value(p) {
                Ok(x) => Ok(MTextView { vertical_height: x, ..v }),
                Err(e) => Err(e),
            },
        )
    } else if p.code == 73 {
        Some(
            match short_value(p) {
                Ok(x) => match LineSpacingStyle::spec_from_i16(x) {
                    Some(en) => Ok(MTextView { line_spacing_style: en, ..v }),
                    None => Err(DxfError::UnexpectedEnumValue(p.offset)),
                },
                Err(e) => Err(e),
            },
        )
    } else if p.code == 44 {
        Some(
            match real_value(p) {
                Ok(x) => Ok(MTextView { line_spacing_factor: x, ..v }),
                Err(e) => Err(e),
            },
        )
    } else if p.code == 90 {
        Some(
            match int_value(p) {
                Ok(x) => if -32768 <= x <= 32767 {
                    match BackgroundFillSetting::spec_from_i16(x as i16) {
                        Some(en) => Ok(MTextView { background_fill_setting: en, ..v }),
                        None => Err(DxfError::UnexpectedEnumValue(p.offset)),
                    }
                } else {
                    Err(DxfError::UnexpectedEnumValue(p.offset))
                },
                Err(e) => Err(e),
            },
        )
    } else if p.code == 420 {
        Some(
            match int_value(p) {
                Ok(x) => Ok(MTextView { background_color_rgb: x, ..v }),
                Err(e) => Err(e),
            },
        )
    } else if p.code == 430 {
        Some(
            match string_value(p) {
                Ok(x) => Ok(MTextView { background_color_name: x, ..v }),
                Err(e) => Err(e),
            },
        )
    } else if p.code == 45 {
        Some(
            match real_value(p) {
                Ok(x) => Ok(MTextView { fill_box_scale: x, ..v }),
                Err(e) => Err(e),
            },
        )
    } else if p.code == 63 {
        Some(
            match short_value(p) {
                Ok(x) => Ok(MTextView { background_fill_color: x, ..v }),
                Err(e) => Err(e),
            },
        )
    } else if p.code == 441 {
        Some(
            match int_value(p) {
                Ok(x) => Ok(MTextView { background_fill_color_transparency: x, ..v }),
                Err(e) => Err(e),
            },
        )
    } else if p.code == 76 {
        Some(
            match short_value(p) {
                Ok(x) => Ok(MTextView { column_count: x as i32, ..v }),
                Err(e) => Err(e),
            },
        )
    } else if p.code == 78 {
        Some(
            match short_value(p) {
                Ok(x) => Ok(MTextView { is_column_flow_reversed: x != 0, ..v }),
                Err(e) => Err(e),
            },
        )
    } else if p.code == 79 {
        Some(
            match short_value(p) {
                Ok(x) => Ok(MTextView { is_column_auto_height: x != 0, ..v }),
                Err(e) => Err(e),
            },
        )
    } else if p.code == 48 {
        Some(
            match real_value(p) {
                Ok(x) => Ok(MTextView { column_width: x, ..v }),
                Err(e) => Err(e),
            },
        )
    } else if p.code == 49 {
        Some(
            match real_value(p) {
                Ok(x) => Ok(MTextView { column_gutter: x, ..v }),
                Err(e) => Err(e),
            },
        )
    } else {
        None
    }
}

impl MText {
    /// Applies a record to this `MText`'s own fields; `Ok(false)` when the
    /// code is not one of them.
    pub fn apply_code_pair(&mut self, p: &CodePair) -> (r: DxfResult<bool>)
        ensures
            match m_text_field(old(self)@, p@) {
                None => r == Ok::<bool, DxfError>(false) && final(self)@ == old(self)@,
                Some(Ok(n)) => r == Ok::<bool, DxfError>(true) && final(self)@ == n,
                Some(Err(e)) => r == Err::<bool, DxfError>(e) && final(self)@ == old(self)@,
            },
    {
        if p.code == 10 {
            self.insertion_point.x = p.assert_real()?;
        } else if p.code == 20 {
            self.insertion_point.y = p.assert_real()?;
        } else if p.code == 30 {
            self.insertion_point.z = p.assert_real()?;
        } else if p.code == 40 {
            self.initial_text_height = p.assert_real()?;
        } else if p.code == 41 {
            self.reference_rectangle_width = p.assert_real()?;
        } else if p.code == 71 {
            let x = p.assert_i16()?;
            match AttachmentPoint::from_i16(x) {
                Some(en) => {
                    self.attachment_point = en;
                },
                None => {
                    return Err(DxfError::UnexpectedEnumValue(p.offset));
                },
            }
        } else if p.code == 72 {
            let x = p.assert_i16()?;
            match DrawingDirection::from_i16(x) {
                Some(en) => {
                    self.drawing_direction = en;
                },
                None => {
                    return Err(DxfError::UnexpectedEnumValue(p.offset));
                },
            }
        } else if p.code == 3 {
            let x = p.assert_string()?;
            let ghost before = self.extended_text@;
            self.extended_text.push(x);
            assert(self.extended_text@.map_values(|s: String| s@) =~= before.map_values(|s: String| s@).push(x@));
        } else if p.code == 1 {
            self.text = p.assert_string()?;
        } else if p.code == 7 {
            self.text_style_name = p.assert_string()?;
        } else if p.code == 210 {
            self.extrusion_direction.x = p.assert_real()?;
        } else if p.code == 220 {
            self.extrusion_direction.y = p.assert_real()?;
        } else if p.code == 230 {
            self.extrusion_direction.z = p.assert_real()?;
        } else if p.code == 11 {
            self.x_axis_direction.x = p.assert_real()?;
        } else if p.code == 21 {
            self.x_axis_direction.y = p.assert_real()?;
        } else if p.code == 31 {
            self.x_axis_direction.z = p.assert_real()?;
        } else if p.code == 42 {
            self.horizontal_width = p.assert_real()?;
        } else if p.code == 43 {
            self.vertical_height = p.assert_real()?;
        } else if p.code == 73 {
            let x = p.assert_i16()?;
            match LineSpacingStyle::from_i16(x) {
                Some(en) => {
                    self.line_spacing_style = en;
                },
                None => {
                    return Err(DxfError::UnexpectedEnumValue(p.offset));
                },
            }
        } else if p.code == 44 {
            self.line_spacing_factor = p.assert_real()?;
        } else if p.code == 90 {
            let x = p.assert_i32()?;
            if x < -32768 || x > 32767 {
                return Err(DxfError::UnexpectedEnumValue(p.offset));
            }
            match BackgroundFillSetting::from_i16(x as i16) {
                Some(en) => {
                    self.background_fill_setting = en;
                },
                None => {
                    return Err(DxfError::UnexpectedEnumValue(p.offset));
                },
            }
        } else if p.code == 420 {
            self.background_color_rgb = p.assert_i32()?;
        } else if p.code == 430 {
            self.background_color_name = p.assert_string()?;
        } else if p.code == 45 {
            self.fill_box_scale = p.assert_real()?;
        } else if p.code == 63 {
            self.background_fill_color = p.assert_i16()?;
        } else if p.code == 441 {
            self.background_fill_color_transparency = p.assert_i32()?;
        } else if p.code == 76 {
            self.column_count = p.assert_i16()? as i32;
        } else if p.code == 78 {
            self.is_column_flow_reversed = p.assert_i16()? != 0;
        } else if p.code == 79 {
            self.is_column_auto_height = p.assert_i16()? != 0;
        } else if p.code == 48 {
            self.column_width = p.assert_real()?;
        } else if p.code == 49 {
            self.column_gutter = p.assert_real()?;
        } else {
            return Ok(false);
        }
        Ok(true)
    }
}

/// What a record does to a `LwPolyline`'s own fields: `None` when the code
/// is not one of them.
pub open spec fn lw_polyline_field(v: LwPolylineView, p: CodePairView) -> Option<DxfResult<LwPolylineView>> {
    if p.code == 39 {
        Some(
            match real_value(p) {
                Ok(x) => Ok(LwPolylineView { thickness: x, ..v }),
                Err(e) => Err(e),
            },
        )
    } else if p.code == 43 {
        Some(
            match real_value(p) {
                Ok(x) => Ok(LwPolylineView { constant_width: x, ..v }),
                Err(e) => Err(e),
            },
        )
    } else if p.code == 70 {
        Some(
            match short_value(p) {
                Ok(x) => Ok(LwPolylineView { flags: x as i32, ..v }),
                Err(e) => Err(e),
            },
        )
    } else if p.code == 210 {
        Some(
            match real_value(p) {
                Ok(x) => Ok(LwPolylineView { extrusion_direction: Point { x: x, ..v.extrusion_direction }, ..v }),
                Err(e) => Err(e),
            },
        )
    } else if p.code == 220 {
        Some(
            match real_value(p) {
                Ok(x) => Ok(LwPolylineView { extrusion_direction: Point { y: x, ..v.extrusion_direction }, ..v }),
                Err(e) => Err(e),
            },
        )
    } else if p.code == 230 {
        Some(
            match real_value(p) {
                Ok(x) => Ok(LwPolylineView { extrusion_direction: Point { z: x, ..v.extrusion_direction }, ..v }),
                Err(e) => Err(e),
            },
        )
    } else {
        None
    }
}

impl LwPolyline {
    /// Applies a record to this `LwPolyline`'s own fields; `Ok(false)` when the
    /// code is not one of them.
    pub fn apply_code_pair(&mut self, p: &CodePair) -> (r: DxfResult<bool>)
        ensures
            match lw_polyline_field(old(self)@, p@) {
                None => r == Ok::<bool, DxfError>(false) && final(self)@ == old(self)@,
                Some(Ok(n)) => r == Ok::<bool, DxfError>(true) && final(self)@ == n,
                Some(Err(e)) => r == Err::<bool, DxfError>(e) && final(self)@ == old(self)@,
            },
    {
        if p.code == 39 {
            self.thickness = p.assert_real()?;
        } else if p.code == 43 {
            self.constant_width = p.assert_real()?;
        } else if p.code == 70 {
            self.flags = p.assert_i16()? as i32;
        } else if p.code == 210 {
            self.extrusion_direction.x = p.assert_real()?;
        } else if p.code == 220 {
            self.extrusion_direction.y = p.assert_real()?;
        } else if p.code == 230 {
            self.extrusion_direction.z = p.assert_real()?;
        } else {
            return Ok(false);
        }
        Ok(true)
    }
}

/// What a record does to a `AttributeFields`'s own fields: `None` when the code
/// is not one of them.
pub open spec fn attribute_fields_field(v: AttributeFieldsView, p: CodePairView) -> Option<DxfResult<AttributeFieldsView>> {
    if p.code == 1 {
        Some(
            match string_value(p) {
                Ok(x) => Ok(AttributeFieldsView { value: x, ..v }),
                Err(e) => Err(e),
            },
        )
    } else if p.code == 7 {
        Some(
            match string_value(p) {
                Ok(x) => Ok(AttributeFieldsView { text_style_name: x, ..v }),
                Err(e) => Err(e),
            },
        )
    } else if p.code == 11 {
        Some(
            match real_value(p) {
                Ok(x) => Ok(AttributeFieldsView { second_alignment_point: Point { x: x, ..v.second_alignment_point }, ..v }),
                Err(e) => Err(e),
            },
        )
    } else if p.code == 21 {
        Some(
            match real_value(p) {
                Ok(x) => Ok(AttributeFieldsView { second_alignment_point: Point { y: x, ..v.second_alignment_point }, ..v }),
                Err(e) => Err(e),
            },
        )
    } else if p.code == 31 {
        Some(
            match real_value(p) {
                Ok(x) => Ok(AttributeFieldsView { second_alignment_point: Point { z: x, ..v.second_alignment_point }, ..v }),
                Err(e) => Err(e),
            },
        )
    } else if p.code == 39 {
        Some(
            match real_value(p) {
                Ok(x) => Ok(AttributeFieldsView { thickness: x, ..v }),
                Err(e) => Err(e),
            },
        )
    } else if p.code == 41 {
        Some(
            match real_value(p) {
                Ok(x) => Ok(AttributeFieldsView { relative_x_scale_factor: x, ..v }),
                Err(e) => Err(e),
            },
        )
    } else if p.code == 50 {
        Some(
            match real_value(p) {
                Ok(x) => Ok(AttributeFieldsView { rotation: x, ..v }),
                Err(e) => Err(e),
            },
        )
    } else if p.code == 51 {
        Some(
            match real_value(p) {
                Ok(x) => Ok(AttributeFieldsView { oblique_angle: x, ..v }),
                Err(e) => Err(e),
            },
        )
    } else if p.code == 71 {
        Some(
            match short_value(p) {
                Ok(x) => Ok(AttributeFieldsView { text_generation_flags: x as i32, ..v }),
                Err(e) => Err(e),
            },
        )
    } else if p.code == 72 {
        Some(
            match short_value(p) {
                Ok(x) => match HorizontalTextJustification::spec_from_i16(x) {
                    Some(en) => Ok(AttributeFieldsView { horizontal_text_justification: en, ..v }),
                    None => Err(DxfError::UnexpectedEnumValue(p.offset)),
                },
                Err(e) => Err(e),
            },
        )
    } else if p.code == 73 {
        Some(
            match short_value(p) {
                Ok(x) => Ok(AttributeFieldsView { field_length: x, ..v }),
                Err(e) => Err(e),
            },
        )
    } else if p.code == 74 {
        Some(
            match short_value(p) {
                Ok(x) => match VerticalTextJustification::spec_from_i16(x) {
                    Some(en) => Ok(AttributeFieldsView { vertical_text_justification: en, ..v }),
                    None => Err(DxfError::UnexpectedEnumValue(p.offset)),
                },
                Err(e) => Err(e),
            },
        )
    } else if p.code == 210 {
        Some(
            match real_value(p) {
                Ok(x) => Ok(AttributeFieldsView { normal: Point { x: x, ..v.normal }, ..v }),
                Err(e) => Err(e),
            },
        )
    } else if p.code == 220 {
        Some(
            match real_value(p) {
                Ok(x) => Ok(AttributeFieldsView { normal: Point { y: x, ..v.normal }, ..v }),
                Err(e) => Err(e),
            },
        )
    } else if p.code == 230 {
        Some(
            match real_value(p) {
                Ok(x) => Ok(AttributeFieldsView { normal: Point { z: x, ..v.normal }, ..v }),
                Err(e) => Err(e),
            },
        )
    } else if p.code == 340 {
        Some(
            match handle_value(p) {
                Ok(x) => Ok(AttributeFieldsView { secondary_attributes_handle: v.secondary_attributes_handle.push(x), ..v }),
                Err(e) => Err(e),
            },
        )
    } else {
        None
    }
}

impl AttributeFields {
    /// Applies a record to this `AttributeFields`'s own fields; `Ok(false)` when the
    /// code is not one of them.
    pub fn apply_code_pair(&mut self, p: &CodePair) -> (r: DxfResult<bool>)
        ensures
            match attribute_fields_field(old(self)@, p@) {
                None => r == Ok::<bool, DxfError>(false) && final(self)@ == old(self)@,
                Some(Ok(n)) => r == Ok::<bool, DxfError>(true) && final(self)@ == n,
                Some(Err(e)) => r == Err::<bool, DxfError>(e) && final(self)@ == old(self)@,
            },
    {
        if p.code == 1 {
            self.value = p.assert_string()?;
        } else if p.code == 7 {
            self.text_style_name = p.assert_string()?;
        } else if p.code == 11 {
            self.second_alignment_point.x = p.assert_real()?;
        } else if p.code == 21 {
            self.second_alignment_point.y = p.assert_real()?;
        } else if p.code == 31 {
            self.second_alignment_point.z = p.assert_real()?;
        } else if p.code == 39 {
            self.thickness = p.assert_real()?;
        } else if p.code == 41 {
            self.relative_x_scale_factor = p.assert_real()?;
        } else if p.code == 50 {
            self.rotation = p.assert_real()?;
        } else if p.code == 51 {
            self.oblique_angle = p.assert_real()?;
        } else if p.code == 71 {
            self.text_generation_flags = p.assert_i16()? as i32;
        } else if p.code == 72 {
            let x = p.assert_i16()?;
            match HorizontalTextJustification::from_i16(x) {
                Some(en) => {
                    self.horizontal_text_justification = en;
                },
                None => {
                    return Err(DxfError::UnexpectedEnumValue(p.offset));
                },
            }
        } else if p.code == 73 {
            self.field_length = p.assert_i16()?;
        } else if p.code == 74 {
            let x = p.assert_i16()?;
            match VerticalTextJustification::from_i16(x) {
                Some(en) => {
                    self.vertical_text_justification = en;
                },
                None => {
                    return Err(DxfError::UnexpectedEnumValue(p.offset));
                },
            }
        } else if p.code == 210 {
            self.normal.x = p.assert_real()?;
        } else if p.code == 220 {
            self.normal.y = p.assert_real()?;
        } else if p.code == 230 {
            self.normal.z = p.assert_real()?;
        } else if p.code == 340 {
            let x = p.as_handle()?;
            self.secondary_attributes_handle.push(x);
        } else {
            return Ok(false);
        }
        Ok(true)
    }
}

/// What a record does to a `DimensionBase`'s own fields: `None` when the code
/// is not one of them.
pub open spec fn dimension_base_field(v: DimensionBaseView, p: CodePairView) -> Option<DxfResult<DimensionBaseView>> {
    if p.code == 1 {
        Some(
            match string_value(p) {
                Ok(x) => Ok(DimensionBaseView { text: x, ..v }),
                Err(e) => Err(e),
            },
        )
    } else if p.code == 2 {
        Some(
            match string_value(p) {
                Ok(x) => Ok(DimensionBaseView { block_name: x, ..v }),
                Err(e) => Err(e),
            },
        )
    } else if p.code == 3 {
        Some(
            match string_value(p) {
                Ok(x) => Ok(DimensionBaseView { dimension_style_name: x, ..v }),
                Err(e) => Err(e),
            },
        )
    } else if p.code == 10 {
        Some(
            match real_value(p) {
                Ok(x) => Ok(DimensionBaseView { definition_point_1: Point { x: x, ..v.definition_point_1 }, ..v }),
                Err(e) => Err(e),
            },
        )
    } else if p.code == 20 {
        Some(
            match real_value(p) {
                Ok(x) => Ok(DimensionBaseView { definition_point_1: Point { y: x, ..v.definition_point_1 }, ..v }),
                Err(e) => Err(e),
            },
        )
    } else if p.code == 30 {
        Some(
            match real_value(p) {
                Ok(x) => Ok(DimensionBaseView { definition_point_1: Point { z: x, ..v.definition_point_1 }, ..v }),
                Err(e) => Err(e),
            },
        )
    } else if p.code == 11 {
        Some(
            match real_value(p) {
                Ok(x) => Ok(DimensionBaseView { text_mid_point: Point { x: x, ..v.text_mid_point }, ..v }),
                Err(e) => Err(e),
            },
        )
    } else if p.code == 21 {
        Some(
            match real_value(p) {
                Ok(x) => Ok(DimensionBaseView { text_mid_point: Point { y: x, ..v.text_mid_point }, ..v }),
                Err(e) => Err(e),
            },
        )
    } else if p.code == 31 {
        Some(
            match real_value(p) {
                Ok(x) => Ok(DimensionBaseView { text_mid_point: Point { z: x, ..v.text_mid_point }, ..v }),
                Err(e) => Err(e),
            },
        )
    } else if p.code == 41 {
        Some(
            match real_value(p) {
                Ok(x) => Ok(DimensionBaseView { text_line_spacing_factor: x, ..v }),
                Err(e) => Err(e),
            },
        )
    } else if p.code == 42 {
        Some(
            match real_value(p) {
                Ok(x) => Ok(DimensionBaseView { actual_measurement: x, ..v }),
                Err(e) => Err(e),
            },
        )
    } else if p.code == 51 {
        Some(
            match real_value(p) {
                Ok(x) => Ok(DimensionBaseView { horizontal_direction_angle: x, ..v }),
                Err(e) => Err(e),
            },
        )
    } else if p.code == 53 {
        Some(
            match real_value(p) {
                Ok(x) => Ok(DimensionBaseView { text_rotation_angle: x, ..v }),
                Err(e) => Err(e),
            },
        )
    } else if p.code == 71 {
        Some(
            match short_value(p) {
                Ok(x) => match AttachmentPoint::spec_from_i16(x) {
                    Some(en) => Ok(DimensionBaseView { attachment_point: en, ..v }),
                    None => Err(DxfError::UnexpectedEnumValue(p.offset)),
                },
                Err(e) => Err(e),
            },
        )
    } else if p.code == 72 {
        Some(
            match short_value(p) {
                Ok(x) => match LineSpacingStyle::spec_from_i16(x) {
                    Some(en) => Ok(DimensionBaseView { text_line_spacing_style: en, ..v }),
                    None => Err(DxfError::UnexpectedEnumValue(p.offset)),
                },
                Err(e) => Err(e),
            },
        )
    } else if p.code == 210 {
        Some(
            match real_value(p) {
                Ok(x) => Ok(DimensionBaseView { normal: Point { x: x, ..v.normal }, ..v }),
                Err(e) => Err(e),
            },
        )
    } else if p.code == 220 {
        Some(
            match real_value(p) {
                Ok(x) => Ok(DimensionBaseView { normal: Point { y: x, ..v.normal }, ..v }),
                Err(e) => Err(e),
            },
        )
    } else if p.code == 230 {
        Some(
            match real_value(p) {
                Ok(x) => Ok(DimensionBaseView { normal: Point { z: x, ..v.normal }, ..v }),
                Err(e) => Err(e),
            },
        )
    } else if p.code == 280 {
        Some(
            match short_value(p) {
                Ok(x) => match Version::spec_from_i16(x) {
                    Some(en) => Ok(DimensionBaseView { version: en, ..v }),
                    None => Err(DxfError::UnexpectedEnumValue(p.offset)),
                },
                Err(e) => Err(e),
            },
        )
    } else {
        None
    }
}

impl DimensionBase {
    /// Applies a record to this `DimensionBase`'s own fields; `Ok(false)` when the
    /// code is not one of them.
    pub fn apply_code_pair(&mut self, p: &CodePair) -> (r: DxfResult<bool>)
        ensures
            match dimension_base_field(old(self)@, p@) {
                None => r == Ok::<bool, DxfError>(false) && final(self)@ == old(self)@,
                Some(Ok(n)) => r == Ok::<bool, DxfError>(true) && final(self)@ == n,
                Some(Err(e)) => r == Err::<bool, DxfError>(e) && final(self)@ == old(self)@,
            },
    {
        if p.code == 1 {
            self.text = p.assert_string()?;
        } else if p.code == 2 {
            self.block_name = p.assert_string()?;
        } else if p.code == 3 {
            self.dimension_style_name = p.assert_string()?;
        } else if p.code == 10 {
            self.definition_point_1.x = p.assert_real()?;
        } else if p.code == 20 {
            self.definition_point_1.y = p.assert_real()?;
        } else if p.code == 30 {
            self.definition_point_1.z = p.assert_real()?;
        } else if p.code == 11 {
            self.text_mid_point.x = p.assert_real()?;
        } else if p.code == 21 {
            self.text_mid_point.y = p.assert_real()?;
        } else if p.code == 31 {
            self.text_mid_point.z = p.assert_real()?;
        } else if p.code == 41 {
            self.text_line_spacing_factor = p.assert_real()?;
        } else if p.code == 42 {
            self.actual_measurement = p.assert_real()?;
        } else if p.code == 51 {
            self.horizontal_direction_angle = p.assert_real()?;
        } else if p.code == 53 {
            self.text_rotation_angle = p.assert_real()?;
        } else if p.code == 71 {
            let x = p.assert_i16()?;
            match AttachmentPoint::from_i16(x) {
                Some(en) => {
                    self.attachment_point = en;
                },
                None => {
                    return Err(DxfError::UnexpectedEnumValue(p.offset));
                },
            }
        } else if p.code == 72 {
            let x = p.assert_i16()?;
            match LineSpacingStyle::from_i16(x) {
                Some(en) => {
                    self.text_line_spacing_style = en;
                },
                None => {
                    return Err(DxfError::UnexpectedEnumValue(p.offset));
                },
            }
        } else if p.code == 210 {
            self.normal.x = p.assert_real()?;
        } else if p.code == 220 {
            self.normal.y = p.assert_real()?;
        } else if p.code == 230 {
            self.normal.z = p.assert_real()?;
        } else if p.code == 280 {
            let x = p.assert_i16()?;
            match Version::from_i16(x) {
                Some(en) => {
                    self.version = en;
                },
                None => {
                    return Err(DxfError::UnexpectedEnumValue(p.offset));
                },
            }
        } else {
            return Ok(false);
        }
        Ok(true)
    }
}

/// What a record does to a `RotatedDimension`'s own fields: `None` when the code
/// is not one of them.
pub open spec fn rotated_dimension_field(v: RotatedDimensionView, p: CodePairView) -> Option<DxfResult<RotatedDimensionView>> {
    if p.code == 12 {
        Some(
            match real_value(p) {
                Ok(x) => Ok(RotatedDimensionView { insertion_point: Point { x: x, ..v.insertion_point }, ..v }),
                Err(e) => Err(e),
            },
        )
    } else if p.code == 22 {
        Some(
            match real_value(p) {
                Ok(x) => Ok(RotatedDimensionView { insertion_point: Point { y: x, ..v.insertion_point }, ..v }),
                Err(e) => Err(e),
            },
        )
    } else if p.code == 32 {
        Some(
            match real_value(p) {
                Ok(x) => Ok(RotatedDimensionView { insertion_point: Point { z: x, ..v.insertion_point }, ..v }),
                Err(e) => Err(e),
            },
        )
    } else if p.code == 13 {
        Some(
            match real_value(p) {
                Ok(x) => Ok(RotatedDimensionView { definition_point_2: Point { x: x, ..v.definition_point_2 }, ..v }),
                Err(e) => Err(e),
            },
        )
    } else if p.code == 23 {
        Some(
            match real_value(p) {
                Ok(x) => Ok(RotatedDimensionView { definition_point_2: Point { y: x, ..v.definition_point_2 }, ..v }),
                Err(e) => Err(e),
            },
        )
    } else if p.code == 33 {
        Some(
            match real_value(p) {
                Ok(x) => Ok(RotatedDimensionView { definition_point_2: Point { z: x, ..v.definition_point_2 }, ..v }),
                Err(e) => Err(e),
            },
        )
    } else if p.code == 14 {
        Some(
            match real_value(p) {
                Ok(x) => Ok(RotatedDimensionView { definition_point_3: Point { x: x, ..v.definition_point_3 }, ..v }),
                Err(e) => Err(e),
            },
        )
    } else if p.code == 24 {
        Some(
            match real_value(p) {
                Ok(x) => Ok(RotatedDimensionView { definition_point_3: Point { y: x, ..v.definition_point_3 }, ..v }),
                Err(e) => Err(e),
            },
        )
    } else if p.code == 34 {
        Some(
            match real_value(p) {
                Ok(x) => Ok(RotatedDimensionView { definition_point_3: Point { z: x, ..v.definition_point_3 }, ..v }),
                Err(e) => Err(e),
            },
        )
    } else if p.code == 50 {
        Some(
            match real_value(p) {
                Ok(x) => Ok(RotatedDimensionView { rotation_angle: x, ..v }),
                Err(e) => Err(e),
            },
        )
    } else if p.code == 52 {
        Some(
            match real_value(p) {
                Ok(x) => Ok(RotatedDimensionView { extension_line_angle: x, ..v }),
                Err(e) => Err(e),
            },
        )
    } else {
        None
    }
}

impl RotatedDimension {
    /// Applies a record to this `RotatedDimension`'s own fields; `Ok(false)` when the
    /// code is not one of them.
    pub fn apply_code_pair(&mut self, p: &CodePair) -> (r: DxfResult<bool>)
        ensures
            match rotated_dimension_field(old(self)@, p@) {
                None => r == Ok::<bool, DxfError>(false) && final(self)@ == old(self)@,
                Some(Ok(n)) => r == Ok::<bool, DxfError>(true) && final(self)@ == n,
                Some(Err(e)) => r == Err::<bool, DxfError>(e) && final(self)@ == old(self)@,
            },
    {
        if p.code == 12 {
            self.insertion_point.x = p.assert_real()?;
        } else if p.code == 22 {
            self.insertion_point.y = p.assert_real()?;
        } else if p.code == 32 {
            self.insertion_point.z = p.assert_real()?;
        } else if p.code == 13 {
            self.definition_point_2.x = p.assert_real()?;
        } else if p.code == 23 {
            self.definition_point_2.y = p.assert_real()?;
        } else if p.code == 33 {
            self.definition_point_2.z = p.assert_real()?;
        } else if p.code == 14 {
            self.definition_point_3.x = p.assert_real()?;
        } else if p.code == 24 {
            self.definition_point_3.y = p.assert_real()?;
        } else if p.code == 34 {
            self.definition_point_3.z = p.assert_real()?;
        } else if p.code == 50 {
            self.rotation_angle = p.assert_real()?;
        } else if p.code == 52 {
            self.extension_line_angle = p.assert_real()?;
        } else {
            return Ok(false);
        }
        Ok(true)
    }
}

/// What a record does to a `RadialDimension`'s own fields: `None` when the code
/// is not one of them.
pub open spec fn radial_dimension_field(v: RadialDimensionView, p: CodePairView) -> Option<DxfResult<RadialDimensionView>> {
    if p.code == 15 {
        Some(
            match real_value(p) {
                Ok(x) => Ok(RadialDimensionView { definition_point_2: Point { x: x, ..v.definition_point_2 }, ..v }),
                Err(e) => Err(e),
            },
        )
    } else if p.code == 25 {
        Some(
            match real_value(p) {
                Ok(x) => Ok(RadialDimensionView { definition_point_2: Point { y: x, ..v.definition_point_2 }, ..v }),
                Err(e) => Err(e),
            },
        )
    } else if p.code == 35 {
        Some(
            match real_value(p) {
                Ok(x) => Ok(RadialDimensionView { definition_point_2: Point { z: x, ..v.definition_point_2 }, ..v }),
                Err(e) => Err(e),
            },
        )
    } else if p.code == 40 {
        Some(
            match real_value(p) {
                Ok(x) => Ok(RadialDimensionView { leader_length: x, ..v }),
                Err(e) => Err(e),
            },
        )
    } else {
        None
    }
}

impl RadialDimension {
    /// Applies a record to this `RadialDimension`'s own fields; `Ok(false)` when the
    /// code is not one of them.
    pub fn apply_code_pair(&mut self, p: &CodePair) -> (r: DxfResult<bool>)
        ensures
            match radial_dimension_field(old(self)@, p@) {
                None => r == Ok::<bool, DxfError>(false) && final(self)@ == old(self)@,
                Some(Ok(n)) => r == Ok::<bool, DxfError>(true) && final(self)@ == n,
                Some(Err(e)) => r == Err::<bool, DxfError>(e) && final(self)@ == old(self)@,
            },
    {
        if p.code == 15 {
            self.definition_point_2.x = p.assert_real()?;
        } else if p.code == 25 {
            self.definition_point_2.y = p.assert_real()?;
        } else if p.code == 35 {
            self.definition_point_2.z = p.assert_real()?;
        } else if p.code == 40 {
            self.leader_length = p.assert_real()?;
        } else {
            return Ok(false);
        }
        Ok(true)
    }
}

/// What a record does to a `DiameterDimension`'s own fields: `None` when the code
/// is not one of them.
pub open spec fn diameter_dimension_field(v: DiameterDimensionView, p: CodePairView) -> Option<DxfResult<DiameterDimensionView>> {
    if p.code == 15 {
        Some(
            match real_value(p) {
                Ok(x) => Ok(DiameterDimensionView { definition_point_2: Point { x: x, ..v.definition_point_2 }, ..v }),
                Err(e) => Err(e),
            },
        )
    } else if p.code == 25 {
        Some(
            match real_value(p) {
                Ok(x) => Ok(DiameterDimensionView { definition_point_2: Point { y: x, ..v.definition_point_2 }, ..v }),
                Err(e) => Err(e),
            },
        )
    } else if p.code == 35 {
        Some(
            match real_value(p) {
                Ok(x) => Ok(DiameterDimensionView { definition_point_2: Point { z: x, ..v.definition_point_2 }, ..v }),
                Err(e) => Err(e),
            },
        )
    } else if p.code == 40 {
        Some(
            match real_value(p) {
                Ok(x) => Ok(DiameterDimensionView { leader_length: x, ..v }),
                Err(e) => Err(e),
            },
        )
    } else {
        None
    }
}

impl DiameterDimension {
    /// Applies a record to this `DiameterDimension`'s own fields; `Ok(false)` when the
    /// code is not one of them.
    pub fn apply_code_pair(&mut self, p: &CodePair) -> (r: DxfResult<bool>)
        ensures
            match diameter_dimension_field(old(self)@, p@) {
                None => r == Ok::<bool, DxfError>(false) && final(self)@ == old(self)@,
                Some(Ok(n)) => r == Ok::<bool, DxfError>(true) && final(self)@ == n,
                Some(Err(e)) => r == Err::<bool, DxfError>(e) && final(self)@ == old(self)@,
            },
    {
        if p.code == 15 {
            self.definition_point_2.x = p.assert_real()?;
        } else if p.code == 25 {
            self.definition_point_2.y = p.assert_real()?;
        } else if p.code == 35 {
            self.definition_point_2.z = p.assert_real()?;
        } else if p.code == 40 {
            self.leader_length = p.assert_real()?;
        } else {
            return Ok(false);
        }
        Ok(true)
    }
}

/// What a record does to a `AngularThreePointDimension`'s own fields: `None` when the code
/// is not one of them.
pub open spec fn angular_three_point_dimension_field(v: AngularThreePointDimensionView, p: CodePairView) -> Option<DxfResult<AngularThreePointDimensionView>> {
    if p.code == 13 {
        Some(
            match real_value(p) {
                Ok(x) => Ok(AngularThreePointDimensionView { definition_point_2: Point { x: x, ..v.definition_point_2 }, ..v }),
                Err(e) => Err(e),
            },
        )
    } else if p.code == 23 {
        Some(
            match real_value(p) {
                Ok(x) => Ok(AngularThreePointDimensionView { definition_point_2: Point { y: x, ..v.definition_point_2 }, ..v }),
                Err(e) => Err(e),
            },
        )
    } else if p.code == 33 {
        Some(
            match real_value(p) {
                Ok(x) => Ok(AngularThreePointDimensionView { definition_point_2: Point { z: x, ..v.definition_point_2 }, ..v }),
                Err(e) => Err(e),
            },
        )
    } else if p.code == 14 {
        Some(
            match real_value(p) {
                Ok(x) => Ok(AngularThreePointDimensionView { definition_point_3: Point { x: x, ..v.definition_point_3 }, ..v }),
                Err(e) => Err(e),
            },
        )
    } else if p.code == 24 {
        Some(
            match real_value(p) {
                Ok(x) => Ok(AngularThreePointDimensionView { definition_point_3: Point { y: x, ..v.definition_point_3 }, ..v }),
                Err(e) => Err(e),
            },
        )
    } else if p.code == 34 {
        Some(
            match real_value(p) {
                Ok(x) => Ok(AngularThreePointDimensionView { definition_point_3: Point { z: x, ..v.definition_point_3 }, ..v }),
                Err(e) => Err(e),
            },
        )
    } else if p.code == 15 {
        Some(
            match real_value(p) {
                Ok(x) => Ok(AngularThreePointDimensionView { definition_point_4: Point { x: x, ..v.definition_point_4 }, ..v }),
                Err(e) => Err(e),
            },
        )
    } else if p.code == 25 {
        Some(
            match real_value(p) {
                Ok(x) => Ok(AngularThreePointDimensionView { definition_point_4: Point { y: x, ..v.definition_point_4 }, ..v }),
                Err(e) => Err(e),
            },
        )
    } else if p.code == 35 {
        Some(
            match real_value(p) {
                Ok(x) => Ok(AngularThreePointDimensionView { definition_point_4: Point { z: x, ..v.definition_point_4 }, ..v }),
                Err(e) => Err(e),
            },
        )
    } else if p.code == 16 {
        Some(
            match real_value(p) {
                Ok(x) => Ok(AngularThreePointDimensionView { definition_point_5: Point { x: x, ..v.definition_point_5 }, ..v }),
                Err(e) => Err(e),
            },
        )
    } else if p.code == 26 {
        Some(
            match real_value(p) {
                Ok(x) => Ok(AngularThreePointDimensionView { definition_point_5: Point { y: x, ..v.definition_point_5 }, ..v }),
                Err(e) => Err(e),
            },
        )
    } else if p.code == 36 {
        Some(
            match real_value(p) {
                Ok(x) => Ok(AngularThreePointDimensionView { definition_point_5: Point { z: x, ..v.definition_point_5 }, ..v }),
                Err(e) => Err(e),
            },
        )
    } else {
        None
    }
}

impl AngularThreePointDimension {
    /// Applies a record to this `AngularThreePointDimension`'s own fields; `Ok(false)` when the
    /// code is not one of them.
    pub fn apply_code_pair(&mut self, p: &CodePair) -> (r: DxfResult<bool>)
        ensures
            match angular_three_point_dimension_field(old(self)@, p@) {
                None => r == Ok::<bool, DxfError>(false) && final(self)@ == old(self)@,
                Some(Ok(n)) => r == Ok::<bool, DxfError>(true) && final(self)@ == n,
                Some(Err(e)) => r == Err::<bool, DxfError>(e) && final(self)@ == old(self)@,
            },
    {
        if p.code == 13 {
            self.definition_point_2.x = p.assert_real()?;
        } else if p.code == 23 {
            self.definition_point_2.y = p.assert_real()?;
        } else if p.code == 33 {
            self.definition_point_2.z = p.assert_real()?;
        } else if p.code == 14 {
            self.definition_point_3.x = p.assert_real()?;
        } else if p.code == 24 {
            self.definition_point_3.y = p.assert_real()?;
        } else if p.code == 34 {
            self.definition_point_3.z = p.assert_real()?;
        } else if p.code == 15 {
            self.definition_point_4.x = p.assert_real()?;
        } else if p.code == 25 {
            self.definition_point_4.y = p.assert_real()?;
        } else if p.code == 35 {
            self.definition_point_4.z = p.assert_real()?;
        } else if p.code == 16 {
            self.definition_point_5.x = p.assert_real()?;
        } else if p.code == 26 {
            self.definition_point_5.y = p.assert_real()?;
        } else if p.code == 36 {
            self.definition_point_5.z = p.assert_real()?;
        } else {
            return Ok(false);
        }
        Ok(true)
    }
}

/// What a record does to a `OrdinateDimension`'s own fields: `None` when the code
/// is not one of them.
pub open spec fn ordinate_dimension_field(v: OrdinateDimensionView, p: CodePairView) -> Option<DxfResult<OrdinateDimensionView>> {
    if p.code == 13 {
        Some(
            match real_value(p) {
                Ok(x) => Ok(OrdinateDimensionView { definition_point_2: Point { x: x, ..v.definition_point_2 }, ..v }),
                Err(e) => Err(e),
            },
        )
    } else if p.code == 23 {
        Some(
            match real_value(p) {
                Ok(x) => Ok(OrdinateDimensionView { definition_point_2: Point { y: x, ..v.definition_point_2 }, ..v }),
                Err(e) => Err(e),
            },
        )
    } else if p.code == 33 {
        Some(
            match real_value(p) {
                Ok(x) => Ok(OrdinateDimensionView { definition_point_2: Point { z: x, ..v.definition_point_2 }, ..v }),
                Err(e) => Err(e),
            },
        )
    } else if p.code == 14 {
        Some(
            match real_value(p) {
                Ok(x) => Ok(OrdinateDimensionView { definition_point_3: Point { x: x, ..v.definition_point_3 }, ..v }),
                Err(e) => Err(e),
            },
        )
    } else if p.code == 24 {
        Some(
            match real_value(p) {
                Ok(x) => Ok(OrdinateDimensionView { definition_point_3: Point { y: x, ..v.definition_point_3 }, ..v }),
                Err(e) => Err(e),
            },
        )
    } else if p.code == 34 {
        Some(
            match real_value(p) {
                Ok(x) => Ok(OrdinateDimensionView { definition_point_3: Point { z: x, ..v.definition_point_3 }, ..v }),
                Err(e) => Err(e),
            },
        )
    } else {
        None
    }
}

impl OrdinateDimension {
    /// Applies a record to this `OrdinateDimension`'s own fields; `Ok(false)` when the
    /// code is not one of them.
    pub fn apply_code_pair(&mut self, p: &CodePair) -> (r: DxfResult<bool>)
        ensures
            match ordinate_dimension_field(old(self)@, p@) {
                None => r == Ok::<bool, DxfError>(false) && final(self)@ == old(self)@,
                Some(Ok(n)) => r == Ok::<bool, DxfError>(true) && final(self)@ == n,
                Some(Err(e)) => r == Err::<bool, DxfError>(e) && final(self)@ == old(self)@,
            },
    {
        if p.code == 13 {
            self.definition_point_2.x = p.assert_real()?;
        } else if p.code == 23 {
            self.definition_point_2.y = p.assert_real()?;
        } else if p.code == 33 {
            self.definition_point_2.z = p.assert_real()?;
        } else if p.code == 14 {
            self.definition_point_3.x = p.assert_real()?;
        } else if p.code == 24 {
            self.definition_point_3.y = p.assert_real()?;
        } else if p.code == 34 {
            self.definition_point_3.z = p.assert_real()?;
        } else {
            return Ok(false);
        }
        Ok(true)
    }
}

/// What a record does to the fields of an entity read by the generic
/// field loop; `None` when the code is not one of them (and for kinds that
/// have readers of their own).
pub open spec fn variant_field(v: EntityTypeView, p: CodePairView) -> Option<DxfResult<EntityTypeView>> {
    match v {
        EntityTypeView::Line(e) => match line_field(e, p) {
            Some(Ok(n)) => Some(Ok(EntityTypeView::Line(n))),
            Some(Err(x)) => Some(Err(x)),
            None => None,
        },
        EntityTypeView::Circle(e) => match circle_field(e, p) {
            Some(Ok(n)) => Some(Ok(EntityTypeView::Circle(n))),
            Some(Err(x)) => Some(Err(x)),
            None => None,
        },
        EntityTypeView::Arc(e) => match arc_field(e, p) {
            Some(Ok(n)) => Some(Ok(EntityTypeView::Arc(n))),
            Some(Err(x)) => Some(Err(x)),
            None => None,
        },
        EntityTypeView::Face3D(e) => match face3d_field(e, p) {
            Some(Ok(n)) => Some(Ok(EntityTypeView::Face3D(n))),
            Some(Err(x)) => Some(Err(x)),
            None => None,
        },
        EntityTypeView::Solid(e) => match solid_field(e, p) {
            Some(Ok(n)) => Some(Ok(EntityTypeView::Solid(n))),
            Some(Err(x)) => Some(Err(x)),
            None => None,
        },
        EntityTypeView::Trace(e) => match trace_field(e, p) {
            Some(Ok(n)) => Some(Ok(EntityTypeView::Trace(n))),
            Some(Err(x)) => Some(Err(x)),
            None => None,
        },
        EntityTypeView::ModelPoint(e) => match model_point_field(e, p) {
            Some(Ok(n)) => Some(Ok(EntityTypeView::ModelPoint(n))),
            Some(Err(x)) => Some(Err(x)),
            None => None,
        },
        EntityTypeView::ProxyEntity(e) => match proxy_entity_field(e, p) {
            Some(Ok(n)) => Some(Ok(EntityTypeView::ProxyEntity(n))),
            Some(Err(x)) => Some(Err(x)),
            None => None,
        },
        EntityTypeView::Solid3D(e) => match solid3d_field(e, p) {
            Some(Ok(n)) => Some(Ok(EntityTypeView::Solid3D(n))),
            Some(Err(x)) => Some(Err(x)),
            None => None,
        },
        EntityTypeView::Image(e) => match image_field(e, p) {
            Some(Ok(n)) => Some(Ok(EntityTypeView::Image(n))),
            Some(Err(x)) => Some(Err(x)),
            None => None,
        },
        EntityTypeView::Leader(e) => match leader_field(e, p) {
            Some(Ok(n)) => Some(Ok(EntityTypeView::Leader(n))),
            Some(Err(x)) => Some(Err(x)),
            None => None,
        },
        EntityTypeView::Insert(e) => match insert_field(e, p) {
            Some(Ok(n)) => Some(Ok(EntityTypeView::Insert(n))),
            Some(Err(x)) => Some(Err(x)),
            None => None,
        },
        EntityTypeView::Polyline(e) => match polyline_field(e, p) {
            Some(Ok(n)) => Some(Ok(EntityTypeView::Polyline(n))),
            Some(Err(x)) => Some(Err(x)),
            None => None,
        },
        EntityTypeView::Vertex(e) => match vertex_field(e, p) {
            Some(Ok(n)) => Some(Ok(EntityTypeView::Vertex(n))),
            Some(Err(x)) => Some(Err(x)),
            None => None,
        },
        _ => None,
    }
}

impl EntityType {
    /// Applies a record to the fields of an entity read by the generic field
    /// loop; `Ok(false)` when the code is not one of them.
    pub fn try_apply_code_pair(&mut self, p: &CodePair) -> (r: DxfResult<bool>)
        ensures
            match variant_field(old(self)@, p@) {
                None => r == Ok::<bool, DxfError>(false) && final(self)@ == old(self)@,
                Some(Ok(n)) => r == Ok::<bool, DxfError>(true) && final(self)@ == n,
                Some(Err(e)) => r == Err::<bool, DxfError>(e) && final(self)@ == old(self)@,
            },
    {
        match self {
            EntityType::Line(e) => e.apply_code_pair(p),
            EntityType::Circle(e) => e.apply_code_pair(p),
            EntityType::Arc(e) => e.apply_code_pair(p),
            EntityType::Face3D(e) => e.apply_code_pair(p),
            EntityType::Solid(e) => e.apply_code_pair(p),
            EntityType::Trace(e) => e.apply_code_pair(p),
            EntityType::ModelPoint(e) => e.apply_code_pair(p),
            EntityType::ProxyEntity(e) => e.apply_code_pair(p),
            EntityType::Solid3D(e) => e.apply_code_pair(p),
            EntityType::Image(e) => e.apply_code_pair(p),
            EntityType::Leader(e) => e.apply_code_pair(p),
            EntityType::Insert(e) => e.apply_code_pair(p),
            EntityType::Polyline(e) => e.apply_code_pair(p),
            EntityType::Vertex(e) => e.apply_code_pair(p),
            _ => Ok(false),
        }
    }
}

} // verus!