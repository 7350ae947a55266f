use vstd::prelude::*;
use crate::code_pair::{short_value, text_is, CodePair, CodePairView, DxfError, DxfResult};
use crate::entities::{
    AngularThreePointDimension, AngularThreePointDimensionView, DiameterDimension,
    DiameterDimensionView, DimensionBase, DimensionBaseView, EntityType, EntityTypeView,
    OrdinateDimension, OrdinateDimensionView, RadialDimension, RadialDimensionView,
    RotatedDimension, RotatedDimensionView,
};
use crate::enums::DimensionType;
use crate::fields::{
    angular_three_point_dimension_field, diameter_dimension_field, dimension_base_field,
    ordinate_dimension_field, radial_dimension_field, rotated_dimension_field,
};

verus! {

/// A dimension base after its type flags were set from `val`: the type from
/// the lower four bits, the flags from bits 32, 64 and 128. `None` when the
/// lower bits name no type.
pub open spec fn with_dimension_type(b: DimensionBaseView, val: i16) -> Option<DimensionBaseView> {
    match DimensionType::spec_from_i16(val & 0x0F) {
        Some(t) => Some(
            DimensionBaseView {
                dimension_type: t,
                is_block_reference_referenced_by_this_block_only: (val & 32) == 32,
                is_ordinate_x_type: (val & 64) == 64,
                is_at_user_defined_location: (val & 128) == 128,
                ..b
            },
        ),
        None => None,
    }
}

/// What a record does to the fields every dimension shares; `None` when the
/// code is not one of them.
pub open spec fn dimension_base_record(b: DimensionBaseView, p: CodePairView) -> Option<
    DxfResult<DimensionBaseView>,
> {
    if p.code == 70 {
        Some(
            match short_value(p) {
                Ok(x) => match with_dimension_type(b, x) {
                    Some(n) => Ok(n),
                    None => Err(DxfError::UnexpectedEnumValue(p.offset)),
                },
                Err(e) => Err(e),
            },
        )
    } else {
        dimension_base_field(b, p)
    }
}

impl DimensionBase {
    fn set_dimension_type(&mut self, val: i16, offset: usize) -> (r: DxfResult<()>)
        ensures
            match with_dimension_type(old(self)@, val) {
                Some(n) => r is Ok && final(self)@ == n,
                None => r == Err::<(), DxfError>(DxfError::UnexpectedEnumValue(offset)) && final(self)@ == old(self)@,
            },
    {
        match DimensionType::from_i16(val & 0x0F) {
            Some(t) => {
                self.is_block_reference_referenced_by_this_block_only = (val & 32) == 32;
                self.is_ordinate_x_type = (val & 64) == 64;
                self.is_at_user_defined_location = (val & 128) == 128;
                self.dimension_type = t;
                Ok(())
            },
            None => Err(DxfError::UnexpectedEnumValue(offset)),
        }
    }

    /// Applies a record to the shared dimension fields; `Ok(false)` when the
    /// code is not one of them.
    pub fn apply_dimension_code_pair(&mut self, p: &CodePair) -> (r: DxfResult<bool>)
        ensures
            match dimension_base_record(old(self)@, p@) {
                None => r == Ok::<bool, DxfError>(false) && final(self)@ == old(self)@,
                Some(Ok(n)) => r == Ok::<bool, DxfError>(true) && final(self)@ == n,
                Some(Err(e)) => r == Err::<bool, DxfError>(e) && final(self)@ == old(self)@,
            },
    {
        if p.code == 70 {
            let x = p.assert_i16()?;
            self.set_dimension_type(x, p.offset)?;
            Ok(true)
        } else {
            self.apply_code_pair(p)
        }
    }
}

/// The shared fields of the active dimension shape.
pub open spec fn base_of(v: EntityTypeView) -> DimensionBaseView {
    match v {
        EntityTypeView::RotatedDimension(d) => d.dimension_base,
        EntityTypeView::RadialDimension(d) => d.dimension_base,
        EntityTypeView::DiameterDimension(d) => d.dimension_base,
        EntityTypeView::AngularThreePointDimension(d) => d.dimension_base,
        EntityTypeView::OrdinateDimension(d) => d.dimension_base,
        _ => DimensionBase::default_view(),
    }
}

/// Whether an entity is one of the dimension shapes.
pub open spec fn is_dimension(v: EntityTypeView) -> bool {
    ||| v is RotatedDimension
    ||| v is RadialDimension
    ||| v is DiameterDimension
    ||| v is AngularThreePointDimension
    ||| v is OrdinateDimension
}

/// Offers a record to the shared fields of a shape.
pub open spec fn lift_base<T>(r: Option<DxfResult<DimensionBaseView>>, f: spec_fn(DimensionBaseView) -> T) -> Option<DxfResult<T>> {
    match r {
        Some(Ok(b)) => Some(Ok(f(b))),
        Some(Err(e)) => Some(Err(e)),
        None => None,
    }
}

/// What a record does to the active dimension: the shape's own fields
/// first, then the shared ones; `None` when neither knows the code.
#[verifier::opaque]
pub open spec fn dimension_record(v: EntityTypeView, p: CodePairView) -> Option<DxfResult<EntityTypeView>> {
    match v {
        EntityTypeView::RotatedDimension(d) => match rotated_dimension_field(d, p) {
            Some(Ok(n)) => Some(Ok(EntityTypeView::RotatedDimension(n))),
            Some(Err(e)) => Some(Err(e)),
            None => lift_base(dimension_base_record(d.dimension_base, p), |b: DimensionBaseView| EntityTypeView::RotatedDimension(RotatedDimensionView { dimension_base: b, ..d })),
        },
        EntityTypeView::RadialDimension(d) => match radial_dimension_field(d, p) {
            Some(Ok(n)) => Some(Ok(EntityTypeView::RadialDimension(n))),
            Some(Err(e)) => Some(Err(e)),
            None => lift_base(dimension_base_record(d.dimension_base, p), |b: DimensionBaseView| EntityTypeView::RadialDimension(RadialDimensionView { dimension_base: b, ..d })),
        },
        EntityTypeView::DiameterDimension(d) => match diameter_dimension_field(d, p) {
            Some(Ok(n)) => Some(Ok(EntityTypeView::DiameterDimension(n))),
            Some(Err(e)) => Some(Err(e)),
            None => lift_base(dimension_base_record(d.dimension_base, p), |b: DimensionBaseView| EntityTypeView::DiameterDimension(DiameterDimensionView { dimension_base: b, ..d })),
        },
        EntityTypeView::AngularThreePointDimension(d) => match angular_three_point_dimension_field(d, p) {
            Some(Ok(n)) => Some(Ok(EntityTypeView::AngularThreePointDimension(n))),
            Some(Err(e)) => Some(Err(e)),
            None => lift_base(dimension_base_record(d.dimension_base, p), |b: DimensionBaseView| EntityTypeView::AngularThreePointDimension(AngularThreePointDimensionView { dimension_base: b, ..d })),
        },
        EntityTypeView::OrdinateDimension(d) => match ordinate_dimension_field(d, p) {
            Some(Ok(n)) => Some(Ok(EntityTypeView::OrdinateDimension(n))),
            Some(Err(e)) => Some(Err(e)),
            None => lift_base(dimension_base_record(d.dimension_base, p), |b: DimensionBaseView| EntityTypeView::OrdinateDimension(OrdinateDimensionView { dimension_base: b, ..d })),
        },
        _ => Some(Err(DxfError::UnexpectedEnumValue(p.offset))),
    }
}

fn apply_rotated_dimension_pair(d: &mut RotatedDimension, p: &CodePair) -> (r: DxfResult<bool>)
    ensures
        match dimension_record(EntityTypeView::RotatedDimension(old(d)@), p@) {
            None => r == Ok::<bool, DxfError>(false) && final(d)@ == old(d)@,
            Some(Ok(n)) => r == Ok::<bool, DxfError>(true) && n == EntityTypeView::RotatedDimension(final(d)@),
            Some(Err(e)) => r == Err::<bool, DxfError>(e) && final(d)@ == old(d)@,
        },
{
    reveal(dimension_record);
    if d.apply_code_pair(p)? {
        Ok(true)
    } else {
        d.dimension_base.apply_dimension_code_pair(p)
    }
}

fn apply_radial_dimension_pair(d: &mut RadialDimension, p: &CodePair) -> (r: DxfResult<bool>)
    ensures
        match dimension_record(EntityTypeView::RadialDimension(old(d)@), p@) {
            None => r == Ok::<bool, DxfError>(false) && final(d)@ == old(d)@,
            Some(Ok(n)) => r == Ok::<bool, DxfError>(true) && n == EntityTypeView::RadialDimension(final(d)@),
            Some(Err(e)) => r == Err::<bool, DxfError>(e) && final(d)@ == old(d)@,
        },
{
    reveal(dimension_record);
    if d.apply_code_pair(p)? {
        Ok(true)
    } else {
        d.dimension_base.apply_dimension_code_pair(p)
    }
}

fn apply_diameter_dimension_pair(d: &mut DiameterDimension, p: &CodePair) -> (r: DxfResult<bool>)
    ensures
        match dimension_record(EntityTypeView::DiameterDimension(old(d)@), p@) {
            None => r == Ok::<bool, DxfError>(false) && final(d)@ == old(d)@,
            Some(Ok(n)) => r == Ok::<bool, DxfError>(true) && n == EntityTypeView::DiameterDimension(final(d)@),
            Some(Err(e)) => r == Err::<bool, DxfError>(e) && final(d)@ == old(d)@,
        },
{
    reveal(dimension_record);
    if d.apply_code_pair(p)? {
        Ok(true)
    } else {
        d.dimension_base.apply_dimension_code_pair(p)
    }
}

fn apply_angular_three_point_dimension_pair(d: &mut AngularThreePointDimension, p: &CodePair) -> (r: DxfResult<bool>)
    ensures
        match dimension_record(EntityTypeView::AngularThreePointDimension(old(d)@), p@) {
            None => r == Ok::<bool, DxfError>(false) && final(d)@ == old(d)@,
            Some(Ok(n)) => r == Ok::<bool, DxfError>(true) && n == EntityTypeView::AngularThreePointDimension(final(d)@),
            Some(Err(e)) => r == Err::<bool, DxfError>(e) && final(d)@ == old(d)@,
        },
{
    reveal(dimension_record);
    if d.apply_code_pair(p)? {
        Ok(true)
    } else {
        d.dimension_base.apply_dimension_code_pair(p)
    }
}

fn apply_ordinate_dimension_pair(d: &mut OrdinateDimension, p: &CodePair) -> (r: DxfResult<bool>)
    ensures
        match dimension_record(EntityTypeView::OrdinateDimension(old(d)@), p@) {
            None => r == Ok::<bool, DxfError>(false) && final(d)@ == old(d)@,
            Some(Ok(n)) => r == Ok::<bool, DxfError>(true) && n == EntityTypeView::OrdinateDimension(final(d)@),
            Some(Err(e)) => r == Err::<bool, DxfError>(e) && final(d)@ == old(d)@,
        },
{
    reveal(dimension_record);
    if d.apply_code_pair(p)? {
        Ok(true)
    } else {
        d.dimension_base.apply_dimension_code_pair(p)
    }
}

impl EntityType {
    /// Applies a record to the active dimension shape: its own fields
    /// first, then the shared ones; `Ok(false)` when neither knows the code.
    pub fn apply_dimension_code_pair(&mut self, p: &CodePair) -> (r: DxfResult<bool>)
        ensures
            is_dimension(old(self)@) ==> is_dimension(final(self)@),
            is_dimension(old(self)@) ==> is_dimension(final(self)@),
            match dimension_record(old(self)@, p@) {
                None => r == Ok::<bool, DxfError>(false) && final(self)@ == old(self)@,
                Some(Ok(n)) => r == Ok::<bool, DxfError>(true) && final(self)@ == n,
                Some(Err(e)) => r == Err::<bool, DxfError>(e) && final(self)@ == old(self)@,
            },
    {
        match self {
            EntityType::RotatedDimension(d) => apply_rotated_dimension_pair(d, p),
            EntityType::RadialDimension(d) => apply_radial_dimension_pair(d, p),
            EntityType::DiameterDimension(d) => apply_diameter_dimension_pair(d, p),
            EntityType::AngularThreePointDimension(d) => apply_angular_three_point_dimension_pair(d, p),
            EntityType::OrdinateDimension(d) => apply_ordinate_dimension_pair(d, p),
            _ => {
                reveal(dimension_record);
                Err(DxfError::UnexpectedEnumValue(p.offset))
            },
        }
    }
}

/// The subclass markers that select a dimension shape.
pub open spec fn is_dimension_marker(s: Seq<char>) -> bool {
    ||| s == "AcDbRadialDimension"@
    ||| s == "AcDbDiametricDimension"@
    ||| s == "AcDb3PointAngularDimension"@
    ||| s == "AcDbOrdinateDimension"@
}

/// The active dimension after a subclass marker: a recognized marker
/// selects its shape, which keeps the shared fields read so far and has its
/// own fields at their defaults; any other marker changes nothing.
pub open spec fn apply_marker(v: EntityTypeView, s: Seq<char>) -> EntityTypeView {
    if s == "AcDbRadialDimension"@ {
        EntityTypeView::RadialDimension(RadialDimensionView { dimension_base: base_of(v), ..RadialDimension::default_view() })
    } else if s == "AcDbDiametricDimension"@ {
        EntityTypeView::DiameterDimension(DiameterDimensionView { dimension_base: base_of(v), ..DiameterDimension::default_view() })
    } else if s == "AcDb3PointAngularDimension"@ {
        EntityTypeView::AngularThreePointDimension(AngularThreePointDimensionView { dimension_base: base_of(v), ..AngularThreePointDimension::default_view() })
    } else if s == "AcDbOrdinateDimension"@ {
        EntityTypeView::OrdinateDimension(OrdinateDimensionView { dimension_base: base_of(v), ..OrdinateDimension::default_view() })
    } else {
        v
    }
}

fn take_base(dim: EntityType) -> (r: DimensionBase)
    requires
        is_dimension(dim@),
    ensures
        r@ == base_of(dim@),
{
    match dim {
        EntityType::RotatedDimension(d) => d.dimension_base,
        EntityType::RadialDimension(d) => d.dimension_base,
        EntityType::DiameterDimension(d) => d.dimension_base,
        EntityType::AngularThreePointDimension(d) => d.dimension_base,
        EntityType::OrdinateDimension(d) => d.dimension_base,
        _ => DimensionBase::default(),
    }
}

/// Replaces the active dimension as a subclass marker asks.
pub fn switch_dimension_shape(dim: EntityType, marker: &String) -> (r: EntityType)
    requires
        is_dimension(dim@),
    ensures
        r@ == apply_marker(dim@, marker@),
        is_dimension(r@),
{
    if text_is(marker, "AcDbRadialDimension") {
        let base = take_base(dim);
        let d = RadialDimension { dimension_base: base, ..RadialDimension::default() };
        EntityType::RadialDimension(d)
    } else if text_is(marker, "AcDbDiametricDimension") {
        let base = take_base(dim);
        let d = DiameterDimension { dimension_base: base, ..DiameterDimension::default() };
        EntityType::DiameterDimension(d)
    } else if text_is(marker, "AcDb3PointAngularDimension") {
        let base = take_base(dim);
        let d = AngularThreePointDimension { dimension_base: base, ..AngularThreePointDimension::default() };
        EntityType::AngularThreePointDimension(d)
    } else if text_is(marker, "AcDbOrdinateDimension") {
        let base = take_base(dim);
        let d = OrdinateDimension { dimension_base: base, ..OrdinateDimension::default() };
        EntityType::OrdinateDimension(d)
    } else {
        dim
    }
}

} // verus!
