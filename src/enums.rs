use vstd::prelude::*;

verus! {

/// The format versions a drawing can be written in, oldest first.
#[derive(Clone, Copy, Debug, PartialEq, Eq, Structural, PartialOrd, Ord, Hash)]
pub enum AcadVersion {
    R10,
    R11,
    R12,
    R13,
    R14,
    R2000,
    R2004,
    R2007,
    R2010,
    R2013,
    R2018,
}

impl AcadVersion {
    /// The position of the version in release order.
    pub open spec fn spec_rank(self) -> u8 {
        match self {
            AcadVersion::R10 => 0,
            AcadVersion::R11 => 1,
            AcadVersion::R12 => 2,
            AcadVersion::R13 => 3,
            AcadVersion::R14 => 4,
            AcadVersion::R2000 => 5,
            AcadVersion::R2004 => 6,
            AcadVersion::R2007 => 7,
            AcadVersion::R2010 => 8,
            AcadVersion::R2013 => 9,
            AcadVersion::R2018 => 10,
        }
    }

    #[verifier::when_used_as_spec(spec_rank)]
    pub fn rank(self) -> (r: u8)
        ensures
            r == self.spec_rank(),
    {
        match self {
            AcadVersion::R10 => 0,
            AcadVersion::R11 => 1,
            AcadVersion::R12 => 2,
            AcadVersion::R13 => 3,
            AcadVersion::R14 => 4,
            AcadVersion::R2000 => 5,
            AcadVersion::R2004 => 6,
            AcadVersion::R2007 => 7,
            AcadVersion::R2010 => 8,
            AcadVersion::R2013 => 9,
            AcadVersion::R2018 => 10,
        }
    }

    /// Whether this version is `other` or a later one.
    pub open spec fn spec_at_least(self, other: AcadVersion) -> bool {
        self.spec_rank() >= other.spec_rank()
    }

    #[verifier::when_used_as_spec(spec_at_least)]
    pub fn at_least(self, other: AcadVersion) -> (r: bool)
        ensures
            r == self.spec_at_least(other),
    {
        self.rank() >= other.rank()
    }
}

/// Where text is attached relative to its insertion point.
#[derive(Clone, Copy, Debug, PartialEq, Eq, Structural)]
pub enum AttachmentPoint {
    TopLeft,
    TopCenter,
    TopRight,
    MiddleLeft,
    MiddleCenter,
    MiddleRight,
    BottomLeft,
    BottomCenter,
    BottomRight,
}

impl AttachmentPoint {
    /// The enumerator a coded integer names, if any.
    pub open spec fn spec_from_i16(v: i16) -> Option<AttachmentPoint> {
        match v {
            1 => Some(AttachmentPoint::TopLeft),
            2 => Some(AttachmentPoint::TopCenter),
            3 => Some(AttachmentPoint::TopRight),
            4 => Some(AttachmentPoint::MiddleLeft),
            5 => Some(AttachmentPoint::MiddleCenter),
            6 => Some(AttachmentPoint::MiddleRight),
            7 => Some(AttachmentPoint::BottomLeft),
            8 => Some(AttachmentPoint::BottomCenter),
            9 => Some(AttachmentPoint::BottomRight),
            _ => None,
        }
    }

    pub fn from_i16(v: i16) -> (r: Option<AttachmentPoint>)
        ensures
            r == AttachmentPoint::spec_from_i16(v),
    {
        match v {
            1 => Some(AttachmentPoint::TopLeft),
            2 => Some(AttachmentPoint::TopCenter),
            3 => Some(AttachmentPoint::TopRight),
            4 => Some(AttachmentPoint::MiddleLeft),
            5 => Some(AttachmentPoint::MiddleCenter),
            6 => Some(AttachmentPoint::MiddleRight),
            7 => Some(AttachmentPoint::BottomLeft),
            8 => Some(AttachmentPoint::BottomCenter),
            9 => Some(AttachmentPoint::BottomRight),
            _ => None,
        }
    }

    /// The integer that codes this enumerator.
    pub open spec fn spec_to_i16(self) -> i16 {
        match self {
            AttachmentPoint::TopLeft => 1,
            AttachmentPoint::TopCenter => 2,
            AttachmentPoint::TopRight => 3,
            AttachmentPoint::MiddleLeft => 4,
            AttachmentPoint::MiddleCenter => 5,
            AttachmentPoint::MiddleRight => 6,
            AttachmentPoint::BottomLeft => 7,
            AttachmentPoint::BottomCenter => 8,
            AttachmentPoint::BottomRight => 9,
        }
    }

    #[verifier::when_used_as_spec(spec_to_i16)]
    pub fn to_i16(self) -> (r: i16)
        ensures
            r == self.spec_to_i16(),
    {
        match self {
            AttachmentPoint::TopLeft => 1,
            AttachmentPoint::TopCenter => 2,
            AttachmentPoint::TopRight => 3,
            AttachmentPoint::MiddleLeft => 4,
            AttachmentPoint::MiddleCenter => 5,
            AttachmentPoint::MiddleRight => 6,
            AttachmentPoint::BottomLeft => 7,
            AttachmentPoint::BottomCenter => 8,
            AttachmentPoint::BottomRight => 9,
        }
    }
}

/// How the spacing between lines of text is measured.
#[derive(Clone, Copy, Debug, PartialEq, Eq, Structural)]
pub enum LineSpacingStyle {
    AtLeast,
    Exact,
}

impl LineSpacingStyle {
    /// The enumerator a coded integer names, if any.
    pub open spec fn spec_from_i16(v: i16) -> Option<LineSpacingStyle> {
        match v {
            1 => Some(LineSpacingStyle::AtLeast),
            2 => Some(LineSpacingStyle::Exact),
            _ => None,
        }
    }

    pub fn from_i16(v: i16) -> (r: Option<LineSpacingStyle>)
        ensures
            r == LineSpacingStyle::spec_from_i16(v),
    {
        match v {
            1 => Some(LineSpacingStyle::AtLeast),
            2 => Some(LineSpacingStyle::Exact),
            _ => None,
        }
    }

    /// The integer that codes this enumerator.
    pub open spec fn spec_to_i16(self) -> i16 {
        match self {
            LineSpacingStyle::AtLeast => 1,
            LineSpacingStyle::Exact => 2,
        }
    }

    #[verifier::when_used_as_spec(spec_to_i16)]
    pub fn to_i16(self) -> (r: i16)
        ensures
            r == self.spec_to_i16(),
    {
        match self {
            LineSpacingStyle::AtLeast => 1,
            LineSpacingStyle::Exact => 2,
        }
    }
}

/// The shape a dimension declares in its type flags (lower four bits).
#[derive(Clone, Copy, Debug, PartialEq, Eq, Structural)]
pub enum DimensionType {
    RotatedHorizontalOrVertical,
    Aligned,
    Angular,
    Diameter,
    Radius,
    AngularThreePoint,
    Ordinate,
}

impl DimensionType {
    /// The enumerator a coded integer names, if any.
    pub open spec fn spec_from_i16(v: i16) -> Option<DimensionType> {
        match v {
            0 => Some(DimensionType::RotatedHorizontalOrVertical),
            1 => Some(DimensionType::Aligned),
            2 => Some(DimensionType::Angular),
            3 => Some(DimensionType::Diameter),
            4 => Some(DimensionType::Radius),
            5 => Some(DimensionType::AngularThreePoint),
            6 => Some(DimensionType::Ordinate),
            _ => None,
        }
    }

    pub fn from_i16(v: i16) -> (r: Option<DimensionType>)
        ensures
            r == DimensionType::spec_from_i16(v),
    {
        match v {
            0 => Some(DimensionType::RotatedHorizontalOrVertical),
            1 => Some(DimensionType::Aligned),
            2 => Some(DimensionType::Angular),
            3 => Some(DimensionType::Diameter),
            4 => Some(DimensionType::Radius),
            5 => Some(DimensionType::AngularThreePoint),
            6 => Some(DimensionType::Ordinate),
            _ => None,
        }
    }

    /// The integer that codes this enumerator.
    pub open spec fn spec_to_i16(self) -> i16 {
        match self {
            DimensionType::RotatedHorizontalOrVertical => 0,
            DimensionType::Aligned => 1,
            DimensionType::Angular => 2,
            DimensionType::Diameter => 3,
            DimensionType::Radius => 4,
            DimensionType::AngularThreePoint => 5,
            DimensionType::Ordinate => 6,
        }
    }

    #[verifier::when_used_as_spec(spec_to_i16)]
    pub fn to_i16(self) -> (r: i16)
        ensures
            r == self.spec_to_i16(),
    {
        match self {
            DimensionType::RotatedHorizontalOrVertical => 0,
            DimensionType::Aligned => 1,
            DimensionType::Angular => 2,
            DimensionType::Diameter => 3,
            DimensionType::Radius => 4,
            DimensionType::AngularThreePoint => 5,
            DimensionType::Ordinate => 6,
        }
    }
}

/// The version of an object's own data layout.
#[derive(Clone, Copy, Debug, PartialEq, Eq, Structural)]
pub enum Version {
    R2010,
}

impl Version {
    /// The enumerator a coded integer names, if any.
    pub open spec fn spec_from_i16(v: i16) -> Option<Version> {
        match v {
            0 => Some(Version::R2010),
            _ => None,
        }
    }

    pub fn from_i16(v: i16) -> (r: Option<Version>)
        ensures
            r == Version::spec_from_i16(v),
    {
        match v {
            0 => Some(Version::R2010),
            _ => None,
        }
    }

    /// The integer that codes this enumerator.
    pub open spec fn spec_to_i16(self) -> i16 {
        match self {
            Version::R2010 => 0,
        }
    }

    #[verifier::when_used_as_spec(spec_to_i16)]
    pub fn to_i16(self) -> (r: i16)
        ensures
            r == self.spec_to_i16(),
    {
        match self {
            Version::R2010 => 0,
        }
    }
}

/// How a multi-line attribute is stored.
#[derive(Clone, Copy, Debug, PartialEq, Eq, Structural)]
pub enum MTextFlag {
    MultilineAttribute,
    ConstantMultilineAttributeDefinition,
}

impl MTextFlag {
    /// The enumerator a coded integer names, if any.
    pub open spec fn spec_from_i16(v: i16) -> Option<MTextFlag> {
        match v {
            2 => Some(MTextFlag::MultilineAttribute),
            4 => Some(MTextFlag::ConstantMultilineAttributeDefinition),
            _ => None,
        }
    }

    pub fn from_i16(v: i16) -> (r: Option<MTextFlag>)
        ensures
            r == MTextFlag::spec_from_i16(v),
    {
        match v {
            2 => Some(MTextFlag::MultilineAttribute),
            4 => Some(MTextFlag::ConstantMultilineAttributeDefinition),
            _ => None,
        }
    }

    /// The integer that codes this enumerator.
    pub open spec fn spec_to_i16(self) -> i16 {
        match self {
            MTextFlag::MultilineAttribute => 2,
            MTextFlag::ConstantMultilineAttributeDefinition => 4,
        }
    }

    #[verifier::when_used_as_spec(spec_to_i16)]
    pub fn to_i16(self) -> (r: i16)
        ensures
            r == self.spec_to_i16(),
    {
        match self {
            MTextFlag::MultilineAttribute => 2,
            MTextFlag::ConstantMultilineAttributeDefinition => 4,
        }
    }
}

/// Horizontal justification of single-line text.
#[derive(Clone, Copy, Debug, PartialEq, Eq, Structural)]
pub enum HorizontalTextJustification {
    Left,
    Center,
    Right,
    Aligned,
    Middle,
    Fit,
}

impl HorizontalTextJustification {
    /// The enumerator a coded integer names, if any.
    pub open spec fn spec_from_i16(v: i16) -> Option<HorizontalTextJustification> {
        match v {
            0 => Some(HorizontalTextJustification::Left),
            1 => Some(HorizontalTextJustification::Center),
            2 => Some(HorizontalTextJustification::Right),
            3 => Some(HorizontalTextJustification::Aligned),
            4 => Some(HorizontalTextJustification::Middle),
            5 => Some(HorizontalTextJustification::Fit),
            _ => None,
        }
    }

    pub fn from_i16(v: i16) -> (r: Option<HorizontalTextJustification>)
        ensures
            r == HorizontalTextJustification::spec_from_i16(v),
    {
        match v {
            0 => Some(HorizontalTextJustification::Left),
            1 => Some(HorizontalTextJustification::Center),
            2 => Some(HorizontalTextJustification::Right),
            3 => Some(HorizontalTextJustification::Aligned),
            4 => Some(HorizontalTextJustification::Middle),
            5 => Some(HorizontalTextJustification::Fit),
            _ => None,
        }
    }

    /// The integer that codes this enumerator.
    pub open spec fn spec_to_i16(self) -> i16 {
        match self {
            HorizontalTextJustification::Left => 0,
            HorizontalTextJustification::Center => 1,
            HorizontalTextJustification::Right => 2,
            HorizontalTextJustification::Aligned => 3,
            HorizontalTextJustification::Middle => 4,
            HorizontalTextJustification::Fit => 5,
        }
    }

    #[verifier::when_used_as_spec(spec_to_i16)]
    pub fn to_i16(self) -> (r: i16)
        ensures
            r == self.spec_to_i16(),
    {
        match self {
            HorizontalTextJustification::Left => 0,
            HorizontalTextJustification::Center => 1,
            HorizontalTextJustification::Right => 2,
            HorizontalTextJustification::Aligned => 3,
            HorizontalTextJustification::Middle => 4,
            HorizontalTextJustification::Fit => 5,
        }
    }
}

/// Vertical justification of single-line text.
#[derive(Clone, Copy, Debug, PartialEq, Eq, Structural)]
pub enum VerticalTextJustification {
    Baseline,
    Bottom,
    Middle,
    Top,
}

impl VerticalTextJustification {
    /// The enumerator a coded integer names, if any.
    pub open spec fn spec_from_i16(v: i16) -> Option<VerticalTextJustification> {
        match v {
            0 => Some(VerticalTextJustification::Baseline),
            1 => Some(VerticalTextJustification::Bottom),
            2 => Some(VerticalTextJustification::Middle),
            3 => Some(VerticalTextJustification::Top),
            _ => None,
        }
    }

    pub fn from_i16(v: i16) -> (r: Option<VerticalTextJustification>)
        ensures
            r == VerticalTextJustification::spec_from_i16(v),
    {
        match v {
            0 => Some(VerticalTextJustification::Baseline),
            1 => Some(VerticalTextJustification::Bottom),
            2 => Some(VerticalTextJustification::Middle),
            3 => Some(VerticalTextJustification::Top),
            _ => None,
        }
    }

    /// The integer that codes this enumerator.
    pub open spec fn spec_to_i16(self) -> i16 {
        match self {
            VerticalTextJustification::Baseline => 0,
            VerticalTextJustification::Bottom => 1,
            VerticalTextJustification::Middle => 2,
            VerticalTextJustification::Top => 3,
        }
    }

    #[verifier::when_used_as_spec(spec_to_i16)]
    pub fn to_i16(self) -> (r: i16)
        ensures
            r == self.spec_to_i16(),
    {
        match self {
            VerticalTextJustification::Baseline => 0,
            VerticalTextJustification::Bottom => 1,
            VerticalTextJustification::Middle => 2,
            VerticalTextJustification::Top => 3,
        }
    }
}

/// The direction multi-line text flows in.
#[derive(Clone, Copy, Debug, PartialEq, Eq, Structural)]
pub enum DrawingDirection {
    LeftToRight,
    TopToBottom,
    ByStyle,
}

impl DrawingDirection {
    /// The enumerator a coded integer names, if any.
    pub open spec fn spec_from_i16(v: i16) -> Option<DrawingDirection> {
        match v {
            1 => Some(DrawingDirection::LeftToRight),
            3 => Some(DrawingDirection::TopToBottom),
            5 => Some(DrawingDirection::ByStyle),
            _ => None,
        }
    }

    pub fn from_i16(v: i16) -> (r: Option<DrawingDirection>)
        ensures
            r == DrawingDirection::spec_from_i16(v),
    {
        match v {
            1 => Some(DrawingDirection::LeftToRight),
            3 => Some(DrawingDirection::TopToBottom),
            5 => Some(DrawingDirection::ByStyle),
            _ => None,
        }
    }

    /// The integer that codes this enumerator.
    pub open spec fn spec_to_i16(self) -> i16 {
        match self {
            DrawingDirection::LeftToRight => 1,
            DrawingDirection::TopToBottom => 3,
            DrawingDirection::ByStyle => 5,
        }
    }

    #[verifier::when_used_as_spec(spec_to_i16)]
    pub fn to_i16(self) -> (r: i16)
        ensures
            r == self.spec_to_i16(),
    {
        match self {
            DrawingDirection::LeftToRight => 1,
            DrawingDirection::TopToBottom => 3,
            DrawingDirection::ByStyle => 5,
        }
    }
}

/// How the background behind multi-line text is filled.
#[derive(Clone, Copy, Debug, PartialEq, Eq, Structural)]
pub enum BackgroundFillSetting {
    Off,
    UseBackgroundFillColor,
    UseDrawingWindowColor,
}

impl BackgroundFillSetting {
    /// The enumerator a coded integer names, if any.
    pub open spec fn spec_from_i16(v: i16) -> Option<BackgroundFillSetting> {
        match v {
            0 => Some(BackgroundFillSetting::Off),
            1 => Some(BackgroundFillSetting::UseBackgroundFillColor),
            2 => Some(BackgroundFillSetting::UseDrawingWindowColor),
            _ => None,
        }
    }

    pub fn from_i16(v: i16) -> (r: Option<BackgroundFillSetting>)
        ensures
            r == BackgroundFillSetting::spec_from_i16(v),
    {
        match v {
            0 => Some(BackgroundFillSetting::Off),
            1 => Some(BackgroundFillSetting::UseBackgroundFillColor),
            2 => Some(BackgroundFillSetting::UseDrawingWindowColor),
            _ => None,
        }
    }

    /// The integer that codes this enumerator.
    pub open spec fn spec_to_i16(self) -> i16 {
        match self {
            BackgroundFillSetting::Off => 0,
            BackgroundFillSetting::UseBackgroundFillColor => 1,
            BackgroundFillSetting::UseDrawingWindowColor => 2,
        }
    }

    #[verifier::when_used_as_spec(spec_to_i16)]
    pub fn to_i16(self) -> (r: i16)
        ensures
            r == self.spec_to_i16(),
    {
        match self {
            BackgroundFillSetting::Off => 0,
            BackgroundFillSetting::UseBackgroundFillColor => 1,
            BackgroundFillSetting::UseDrawingWindowColor => 2,
        }
    }
}

/// The kind of smooth surface a polygon mesh is fitted with.
#[derive(Clone, Copy, Debug, PartialEq, Eq, Structural)]
pub enum PolylineCurvedAndSmoothSurfaceType {
    NoSmoothing,
    QuadraticBSpline,
    CubicBSpline,
    Bezier,
}

impl PolylineCurvedAndSmoothSurfaceType {
    /// The enumerator a coded integer names, if any.
    pub open spec fn spec_from_i16(v: i16) -> Option<PolylineCurvedAndSmoothSurfaceType> {
        match v {
            0 => Some(PolylineCurvedAndSmoothSurfaceType::NoSmoothing),
            5 => Some(PolylineCurvedAndSmoothSurfaceType::QuadraticBSpline),
            6 => Some(PolylineCurvedAndSmoothSurfaceType::CubicBSpline),
            8 => Some(PolylineCurvedAndSmoothSurfaceType::Bezier),
            _ => None,
        }
    }

    pub fn from_i16(v: i16) -> (r: Option<PolylineCurvedAndSmoothSurfaceType>)
        ensures
            r == PolylineCurvedAndSmoothSurfaceType::spec_from_i16(v),
    {
        match v {
            0 => Some(PolylineCurvedAndSmoothSurfaceType::NoSmoothing),
            5 => Some(PolylineCurvedAndSmoothSurfaceType::QuadraticBSpline),
            6 => Some(PolylineCurvedAndSmoothSurfaceType::CubicBSpline),
            8 => Some(PolylineCurvedAndSmoothSurfaceType::Bezier),
            _ => None,
        }
    }

    /// The integer that codes this enumerator.
    pub open spec fn spec_to_i16(self) -> i16 {
        match self {
            PolylineCurvedAndSmoothSurfaceType::NoSmoothing => 0,
            PolylineCurvedAndSmoothSurfaceType::QuadraticBSpline => 5,
            PolylineCurvedAndSmoothSurfaceType::CubicBSpline => 6,
            PolylineCurvedAndSmoothSurfaceType::Bezier => 8,
        }
    }

    #[verifier::when_used_as_spec(spec_to_i16)]
    pub fn to_i16(self) -> (r: i16)
        ensures
            r == self.spec_to_i16(),
    {
        match self {
            PolylineCurvedAndSmoothSurfaceType::NoSmoothing => 0,
            PolylineCurvedAndSmoothSurfaceType::QuadraticBSpline => 5,
            PolylineCurvedAndSmoothSurfaceType::CubicBSpline => 6,
            PolylineCurvedAndSmoothSurfaceType::Bezier => 8,
        }
    }
}

} // verus!
