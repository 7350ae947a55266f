use vstd::prelude::*;

verus! {

/// An opaque cross-reference identifier.
#[derive(Clone, Copy, Debug, PartialEq, Eq, Structural)]
pub struct Handle(pub u64);

impl Handle {
    /// The handle that refers to nothing.
    pub fn empty() -> (r: Handle)
        ensures
            r.0 == 0,
    {
        Handle(0)
    }
}

/// The typed payload of a record.
///
/// Real numbers are carried as the IEEE-754 bit pattern of a 64-bit float.
#[derive(Clone, Debug, PartialEq)]
pub enum CodePairValue {
    Boolean(bool),
    Integer(i32),
    Long(i64),
    Double(u64),
    Str(String),
    Short(i16),
    Binary(Vec<u8>),
    Handle(Handle),
}

/// One tagged record: a code, a typed value and the offset in the source it
/// was read from.
#[derive(Clone, Debug, PartialEq)]
pub struct CodePair {
    pub code: u16,
    pub value: CodePairValue,
    pub offset: usize,
}

/// The value of a record as a mathematical object.
pub enum ValueView {
    Boolean(bool),
    Integer(i32),
    Long(i64),
    Double(u64),
    Str(Seq<char>),
    Short(i16),
    Binary(Seq<u8>),
    Handle(Handle),
}

/// A record as a mathematical object.
pub struct CodePairView {
    pub code: u16,
    pub value: ValueView,
    pub offset: usize,
}

impl View for CodePairValue {
    type V = ValueView;

    open spec fn view(&self) -> ValueView {
        match self {
            CodePairValue::Boolean(b) => ValueView::Boolean(*b),
            CodePairValue::Integer(v) => ValueView::Integer(*v),
            CodePairValue::Long(v) => ValueView::Long(*v),
            CodePairValue::Double(v) => ValueView::Double(*v),
            CodePairValue::Str(s) => ValueView::Str(s@),
            CodePairValue::Short(v) => ValueView::Short(*v),
            CodePairValue::Binary(b) => ValueView::Binary(b@),
            CodePairValue::Handle(h) => ValueView::Handle(*h),
        }
    }
}

impl View for CodePair {
    type V = CodePairView;

    open spec fn view(&self) -> CodePairView {
        CodePairView { code: self.code, value: self.value@, offset: self.offset }
    }
}

/// The views of a sequence of records.
pub open spec fn pairs_view(s: Seq<CodePair>) -> Seq<CodePairView> {
    s.map_values(|p: CodePair| p@)
}

/// A record written by the encoder (offset 0).
pub open spec fn rec(code: u16, value: ValueView) -> CodePairView {
    CodePairView { code, value, offset: 0 }
}

/// Why decoding failed.
#[derive(Clone, Copy, Debug, PartialEq, Eq, Structural)]
pub enum DxfError {
    /// A record other than an entity tag stood where a tag was required.
    ExpectedEntityTag(usize),
    /// The input ended in the middle of an entity.
    UnexpectedEndOfInput,
    /// A coded integer names no known enumerator.
    UnexpectedEnumValue(usize),
    /// A record is not valid at its position.
    UnexpectedCodePair(usize),
    /// A record's value does not have the type its field expects.
    WrongValueType(usize),
}

pub type DxfResult<T> = Result<T, DxfError>;

/// The tag code that starts an entity and carries its type name.
pub const TAG_CODE: u16 = 0;

/// The code of a comment record.
pub const COMMENT_CODE: u16 = 999;

/// Bit pattern of the real number 1.0.
pub const REAL_ONE: u64 = 0x3FF0_0000_0000_0000;

/// A real number (as bits) that compares equal to zero: `0.0` or `-0.0`.
pub open spec fn is_zero_real(bits: u64) -> bool {
    bits == 0 || bits == 0x8000_0000_0000_0000u64
}

pub fn real_is_zero(bits: u64) -> (r: bool)
    ensures
        r == is_zero_real(bits),
{
    bits == 0 || bits == 0x8000_0000_0000_0000u64
}

pub open spec fn string_value(p: CodePairView) -> DxfResult<Seq<char>> {
    match p.value {
        ValueView::Str(s) => Ok(s),
        _ => Err(DxfError::WrongValueType(p.offset)),
    }
}

pub open spec fn real_value(p: CodePairView) -> DxfResult<u64> {
    match p.value {
        ValueView::Double(d) => Ok(d),
        _ => Err(DxfError::WrongValueType(p.offset)),
    }
}

pub open spec fn short_value(p: CodePairView) -> DxfResult<i16> {
    match p.value {
        ValueView::Short(v) => Ok(v),
        _ => Err(DxfError::WrongValueType(p.offset)),
    }
}

pub open spec fn int_value(p: CodePairView) -> DxfResult<i32> {
    match p.value {
        ValueView::Integer(v) => Ok(v),
        _ => Err(DxfError::WrongValueType(p.offset)),
    }
}

pub open spec fn handle_value(p: CodePairView) -> DxfResult<Handle> {
    match p.value {
        ValueView::Handle(h) => Ok(h),
        _ => Err(DxfError::WrongValueType(p.offset)),
    }
}

pub open spec fn binary_value(p: CodePairView) -> DxfResult<Seq<u8>> {
    match p.value {
        ValueView::Binary(b) => Ok(b),
        _ => Err(DxfError::WrongValueType(p.offset)),
    }
}

/// A copy of a byte vector.
pub fn copy_bytes(v: &Vec<u8>) -> (r: Vec<u8>)
    ensures
        r@ == v@,
{
    let mut r: Vec<u8> = Vec::new();
    let mut i: usize = 0;
    while i < v.len()
        invariant
            i <= v.len(),
            r@ == v@.subrange(0, i as int),
        decreases v.len() - i,
    {
        r.push(v[i]);
        i = i + 1;
    }
    assert(r@ =~= v@);
    r
}

/// Appends one record to an output.
pub fn emit(out: &mut Vec<CodePair>, p: CodePair)
    ensures
        pairs_view(final(out)@) == pairs_view(old(out)@).push(p@),
{
    out.push(p);
    assert(pairs_view(out@) =~= pairs_view(old(out)@).push(p@));
}

/// Whether a string equals a literal.
pub fn text_is(s: &String, lit: &str) -> (r: bool)
    ensures
        r == (s@ == lit@),
{
    let owned = lit.to_owned();
    *s == owned
}

impl CodePair {
    pub fn new_str(code: u16, s: &str) -> (r: CodePair)
        ensures
            r@ == rec(code, ValueView::Str(s@)),
    {
        CodePair { code, value: CodePairValue::Str(s.to_owned()), offset: 0 }
    }

    pub fn new_string(code: u16, s: &String) -> (r: CodePair)
        ensures
            r@ == rec(code, ValueView::Str(s@)),
    {
        CodePair { code, value: CodePairValue::Str(s.clone()), offset: 0 }
    }

    /// A record holding a real number given by its bit pattern.
    pub fn new_real(code: u16, bits: u64) -> (r: CodePair)
        ensures
            r@ == rec(code, ValueView::Double(bits)),
    {
        CodePair { code, value: CodePairValue::Double(bits), offset: 0 }
    }

    pub fn new_i16(code: u16, v: i16) -> (r: CodePair)
        ensures
            r@ == rec(code, ValueView::Short(v)),
    {
        CodePair { code, value: CodePairValue::Short(v), offset: 0 }
    }

    pub fn new_i32(code: u16, v: i32) -> (r: CodePair)
        ensures
            r@ == rec(code, ValueView::Integer(v)),
    {
        CodePair { code, value: CodePairValue::Integer(v), offset: 0 }
    }

    pub fn new_handle(code: u16, h: Handle) -> (r: CodePair)
        ensures
            r@ == rec(code, ValueView::Handle(h)),
    {
        CodePair { code, value: CodePairValue::Handle(h), offset: 0 }
    }

    pub fn new_binary(code: u16, b: &Vec<u8>) -> (r: CodePair)
        ensures
            r@ == rec(code, ValueView::Binary(b@)),
    {
        CodePair { code, value: CodePairValue::Binary(copy_bytes(b)), offset: 0 }
    }

    /// A copy of this record.
    pub fn copy(&self) -> (r: CodePair)
        ensures
            r@ == self@,
    {
        let value = match &self.value {
            CodePairValue::Boolean(b) => CodePairValue::Boolean(*b),
            CodePairValue::Integer(v) => CodePairValue::Integer(*v),
            CodePairValue::Long(v) => CodePairValue::Long(*v),
            CodePairValue::Double(v) => CodePairValue::Double(*v),
            CodePairValue::Str(s) => CodePairValue::Str(s.clone()),
            CodePairValue::Short(v) => CodePairValue::Short(*v),
            CodePairValue::Binary(b) => CodePairValue::Binary(copy_bytes(b)),
            CodePairValue::Handle(h) => CodePairValue::Handle(*h),
        };
        CodePair { code: self.code, value, offset: self.offset }
    }

    pub fn assert_string(&self) -> (r: DxfResult<String>)
        ensures
            match string_value(self@) {
                Ok(v) => r matches Ok(x) && x@ == v,
                Err(e) => r == Err::<String, DxfError>(e),
            },
    {
        match &self.value {
            CodePairValue::Str(s) => Ok(s.clone()),
            _ => Err(DxfError::WrongValueType(self.offset)),
        }
    }

    /// The bit pattern of the real number this record holds.
    pub fn assert_real(&self) -> (r: DxfResult<u64>)
        ensures
            r == real_value(self@),
    {
        match &self.value {
            CodePairValue::Double(d) => Ok(*d),
            _ => Err(DxfError::WrongValueType(self.offset)),
        }
    }

    pub fn assert_i16(&self) -> (r: DxfResult<i16>)
        ensures
            r == short_value(self@),
    {
        match &self.value {
            CodePairValue::Short(v) => Ok(*v),
            _ => Err(DxfError::WrongValueType(self.offset)),
        }
    }

    pub fn assert_i32(&self) -> (r: DxfResult<i32>)
        ensures
            r == int_value(self@),
    {
        match &self.value {
            CodePairValue::Integer(v) => Ok(*v),
            _ => Err(DxfError::WrongValueType(self.offset)),
        }
    }

    pub fn as_handle(&self) -> (r: DxfResult<Handle>)
        ensures
            r == handle_value(self@),
    {
        match &self.value {
            CodePairValue::Handle(h) => Ok(*h),
            _ => Err(DxfError::WrongValueType(self.offset)),
        }
    }

    pub fn assert_binary(&self) -> (r: DxfResult<Vec<u8>>)
        ensures
            match binary_value(self@) {
                Ok(b) => r matches Ok(v) && v@ == b,
                Err(e) => r == Err::<Vec<u8>, DxfError>(e),
            },
    {
        match &self.value {
            CodePairValue::Binary(b) => Ok(copy_bytes(b)),
            _ => Err(DxfError::WrongValueType(self.offset)),
        }
    }
}

} // verus!
