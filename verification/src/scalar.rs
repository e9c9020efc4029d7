use vstd::prelude::*;

verus! {

/// The physical type of a primitive numeric scalar.
#[derive(Clone, Copy, Debug, PartialEq, Eq, Structural)]
pub enum PType {
    U8,
    U16,
    U32,
    U64,
    I8,
    I16,
    I32,
    I64,
    F16,
    F32,
    F64,
}

/// A primitive numeric value as it was decoded. A float is held by its bit
/// pattern, so that the value passes through unchanged.
#[derive(Clone, Copy, Debug, PartialEq, Eq, Structural)]
pub enum PValue {
    U8(u8),
    U16(u16),
    U32(u32),
    U64(u64),
    I8(i8),
    I16(i16),
    I32(i32),
    I64(i64),
    F16(u16),
    F32(u32),
    F64(u64),
}

/// One decoded logical value together with its type tag. A `None` inside a
/// variant is a null of that type.
#[derive(Debug)]
pub enum Scalar {
    /// The null type, whose only value is null.
    Null,
    Bool(Option<bool>),
    Primitive(PType, Option<PValue>),
    Utf8(Option<String>),
    Binary(Option<Vec<u8>>),
    /// The declared field names, and the field values in the same order.
    Struct(Vec<String>, Option<Vec<Scalar>>),
    List,
    Extension,
}

impl PValue {
    /// The physical type that the value is held in.
    pub open spec fn spec_ptype(self) -> PType {
        match self {
            PValue::U8(_) => PType::U8,
            PValue::U16(_) => PType::U16,
            PValue::U32(_) => PType::U32,
            PValue::U64(_) => PType::U64,
            PValue::I8(_) => PType::I8,
            PValue::I16(_) => PType::I16,
            PValue::I32(_) => PType::I32,
            PValue::I64(_) => PType::I64,
            PValue::F16(_) => PType::F16,
            PValue::F32(_) => PType::F32,
            PValue::F64(_) => PType::F64,
        }
    }

    #[verifier::when_used_as_spec(spec_ptype)]
    pub fn ptype(self) -> (p: PType)
        ensures
            p == self.spec_ptype(),
    {
        match self {
            PValue::U8(_) => PType::U8,
            PValue::U16(_) => PType::U16,
            PValue::U32(_) => PType::U32,
            PValue::U64(_) => PType::U64,
            PValue::I8(_) => PType::I8,
            PValue::I16(_) => PType::I16,
            PValue::I32(_) => PType::I32,
            PValue::I64(_) => PType::I64,
            PValue::F16(_) => PType::F16,
            PValue::F32(_) => PType::F32,
            PValue::F64(_) => PType::F64,
        }
    }
}

} // verus!
