use vstd::prelude::*;
use crate::error::Error;
use crate::scalar::{PType, PValue, Scalar};

verus! {

/// The source of a host number. The host has one numeric type, a double; an
/// integer is held at its widest, a float by its bit pattern, and the host
/// widens either to a double when it takes the value.
#[derive(Clone, Copy, Debug, PartialEq, Eq, Structural)]
pub enum Number {
    Unsigned(u64),
    Signed(i64),
    Single(u32),
    Double(u64),
}

/// A value of the host's small, dynamically typed vocabulary.
#[derive(Debug, PartialEq, Eq)]
pub enum HostValue {
    Null,
    Bool(bool),
    Number(Number),
    Text(String),
    Bytes(Vec<u8>),
    Object(Record),
}

/// An ordered mapping from field names to host values. It is made once, by
/// a projection, and offers no way to change it afterwards.
#[derive(Debug, PartialEq, Eq)]
pub struct Record {
    entries: Vec<(String, HostValue)>,
}

impl Record {
    /// The fields, each a name with its value, in declaration order.
    pub closed spec fn entries(self) -> Seq<(String, HostValue)> {
        self.entries@
    }

    /// The number of fields.
    pub fn len(&self) -> (n: usize)
        ensures
            n == self.entries().len(),
    {
        self.entries.len()
    }

    /// The name of the field at `index`, if there is one.
    pub fn name(&self, index: usize) -> (name: Option<&String>)
        ensures
            index < self.entries().len() ==> name == Some(&self.entries()[index as int].0),
            index >= self.entries().len() ==> name is None,
    {
        if index < self.entries.len() {
            Some(&self.entries[index].0)
        } else {
            None
        }
    }

    /// The value of the field at `index`, if there is one.
    pub fn value(&self, index: usize) -> (value: Option<&HostValue>)
        ensures
            index < self.entries().len() ==> value == Some(&self.entries()[index as int].1),
            index >= self.entries().len() ==> value is None,
    {
        if index < self.entries.len() {
            Some(&self.entries[index].1)
        } else {
            None
        }
    }
}

/// The mathematical value of a `HostValue`.
pub enum HostValueView {
    Null,
    Bool(bool),
    Number(Number),
    Text(Seq<char>),
    Bytes(Seq<u8>),
    Object(Seq<(Seq<char>, HostValueView)>),
}

impl View for HostValue {
    type V = HostValueView;

    open spec fn view(&self) -> HostValueView
        decreases self,
    {
        match self {
            HostValue::Null => HostValueView::Null,
            HostValue::Bool(b) => HostValueView::Bool(*b),
            HostValue::Number(n) => HostValueView::Number(*n),
            HostValue::Text(s) => HostValueView::Text(s@),
            HostValue::Bytes(b) => HostValueView::Bytes(b@),
            HostValue::Object(record) => HostValueView::Object(
                Seq::new(
                    record.entries().len(),
                    |i: int|
                        if 0 <= i < record.entries().len() {
                            (record.entries()[i].0@, record.entries()[i].1.view())
                        } else {
                            (Seq::empty(), HostValueView::Null)
                        },
                ),
            ),
        }
    }
}

/// The host number that a primitive value widens to, or `None` for a half
/// precision float, which the host's numeric path cannot hold.
pub open spec fn widen(v: PValue) -> Option<Number> {
    match v {
        PValue::U8(x) => Some(Number::Unsigned(x as u64)),
        PValue::U16(x) => Some(Number::Unsigned(x as u64)),
        PValue::U32(x) => Some(Number::Unsigned(x as u64)),
        PValue::U64(x) => Some(Number::Unsigned(x)),
        PValue::I8(x) => Some(Number::Signed(x as i64)),
        PValue::I16(x) => Some(Number::Signed(x as i64)),
        PValue::I32(x) => Some(Number::Signed(x as i64)),
        PValue::I64(x) => Some(Number::Signed(x)),
        PValue::F16(_) => None,
        PValue::F32(bits) => Some(Number::Single(bits)),
        PValue::F64(bits) => Some(Number::Double(bits)),
    }
}

/// How many fields of a struct scalar are projected: each name is paired
/// with the value at its position.
pub open spec fn paired(names: Seq<String>, fields: Seq<Scalar>) -> nat {
    if names.len() <= fields.len() {
        names.len()
    } else {
        fields.len()
    }
}

/// The host value of a scalar, or the failure where its type has none.
///
/// A null of any type is the host's null. A number widens as `widen` says.
/// A struct becomes an object of its projected fields in declaration order,
/// and fails where one of them fails. Lists, extension types and half
/// precision floats are unsupported.
pub open spec fn projection(s: Scalar) -> Result<HostValueView, Error>
    decreases s,
{
    match s {
        Scalar::Null => Ok(HostValueView::Null),
        Scalar::Bool(None) => Ok(HostValueView::Null),
        Scalar::Bool(Some(b)) => Ok(HostValueView::Bool(b)),
        Scalar::Primitive(p, v) => if p == PType::F16 {
            Err(Error::UnsupportedType)
        } else {
            match v {
                None => Ok(HostValueView::Null),
                Some(x) => match widen(x) {
                    Some(n) => Ok(HostValueView::Number(n)),
                    None => Err(Error::UnsupportedType),
                },
            }
        },
        Scalar::Utf8(None) => Ok(HostValueView::Null),
        Scalar::Utf8(Some(text)) => Ok(HostValueView::Text(text@)),
        Scalar::Binary(None) => Ok(HostValueView::Null),
        Scalar::Binary(Some(bytes)) => Ok(HostValueView::Bytes(bytes@)),
        Scalar::Struct(_, None) => Ok(HostValueView::Null),
        Scalar::Struct(names, Some(fields)) => {
            let n = paired(names@, fields@);
            if forall|i: int| 0 <= i < n ==> projection(#[trigger] fields[i]) is Ok {
                Ok(
                    HostValueView::Object(
                        Seq::new(
                            n,
                            |i: int|
                                if 0 <= i < n {
                                    (names[i]@, projection(fields[i])->Ok_0)
                                } else {
                                    (Seq::empty(), HostValueView::Null)
                                },
                        ),
                    ),
                )
            } else {
                Err(Error::UnsupportedType)
            }
        },
        Scalar::List => Err(Error::UnsupportedType),
        Scalar::Extension => Err(Error::UnsupportedType),
    }
}

/// The outcome of a projection, with the host value taken by its view.
pub open spec fn outcome_view(out: Result<HostValue, Error>) -> Result<HostValueView, Error> {
    match out {
        Ok(v) => Ok(v@),
        Err(e) => Err(e),
    }
}

/// Widens a primitive value to the host's number.
pub fn widen_value(v: PValue) -> (out: Option<Number>)
    ensures
        out == widen(v),
{
    match v {
        PValue::U8(x) => Some(Number::Unsigned(x as u64)),
        PValue::U16(x) => Some(Number::Unsigned(x as u64)),
        PValue::U32(x) => Some(Number::Unsigned(x as u64)),
        PValue::U64(x) => Some(Number::Unsigned(x)),
        PValue::I8(x) => Some(Number::Signed(x as i64)),
        PValue::I16(x) => Some(Number::Signed(x as i64)),
        PValue::I32(x) => Some(Number::Signed(x as i64)),
        PValue::I64(x) => Some(Number::Signed(x)),
        PValue::F16(_) => None,
        PValue::F32(bits) => Some(Number::Single(bits)),
        PValue::F64(bits) => Some(Number::Double(bits)),
    }
}

/// Projects a decoded scalar into the host's value model.
pub fn to_js_val(scalar: &Scalar) -> (out: Result<HostValue, Error>)
    ensures
        outcome_view(out) == projection(*scalar),
    decreases scalar,
{
    match scalar {
        Scalar::Null => Ok(HostValue::Null),
        Scalar::Bool(None) => Ok(HostValue::Null),
        Scalar::Bool(Some(b)) => Ok(HostValue::Bool(*b)),
        Scalar::Primitive(p, v) => {
            if let PType::F16 = p {
                return Err(Error::UnsupportedType);
            }
            match v {
                None => Ok(HostValue::Null),
                Some(x) => match widen_value(*x) {
                    Some(n) => Ok(HostValue::Number(n)),
                    None => Err(Error::UnsupportedType),
                },
            }
        },
        Scalar::Utf8(None) => Ok(HostValue::Null),
        Scalar::Utf8(Some(text)) => Ok(HostValue::Text(text.clone())),
        Scalar::Binary(None) => Ok(HostValue::Null),
        Scalar::Binary(Some(bytes)) => Ok(HostValue::Bytes(bytes.clone())),
        Scalar::Struct(_, None) => Ok(HostValue::Null),
        Scalar::Struct(names, Some(fields)) => {
            let n: usize = if names.len() <= fields.len() {
                names.len()
            } else {
                fields.len()
            };
            let mut entries: Vec<(String, HostValue)> = Vec::new();
            let mut i: usize = 0;
            while i < n
                invariant
                    *scalar == Scalar::Struct(*names, Some(*fields)),
                    n == paired(names@, fields@),
                    i <= n,
                    entries.len() == i,
                    forall|j: int|
                        0 <= j < i ==> (#[trigger] entries[j]).0@ == names[j]@ && projection(
                            fields[j],
                        ) == Ok::<HostValueView, Error>(entries[j].1@),
                decreases n - i,
            {
                match to_js_val(&fields[i]) {
                    Ok(v) => {
                        entries.push((names[i].clone(), v));
                    },
                    Err(_) => {
                        assert(projection(fields[i as int]) is Err);
                        return Err(Error::UnsupportedType);
                    },
                }
                i += 1;
            }
            let out = HostValue::Object(Record { entries });
            proof {
                assert forall|k: int| 0 <= k < n implies projection(#[trigger] fields[k]) == Ok::<
                    HostValueView,
                    Error,
                >(entries[k].1@) by {
                    assert(entries[k].0@ == names[k]@);
                }
                assert(out@->Object_0 =~= projection(*scalar)->Ok_0->Object_0);
            }
            Ok(out)
        },
        Scalar::List => Err(Error::UnsupportedType),
        Scalar::Extension => Err(Error::UnsupportedType),
    }
}

/// A projection fails in one way only: the scalar's type is unsupported.
pub proof fn lemma_projection_fails_only_as_unsupported(s: Scalar)
    ensures
        projection(s) matches Err(e) ==> e == Error::UnsupportedType,
{
}

/// A null of any supported primitive type is the host's null, never a
/// number.
pub proof fn lemma_null_primitive_is_null(p: PType)
    requires
        p != PType::F16,
    ensures
        projection(Scalar::Primitive(p, None)) == Ok::<HostValueView, Error>(HostValueView::Null),
{
}

/// A struct whose fields all have host values becomes an object that holds
/// one entry for each paired field, in declaration order: the field's name
/// with the field's own projection.
pub proof fn lemma_struct_keeps_field_order(names: Vec<String>, fields: Vec<Scalar>)
    requires
        forall|i: int|
            0 <= i < paired(names@, fields@) ==> projection(#[trigger] fields[i]) is Ok,
    ensures
        projection(Scalar::Struct(names, Some(fields))) matches Ok(HostValueView::Object(entries))
            && entries.len() == paired(names@, fields@) && forall|i: int|
            0 <= i < entries.len() ==> (#[trigger] entries[i]) == (
                names[i]@,
                projection(fields[i])->Ok_0,
            ),
{
}

/// A struct with a field that has no host value has none itself.
pub proof fn lemma_struct_fails_with_its_field(names: Vec<String>, fields: Vec<Scalar>, i: int)
    requires
        0 <= i < paired(names@, fields@),
        projection(fields[i]) is Err,
    ensures
        projection(Scalar::Struct(names, Some(fields))) == Err::<HostValueView, Error>(
            Error::UnsupportedType,
        ),
{
}

} // verus!
