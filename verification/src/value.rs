use vstd::prelude::*;

verus! {

/// One SQL scalar value, as it will be bound to a placeholder.
///
/// The numeric conversions below widen every integer family into the 64-bit
/// representation, and a real number is carried as the IEEE-754 bit pattern
/// of a 64-bit float (`f64::to_bits`), so that the builder itself works on
/// plain integers end to end; the execution boundary converts back with
/// `f64::from_bits` when it binds the value.
#[derive(Debug, Clone, PartialEq)]
pub enum Value {
    Bool(bool),
    Text(String),
    Integer(i64),
    Real(u64),
    Blob(Vec<u8>),
    Null,
}

impl Value {
    /// Text value from a borrowed string.
    pub fn text(s: &str) -> (r: Value)
        ensures
            r matches Value::Text(t) && t@ == s@,
    {
        Value::Text(s.to_owned())
    }

    /// Real value from the bit pattern of a 64-bit float.
    pub fn real_from_bits(bits: u64) -> (r: Value)
        ensures
            r == Value::Real(bits),
    {
        Value::Real(bits)
    }

    /// Blob value from a borrowed byte slice.
    pub fn blob(bytes: &[u8]) -> (r: Value)
        ensures
            r matches Value::Blob(b) && b@ == bytes@,
    {
        Value::Blob(vstd::slice::slice_to_vec(bytes))
    }
}

impl From<()> for Value {
    fn from(_v: ()) -> (r: Value) {
        Value::Null
    }
}

impl vstd::std_specs::convert::FromSpecImpl<()> for Value {
    open spec fn obeys_from_spec() -> bool {
        true
    }

    open spec fn from_spec(_v: ()) -> Value {
        Value::Null
    }
}

impl<T> From<Option<T>> for Value where Value: From<T> {
    fn from(v: Option<T>) -> (r: Value) {
        match v {
            Some(x) => Value::from(x),
            None => Value::Null,
        }
    }
}

impl<T> vstd::std_specs::convert::FromSpecImpl<Option<T>> for Value where Value: From<T> {
    open spec fn obeys_from_spec() -> bool {
        <Value as vstd::std_specs::convert::FromSpec<T>>::obeys_from_spec()
    }

    open spec fn from_spec(v: Option<T>) -> Value {
        match v {
            Some(x) => <Value as vstd::std_specs::convert::FromSpec<T>>::from_spec(x),
            None => Value::Null,
        }
    }
}

impl From<bool> for Value {
    fn from(v: bool) -> (r: Value) {
        Value::Bool(v)
    }
}

impl vstd::std_specs::convert::FromSpecImpl<bool> for Value {
    open spec fn obeys_from_spec() -> bool {
        true
    }

    open spec fn from_spec(v: bool) -> Value {
        Value::Bool(v)
    }
}

impl From<String> for Value {
    fn from(v: String) -> (r: Value) {
        Value::Text(v)
    }
}

impl vstd::std_specs::convert::FromSpecImpl<String> for Value {
    open spec fn obeys_from_spec() -> bool {
        true
    }

    open spec fn from_spec(v: String) -> Value {
        Value::Text(v)
    }
}

impl From<Vec<u8>> for Value {
    fn from(v: Vec<u8>) -> (r: Value) {
        Value::Blob(v)
    }
}

impl vstd::std_specs::convert::FromSpecImpl<Vec<u8>> for Value {
    open spec fn obeys_from_spec() -> bool {
        true
    }

    open spec fn from_spec(v: Vec<u8>) -> Value {
        Value::Blob(v)
    }
}

impl From<i64> for Value {
    fn from(v: i64) -> (r: Value) {
        Value::Integer(v)
    }
}

impl vstd::std_specs::convert::FromSpecImpl<i64> for Value {
    open spec fn obeys_from_spec() -> bool {
        true
    }

    open spec fn from_spec(v: i64) -> Value {
        Value::Integer(v)
    }
}

impl From<i32> for Value {
    fn from(v: i32) -> (r: Value) {
        Value::Integer(v as i64)
    }
}

impl vstd::std_specs::convert::FromSpecImpl<i32> for Value {
    open spec fn obeys_from_spec() -> bool {
        true
    }

    open spec fn from_spec(v: i32) -> Value {
        Value::Integer(v as i64)
    }
}

impl From<i16> for Value {
    fn from(v: i16) -> (r: Value) {
        Value::Integer(v as i64)
    }
}

impl vstd::std_specs::convert::FromSpecImpl<i16> for Value {
    open spec fn obeys_from_spec() -> bool {
        true
    }

    open spec fn from_spec(v: i16) -> Value {
        Value::Integer(v as i64)
    }
}

impl From<i8> for Value {
    fn from(v: i8) -> (r: Value) {
        Value::Integer(v as i64)
    }
}

impl vstd::std_specs::convert::FromSpecImpl<i8> for Value {
    open spec fn obeys_from_spec() -> bool {
        true
    }

    open spec fn from_spec(v: i8) -> Value {
        Value::Integer(v as i64)
    }
}

impl From<u8> for Value {
    fn from(v: u8) -> (r: Value) {
        Value::Integer(v as i64)
    }
}

impl vstd::std_specs::convert::FromSpecImpl<u8> for Value {
    open spec fn obeys_from_spec() -> bool {
        true
    }

    open spec fn from_spec(v: u8) -> Value {
        Value::Integer(v as i64)
    }
}

impl From<u16> for Value {
    fn from(v: u16) -> (r: Value) {
        Value::Integer(v as i64)
    }
}

impl vstd::std_specs::convert::FromSpecImpl<u16> for Value {
    open spec fn obeys_from_spec() -> bool {
        true
    }

    open spec fn from_spec(v: u16) -> Value {
        Value::Integer(v as i64)
    }
}

impl From<u32> for Value {
    fn from(v: u32) -> (r: Value) {
        Value::Integer(v as i64)
    }
}

impl vstd::std_specs::convert::FromSpecImpl<u32> for Value {
    open spec fn obeys_from_spec() -> bool {
        true
    }

    open spec fn from_spec(v: u32) -> Value {
        Value::Integer(v as i64)
    }
}

} // verus!
