use crate::error::ConnectorError;
use crate::value::{entries_insert, Object, Value};
use vstd::prelude::*;

verus! {

/// Relies on `ToString::to_string` for `char`: a string of that one character.
#[verifier::external_body]
fn char_to_string(c: char) -> (r: String)
    ensures
        r@ == seq![c],
{
    c.to_string()
}

/// The error a map key that is not a string gives.
pub fn key_must_be_a_string() -> (r: ConnectorError)
    ensures
        r == ConnectorError::KeyMustBeAString,
{
    ConnectorError::KeyMustBeAString
}

/// `value` is a string value with the characters `s`.
pub open spec fn is_string_value(value: Value, s: Seq<char>) -> bool {
    value matches Value::String(v) && v@ == s
}

/// `value` is an object whose entries are `entries`.
pub open spec fn is_object_value(value: Value, entries: Seq<(Seq<char>, Value)>) -> bool {
    value matches Value::Object(o) && o.wf() && o.entries() == entries
}

/// `value` is an array whose elements are `elems`.
pub open spec fn is_array_value(value: Value, elems: Seq<Value>) -> bool {
    value matches Value::Array(a) && a@ == elems
}

/// Turns plain data into a `Value`. Compound data is built with the
/// collectors that the `serialize_seq`, `serialize_map` and similar methods
/// return; the value of each part is handed to them already serialized.
pub struct Serializer {}

impl Default for Serializer {
    fn default() -> (r: Self) {
        Serializer {  }
    }
}

impl Serializer {
    pub fn serialize_bool(self, value: bool) -> (r: Result<Value, ConnectorError>)
        ensures
            r == Ok::<Value, ConnectorError>(Value::Bool(value)),
    {
        Ok(Value::Bool(value))
    }

    pub fn serialize_i8(self, value: i8) -> (r: Result<Value, ConnectorError>)
        ensures
            r == Ok::<Value, ConnectorError>(Value::I64(value as i64)),
    {
        self.serialize_i64(value as i64)
    }

    pub fn serialize_i16(self, value: i16) -> (r: Result<Value, ConnectorError>)
        ensures
            r == Ok::<Value, ConnectorError>(Value::I64(value as i64)),
    {
        self.serialize_i64(value as i64)
    }

    pub fn serialize_i32(self, value: i32) -> (r: Result<Value, ConnectorError>)
        ensures
            r == Ok::<Value, ConnectorError>(Value::I64(value as i64)),
    {
        self.serialize_i64(value as i64)
    }

    pub fn serialize_i64(self, value: i64) -> (r: Result<Value, ConnectorError>)
        ensures
            r == Ok::<Value, ConnectorError>(Value::I64(value)),
    {
        Ok(Value::I64(value))
    }

    pub fn serialize_u8(self, value: u8) -> (r: Result<Value, ConnectorError>)
        ensures
            r == Ok::<Value, ConnectorError>(Value::I64(value as i64)),
    {
        self.serialize_u64(value as u64)
    }

    pub fn serialize_u16(self, value: u16) -> (r: Result<Value, ConnectorError>)
        ensures
            r == Ok::<Value, ConnectorError>(Value::I64(value as i64)),
    {
        self.serialize_u64(value as u64)
    }

    pub fn serialize_u32(self, value: u32) -> (r: Result<Value, ConnectorError>)
        ensures
            r == Ok::<Value, ConnectorError>(Value::I64(value as i64)),
    {
        self.serialize_u64(value as u64)
    }

    /// An unsigned integer is stored as a signed one: values above
    /// `i64::MAX` wrap around to negative numbers.
    pub fn serialize_u64(self, value: u64) -> (r: Result<Value, ConnectorError>)
        ensures
            r == Ok::<Value, ConnectorError>(Value::I64(value as i64)),
    {
        Ok(Value::I64(#[verifier::truncate] (value as i64)))
    }

    pub fn serialize_char(self, value: char) -> (r: Result<Value, ConnectorError>)
        ensures
            r is Ok && is_string_value(r->Ok_0, seq![value]),
    {
        let s = char_to_string(value);
        self.serialize_str(s.as_str())
    }

    pub fn serialize_str(self, value: &str) -> (r: Result<Value, ConnectorError>)
        ensures
            r is Ok && is_string_value(r->Ok_0, value@),
    {
        Ok(Value::String(value.to_owned()))
    }

    /// Bytes become an array of unsigned integers, one for each byte.
    pub fn serialize_bytes(self, value: &[u8]) -> (r: Result<Value, ConnectorError>)
        ensures
            r is Ok,
            r->Ok_0 matches Value::Array(a) && a@.len() == value@.len() && forall|i: int|
                0 <= i < value@.len() ==> #[trigger] a@[i] == Value::U64(value@[i] as u64),
    {
        let mut out: Vec<Value> = Vec::with_capacity(value.len());
        let mut i: usize = 0;
        while i < value.len()
            invariant
                0 <= i <= value@.len(),
                out@.len() == i,
                forall|j: int| 0 <= j < i ==> #[trigger] out@[j] == Value::U64(value@[j] as u64),
            decreases value@.len() - i,
        {
            out.push(Value::U64(value[i] as u64));
            i = i + 1;
        }
        Ok(Value::Array(out))
    }

    pub fn serialize_unit(self) -> (r: Result<Value, ConnectorError>)
        ensures
            r == Ok::<Value, ConnectorError>(Value::Null),
    {
        Ok(Value::Null)
    }

    pub fn serialize_unit_struct(self, name: &str) -> (r: Result<Value, ConnectorError>)
        ensures
            r == Ok::<Value, ConnectorError>(Value::Null),
    {
        self.serialize_unit()
    }

    /// A unit variant is its name.
    pub fn serialize_unit_variant(self, name: &str, variant_index: u32, variant: &str) -> (r:
        Result<Value, ConnectorError>)
        ensures
            r is Ok && is_string_value(r->Ok_0, variant@),
    {
        self.serialize_str(variant)
    }

    /// A newtype struct is the value it wraps.
    pub fn serialize_newtype_struct(self, name: &str, value: Value) -> (r: Result<
        Value,
        ConnectorError,
    >)
        ensures
            r == Ok::<Value, ConnectorError>(value),
    {
        Ok(value)
    }

    /// A newtype variant is an object with one entry, from the variant's
    /// name to the value it wraps.
    pub fn serialize_newtype_variant(
        self,
        name: &str,
        variant_index: u32,
        variant: &str,
        value: Value,
    ) -> (r: Result<Value, ConnectorError>)
        ensures
            r is Ok && is_object_value(r->Ok_0, seq![(variant@, value)]),
    {
        let mut values = Object::new();
        values.insert(variant.to_owned(), value);
        proof {
            assert(entries_insert(Seq::empty(), variant@, value) == seq![(variant@, value)]);
        }
        Ok(Value::Object(values))
    }

    pub fn serialize_none(self) -> (r: Result<Value, ConnectorError>)
        ensures
            r == Ok::<Value, ConnectorError>(Value::Null),
    {
        self.serialize_unit()
    }

    pub fn serialize_some(self, value: Value) -> (r: Result<Value, ConnectorError>)
        ensures
            r == Ok::<Value, ConnectorError>(value),
    {
        Ok(value)
    }

    pub fn serialize_seq(self, len: Option<usize>) -> (r: Result<SerializeVec, ConnectorError>)
        ensures
            r is Ok && r->Ok_0.elements() == Seq::<Value>::empty(),
    {
        let cap = match len {
            Some(n) => n,
            None => 0,
        };
        Ok(SerializeVec { vec: Vec::with_capacity(cap) })
    }

    pub fn serialize_tuple(self, len: usize) -> (r: Result<SerializeVec, ConnectorError>)
        ensures
            r is Ok && r->Ok_0.elements() == Seq::<Value>::empty(),
    {
        self.serialize_seq(Some(len))
    }

    pub fn serialize_tuple_struct(self, name: &str, len: usize) -> (r: Result<
        SerializeVec,
        ConnectorError,
    >)
        ensures
            r is Ok && r->Ok_0.elements() == Seq::<Value>::empty(),
    {
        self.serialize_seq(Some(len))
    }

    pub fn serialize_tuple_variant(
        self,
        name: &str,
        variant_index: u32,
        variant: &str,
        len: usize,
    ) -> (r: Result<SerializeTupleVariant, ConnectorError>)
        ensures
            r is Ok,
            r->Ok_0.name() == variant@,
            r->Ok_0.elements() == Seq::<Value>::empty(),
    {
        Ok(SerializeTupleVariant { name: variant.to_owned(), vec: Vec::with_capacity(len) })
    }

    pub fn serialize_map(self, len: Option<usize>) -> (r: Result<SerializeMap, ConnectorError>)
        ensures
            r is Ok,
            r->Ok_0.wf(),
            r->Ok_0.entries() == Seq::<(Seq<char>, Value)>::empty(),
            r->Ok_0.next_key() is None,
    {
        Ok(SerializeMap::Entries { map: Object::new(), next_key: None })
    }

    pub fn serialize_struct(self, name: &str, len: usize) -> (r: Result<
        SerializeMap,
        ConnectorError,
    >)
        ensures
            r is Ok,
            r->Ok_0.wf(),
            r->Ok_0.entries() == Seq::<(Seq<char>, Value)>::empty(),
            r->Ok_0.next_key() is None,
    {
        self.serialize_map(Some(len))
    }

    pub fn serialize_struct_variant(
        self,
        name: &str,
        variant_index: u32,
        variant: &str,
        len: usize,
    ) -> (r: Result<SerializeStructVariant, ConnectorError>)
        ensures
            r is Ok,
            r->Ok_0.wf(),
            r->Ok_0.name() == variant@,
            r->Ok_0.entries() == Seq::<(Seq<char>, Value)>::empty(),
    {
        Ok(SerializeStructVariant { name: variant.to_owned(), map: Object::new() })
    }
}

/// Collects the elements of a sequence, tuple or tuple struct.
pub struct SerializeVec {
    vec: Vec<Value>,
}

impl SerializeVec {
    pub closed spec fn elements(&self) -> Seq<Value> {
        self.vec@
    }

    pub fn serialize_element(&mut self, value: Value) -> (r: Result<(), ConnectorError>)
        ensures
            r is Ok,
            final(self).elements() == old(self).elements().push(value),
    {
        self.vec.push(value);
        Ok(())
    }

    pub fn serialize_field(&mut self, value: Value) -> (r: Result<(), ConnectorError>)
        ensures
            r is Ok,
            final(self).elements() == old(self).elements().push(value),
    {
        self.serialize_element(value)
    }

    /// The array of the elements, in the order they were given.
    pub fn end(self) -> (r: Result<Value, ConnectorError>)
        ensures
            r is Ok && is_array_value(r->Ok_0, self.elements()),
    {
        Ok(Value::Array(self.vec))
    }
}

/// Collects the fields of a tuple variant.
pub struct SerializeTupleVariant {
    name: String,
    vec: Vec<Value>,
}

impl SerializeTupleVariant {
    pub closed spec fn name(&self) -> Seq<char> {
        self.name@
    }

    pub closed spec fn elements(&self) -> Seq<Value> {
        self.vec@
    }

    pub fn serialize_field(&mut self, value: Value) -> (r: Result<(), ConnectorError>)
        ensures
            r is Ok,
            final(self).name() == old(self).name(),
            final(self).elements() == old(self).elements().push(value),
    {
        self.vec.push(value);
        Ok(())
    }

    /// An object with one entry, from the variant's name to the array of
    /// its fields.
    pub fn end(self) -> (r: Result<Value, ConnectorError>)
        ensures
            r is Ok,
            r->Ok_0 matches Value::Object(o) && o.wf() && o.entries().len() == 1 && o.entries()[0].0
                == self.name() && is_array_value(o.entries()[0].1, self.elements()),
    {
        let mut object = Object::new();
        let name = self.name;
        object.insert(name, Value::Array(self.vec));
        Ok(Value::Object(object))
    }
}

/// Collects the entries of a map or a struct.
pub enum SerializeMap {
    Entries { map: Object, next_key: Option<String> },
}

impl SerializeMap {
    pub closed spec fn entries(&self) -> Seq<(Seq<char>, Value)> {
        match self {
            SerializeMap::Entries { map, .. } => map.entries(),
        }
    }

    /// The key of the entry whose value comes next, if one was given.
    pub closed spec fn next_key(&self) -> Option<Seq<char>> {
        match self {
            SerializeMap::Entries { next_key, .. } => match next_key {
                Some(k) => Some(k@),
                None => None,
            },
        }
    }

    pub closed spec fn wf(&self) -> bool {
        match self {
            SerializeMap::Entries { map, .. } => map.wf(),
        }
    }

    /// Takes the outcome of serializing a key with `MapKeySerializer`: a
    /// string key waits for its value, an error is handed back.
    pub fn serialize_key(&mut self, key: Result<String, ConnectorError>) -> (r: Result<
        (),
        ConnectorError,
    >)
        requires
            old(self).wf(),
        ensures
            final(self).wf(),
            final(self).entries() == old(self).entries(),
            match key {
                Ok(k) => r is Ok && final(self).next_key() == Some(k@),
                Err(e) => r == Err::<(), ConnectorError>(e) && final(self).next_key() == old(
                    self,
                ).next_key(),
            },
    {
        match key {
            Ok(k) => {
                match self {
                    SerializeMap::Entries { next_key, .. } => {
                        *next_key = Some(k);
                    },
                }
                Ok(())
            },
            Err(e) => Err(e),
        }
    }

    /// Whether a key waits for its value.
    pub fn has_key(&self) -> (r: bool)
        ensures
            r == self.next_key() is Some,
    {
        match self {
            SerializeMap::Entries { next_key, .. } => next_key.is_some(),
        }
    }

    /// Stores `value` under the key given last.
    pub fn serialize_value(&mut self, value: Value) -> (r: Result<(), ConnectorError>)
        requires
            old(self).wf(),
            old(self).next_key() is Some,
        ensures
            r is Ok,
            final(self).wf(),
            final(self).next_key() is None,
            final(self).entries() == entries_insert(
                old(self).entries(),
                old(self).next_key()->Some_0,
                value,
            ),
    {
        match self {
            SerializeMap::Entries { map, next_key } => {
                let key = next_key.take();
                match key {
                    Some(k) => {
                        map.insert(k, value);
                    },
                    None => {},
                }
            },
        }
        Ok(())
    }

    /// Stores `value` under the field name `key`.
    pub fn serialize_field(&mut self, key: &str, value: Value) -> (r: Result<(), ConnectorError>)
        requires
            old(self).wf(),
        ensures
            r is Ok,
            final(self).wf(),
            final(self).next_key() is None,
            final(self).entries() == entries_insert(old(self).entries(), key@, value),
    {
        let k = MapKeySerializer {  }.serialize_str(key);
        let _ = self.serialize_key(k);
        self.serialize_value(value)
    }

    /// The object of the entries.
    pub fn end(self) -> (r: Result<Value, ConnectorError>)
        requires
            self.wf(),
        ensures
            r is Ok && is_object_value(r->Ok_0, self.entries()),
    {
        match self {
            SerializeMap::Entries { map, .. } => Ok(Value::Object(map)),
        }
    }
}

/// Collects the fields of a struct variant.
pub struct SerializeStructVariant {
    name: String,
    map: Object,
}

impl SerializeStructVariant {
    pub closed spec fn name(&self) -> Seq<char> {
        self.name@
    }

    pub closed spec fn entries(&self) -> Seq<(Seq<char>, Value)> {
        self.map.entries()
    }

    pub closed spec fn wf(&self) -> bool {
        self.map.wf()
    }

    pub fn serialize_field(&mut self, key: &str, value: Value) -> (r: Result<(), ConnectorError>)
        requires
            old(self).wf(),
        ensures
            r is Ok,
            final(self).wf(),
            final(self).name() == old(self).name(),
            final(self).entries() == entries_insert(old(self).entries(), key@, value),
    {
        self.map.insert(key.to_owned(), value);
        Ok(())
    }

    /// An object with one entry, from the variant's name to the object of
    /// its fields.
    pub fn end(self) -> (r: Result<Value, ConnectorError>)
        requires
            self.wf(),
        ensures
            r is Ok,
            r->Ok_0 matches Value::Object(o) && o.wf() && o.entries().len() == 1 && o.entries()[0].0
                == self.name() && is_object_value(o.entries()[0].1, self.entries()),
    {
        let mut object = Object::new();
        object.insert(self.name, Value::Object(self.map));
        Ok(Value::Object(object))
    }
}

/// Serializes map keys: only strings, and unit variants by their name, are
/// keys.
pub struct MapKeySerializer {}

impl MapKeySerializer {
    pub fn serialize_str(self, value: &str) -> (r: Result<String, ConnectorError>)
        ensures
            r is Ok && r->Ok_0@ == value@,
    {
        Ok(value.to_owned())
    }

    pub fn serialize_unit_variant(self, name: &str, variant_index: u32, variant: &str) -> (r:
        Result<String, ConnectorError>)
        ensures
            r is Ok && r->Ok_0@ == variant@,
    {
        Ok(variant.to_owned())
    }

    /// A newtype struct key is the key it wraps, given already serialized.
    pub fn serialize_newtype_struct(self, name: &str, value: Result<String, ConnectorError>) -> (r:
        Result<String, ConnectorError>)
        ensures
            r == value,
    {
        value
    }

    pub fn serialize_bool(self, value: bool) -> (r: Result<String, ConnectorError>)
        ensures
            r == Err::<String, ConnectorError>(ConnectorError::KeyMustBeAString),
    {
        Err(key_must_be_a_string())
    }

    pub fn serialize_i64(self, value: i64) -> (r: Result<String, ConnectorError>)
        ensures
            r == Err::<String, ConnectorError>(ConnectorError::KeyMustBeAString),
    {
        Err(key_must_be_a_string())
    }

    pub fn serialize_u64(self, value: u64) -> (r: Result<String, ConnectorError>)
        ensures
            r == Err::<String, ConnectorError>(ConnectorError::KeyMustBeAString),
    {
        Err(key_must_be_a_string())
    }

    pub fn serialize_char(self, value: char) -> (r: Result<String, ConnectorError>)
        ensures
            r == Err::<String, ConnectorError>(ConnectorError::KeyMustBeAString),
    {
        Err(key_must_be_a_string())
    }

    pub fn serialize_bytes(self, value: &[u8]) -> (r: Result<String, ConnectorError>)
        ensures
            r == Err::<String, ConnectorError>(ConnectorError::KeyMustBeAString),
    {
        Err(key_must_be_a_string())
    }

    pub fn serialize_unit(self) -> (r: Result<String, ConnectorError>)
        ensures
            r == Err::<String, ConnectorError>(ConnectorError::KeyMustBeAString),
    {
        Err(key_must_be_a_string())
    }

    pub fn serialize_none(self) -> (r: Result<String, ConnectorError>)
        ensures
            r == Err::<String, ConnectorError>(ConnectorError::KeyMustBeAString),
    {
        Err(key_must_be_a_string())
    }

    pub fn serialize_seq(self, len: Option<usize>) -> (r: Result<String, ConnectorError>)
        ensures
            r == Err::<String, ConnectorError>(ConnectorError::KeyMustBeAString),
    {
        Err(key_must_be_a_string())
    }

    pub fn serialize_map(self, len: Option<usize>) -> (r: Result<String, ConnectorError>)
        ensures
            r == Err::<String, ConnectorError>(ConnectorError::KeyMustBeAString),
    {
        Err(key_must_be_a_string())
    }
}

} // verus!
