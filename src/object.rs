//! Dynamically typed AML values, shared by reference.
use vstd::prelude::*;
use std::sync::Arc;

verus! {

/// The value an AML object holds, by type.
pub enum ObjectValue {
    Uninitialized,
    Integer(u64),
    /// The bytes of the text, without the terminating NUL.
    String(Vec<u8>),
    Buffer(Vec<u8>),
    Package(Vec<Object>),
}

/// The engine's type tags of the object types this library reads.
#[derive(Clone, Copy, Debug, PartialEq, Eq, Structural)]
pub enum ObjectType {
    Uninitialized,
    Integer,
    String,
    Buffer,
    Package,
}

impl ObjectType {
    /// The engine's numeric tag of this type.
    pub open spec fn spec_code(self) -> u8 {
        match self {
            ObjectType::Uninitialized => 0,
            ObjectType::Integer => 1,
            ObjectType::String => 2,
            ObjectType::Buffer => 3,
            ObjectType::Package => 4,
        }
    }

    pub fn code(self) -> (r: u8)
        ensures
            r == self.spec_code(),
    {
        match self {
            ObjectType::Uninitialized => 0,
            ObjectType::Integer => 1,
            ObjectType::String => 2,
            ObjectType::Buffer => 3,
            ObjectType::Package => 4,
        }
    }

    /// The type with the given tag, or `None` for a tag of a type this library does not read.
    pub fn from_code(code: u8) -> (r: Option<ObjectType>)
        ensures
            r matches Some(t) ==> t.spec_code() == code,
            r.is_none() <==> code >= 5,
    {
        match code {
            0 => Some(ObjectType::Uninitialized),
            1 => Some(ObjectType::Integer),
            2 => Some(ObjectType::String),
            3 => Some(ObjectType::Buffer),
            4 => Some(ObjectType::Package),
            _ => None,
        }
    }
}

/// The type of a value.
pub open spec fn type_of(v: ObjectValue) -> ObjectType {
    match v {
        ObjectValue::Uninitialized => ObjectType::Uninitialized,
        ObjectValue::Integer(_) => ObjectType::Integer,
        ObjectValue::String(_) => ObjectType::String,
        ObjectValue::Buffer(_) => ObjectType::Buffer,
        ObjectValue::Package(_) => ObjectType::Package,
    }
}

/// A shared reference to a dynamically typed AML value. Cloning takes one more reference
/// to the same value; the value goes away with its last reference. Packages share their
/// elements this way.
#[derive(Clone)]
pub struct Object {
    value: Arc<ObjectValue>,
}

impl Object {
    /// The value this object refers to.
    pub closed spec fn value(&self) -> ObjectValue {
        *self.value
    }

    fn from_value(value: ObjectValue) -> (r: Object)
        ensures
            r.value() == value,
    {
        Object { value: Arc::new(value) }
    }

    /// A new integer object.
    pub fn new_int(value: u64) -> (r: Option<Object>)
        ensures
            r matches Some(o) && o.value() == ObjectValue::Integer(value),
    {
        Some(Object::from_value(ObjectValue::Integer(value)))
    }

    /// A new buffer object holding the given bytes.
    pub fn new_buffer(bytes: Vec<u8>) -> (r: Object)
        ensures
            r.value() == ObjectValue::Buffer(bytes),
    {
        Object::from_value(ObjectValue::Buffer(bytes))
    }

    /// A new string object with the given text bytes, without a terminating NUL.
    pub fn new_string(text: Vec<u8>) -> (r: Object)
        ensures
            r.value() == ObjectValue::String(text),
    {
        Object::from_value(ObjectValue::String(text))
    }

    /// A new package holding references to the given objects, in order.
    pub fn new_package(elements: Vec<Object>) -> (r: Object)
        ensures
            r.value() == ObjectValue::Package(elements),
    {
        Object::from_value(ObjectValue::Package(elements))
    }

    /// A new object that holds no value yet.
    pub fn new_uninitialized() -> (r: Object)
        ensures
            r.value() == ObjectValue::Uninitialized,
    {
        Object::from_value(ObjectValue::Uninitialized)
    }

    /// The type of the value this object refers to.
    pub fn object_type(&self) -> (r: ObjectType)
        ensures
            r == type_of(self.value()),
    {
        match &*self.value {
            ObjectValue::Uninitialized => ObjectType::Uninitialized,
            ObjectValue::Integer(_) => ObjectType::Integer,
            ObjectValue::String(_) => ObjectType::String,
            ObjectValue::Buffer(_) => ObjectType::Buffer,
            ObjectValue::Package(_) => ObjectType::Package,
        }
    }

    /// The integer this object holds; `None` if it is not an integer.
    pub fn get_int(&self) -> (r: Option<u64>)
        ensures
            match self.value() {
                ObjectValue::Integer(v) => r == Some(v),
                _ => r.is_none(),
            },
    {
        match &*self.value {
            ObjectValue::Integer(v) => Some(*v),
            _ => None,
        }
    }

    /// The bytes of this object; `None` if it is not a buffer.
    pub fn get_buffer(&self) -> (r: Option<&[u8]>)
        ensures
            match self.value() {
                ObjectValue::Buffer(b) => r matches Some(s) && s@ == b@,
                _ => r.is_none(),
            },
    {
        match &*self.value {
            ObjectValue::Buffer(b) => Some(b.as_slice()),
            _ => None,
        }
    }

    /// The text bytes of this object, as the engine holds them, without the terminating
    /// NUL; `None` if it is not a string.
    pub fn get_string(&self) -> (r: Option<&[u8]>)
        ensures
            match self.value() {
                ObjectValue::String(t) => r matches Some(s) && s@ == t@,
                _ => r.is_none(),
            },
    {
        match &*self.value {
            ObjectValue::String(t) => Some(t.as_slice()),
            _ => None,
        }
    }

    /// The elements of this object, in order; `None` if it is not a package. The elements
    /// are borrowed from the package, not new references.
    pub fn get_package(&self) -> (r: Option<&[Object]>)
        ensures
            match self.value() {
                ObjectValue::Package(p) => r matches Some(s) && s@ == p@,
                _ => r.is_none(),
            },
    {
        match &*self.value {
            ObjectValue::Package(p) => Some(p.as_slice()),
            _ => None,
        }
    }
}

} // verus!
