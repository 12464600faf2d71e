use vstd::prelude::*;

verus! {

/// A number as it stands in a property or a constraint.
///
/// The library never computes with the number: it compares it and shows it. `ordinal` is
/// the number's place among all numbers (a smaller number has a smaller ordinal, equal
/// numbers have the same one) and is absent for a value that is not a number and so
/// compares with nothing. `text` is the number as it is written out.
#[derive(Debug)]
pub struct Number {
    pub ordinal: Option<i64>,
    pub text: String,
}

impl Number {
    /// Whether `self` is strictly below `other`; false when either has no place.
    pub open spec fn below(&self, other: &Number) -> bool {
        &&& self.ordinal is Some
        &&& other.ordinal is Some
        &&& self.ordinal->0 < other.ordinal->0
    }

    /// Whether `self` lies outside the closed range from `min` to `max`.
    pub open spec fn outside(&self, min: &Number, max: &Number) -> bool {
        self.below(min) || max.below(self)
    }

    pub fn is_below(&self, other: &Number) -> (less: bool)
        ensures
            less == self.below(other),
    {
        match (self.ordinal, other.ordinal) {
            (Some(a), Some(b)) => a < b,
            _ => false,
        }
    }

    pub fn is_outside(&self, min: &Number, max: &Number) -> (out: bool)
        ensures
            out == self.outside(min, max),
    {
        self.is_below(min) || max.is_below(self)
    }
}

impl Clone for Number {
    fn clone(&self) -> (copy: Self)
        ensures
            copy == *self,
    {
        Number { ordinal: self.ordinal, text: self.text.clone() }
    }
}

/// A dynamic value of a property, as far as the library reads it.
///
/// A scalar is held whole. Of a sequence the library reads the length, of a mapping
/// nothing; both keep their source text so that they can be stored as they came.
#[derive(Debug)]
pub enum PropertyValue {
    Null,
    Bool(bool),
    Number(Number),
    String(String),
    Array { len: usize, json: String },
    Object { json: String },
}

impl Clone for PropertyValue {
    fn clone(&self) -> (copy: Self)
        ensures
            copy == *self,
    {
        match self {
            PropertyValue::Null => PropertyValue::Null,
            PropertyValue::Bool(b) => PropertyValue::Bool(*b),
            PropertyValue::Number(n) => PropertyValue::Number(n.clone()),
            PropertyValue::String(s) => PropertyValue::String(s.clone()),
            PropertyValue::Array { len, json } => PropertyValue::Array {
                len: *len,
                json: json.clone(),
            },
            PropertyValue::Object { json } => PropertyValue::Object { json: json.clone() },
        }
    }
}

/// The name of a value's shape.
pub open spec fn shape_name(value: PropertyValue) -> Seq<char> {
    match value {
        PropertyValue::String(_) => "String"@,
        PropertyValue::Number(_) => "Number"@,
        PropertyValue::Bool(_) => "Boolean"@,
        PropertyValue::Array { .. } => "Array"@,
        PropertyValue::Object { .. } => "Object"@,
        PropertyValue::Null => "Null"@,
    }
}

/// How many values a property value counts for: a sequence for its length, anything else
/// for one.
pub open spec fn value_count(value: PropertyValue) -> nat {
    match value {
        PropertyValue::Array { len, .. } => len as nat,
        _ => 1,
    }
}

impl PropertyValue {
    /// The name of the value's shape.
    pub fn shape(&self) -> (name: &'static str)
        ensures
            name@ == shape_name(*self),
    {
        match self {
            PropertyValue::String(_) => "String",
            PropertyValue::Number(_) => "Number",
            PropertyValue::Bool(_) => "Boolean",
            PropertyValue::Array { .. } => "Array",
            PropertyValue::Object { .. } => "Object",
            PropertyValue::Null => "Null",
        }
    }

    /// How many values the value counts for.
    pub fn count(&self) -> (n: usize)
        ensures
            n == value_count(*self),
    {
        match self {
            PropertyValue::Array { len, .. } => *len,
            _ => 1,
        }
    }
}

/// A named value of an entity.
#[derive(Debug)]
pub struct Property {
    pub name: String,
    pub value: PropertyValue,
}

impl Clone for Property {
    fn clone(&self) -> (copy: Self)
        ensures
            copy == *self,
    {
        Property { name: self.name.clone(), value: self.value.clone() }
    }
}

/// The names of a list of properties.
pub open spec fn property_names(properties: Seq<Property>) -> Seq<Seq<char>> {
    properties.map_values(|p: Property| p.name@)
}

/// Whether a list of properties holds one of the given name.
pub fn has_property(properties: &Vec<Property>, name: &str) -> (found: bool)
    ensures
        found == property_names(properties@).contains(name@),
{
    let mut i: usize = 0;
    while i < properties.len()
        invariant
            i <= properties.len(),
            forall|j: int| 0 <= j < i ==> property_names(properties@)[j] != name@,
        decreases properties.len() - i,
    {
        if crate::text::str_eq(properties[i].name.as_str(), name) {
            assert(property_names(properties@)[i as int] == name@);
            return true;
        }
        i += 1;
    }
    false
}

/// A copy of a list of properties.
pub fn clone_properties(properties: &Vec<Property>) -> (copy: Vec<Property>)
    ensures
        copy@ == properties@,
{
    let mut copy: Vec<Property> = Vec::new();
    let mut i: usize = 0;
    while i < properties.len()
        invariant
            i <= properties.len(),
            copy@ == properties@.take(i as int),
        decreases properties.len() - i,
    {
        copy.push(properties[i].clone());
        assert(properties@.take(i + 1) == properties@.take(i as int).push(properties@[i as int]));
        i += 1;
    }
    assert(properties@.take(properties.len() as int) == properties@);
    copy
}

} // verus!
