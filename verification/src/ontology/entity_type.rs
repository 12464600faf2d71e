use crate::ontology::hierarchy::{is_ancestor, reaches};
use crate::ontology::schema::{find_type, type_position, OntologySchema};
use crate::ontology::value::Number;
use crate::text::clone_opt;
use vstd::prelude::*;
use vstd::std_specs::cmp::PartialEqSpecImpl;

verus! {

/// The shape a property's value is declared to have.
#[derive(Debug)]
pub enum PropertyType {
    String,
    Number,
    Boolean,
    DateTime,
    /// A reference to an entity of the named type.
    Reference(String),
    /// A vector embedding.
    Embedding,
    /// A nested mapping.
    Object,
    /// A sequence of values of one type.
    Array(Box<PropertyType>),
}

impl PropertyType {
    /// Whether two property types are the same type: the same variant, the same target
    /// of a reference, the same element type of an array.
    pub open spec fn alike(&self, other: &PropertyType) -> bool
        decreases *self,
    {
        match (*self, *other) {
            (PropertyType::String, PropertyType::String) => true,
            (PropertyType::Number, PropertyType::Number) => true,
            (PropertyType::Boolean, PropertyType::Boolean) => true,
            (PropertyType::DateTime, PropertyType::DateTime) => true,
            (PropertyType::Reference(a), PropertyType::Reference(b)) => a@ == b@,
            (PropertyType::Embedding, PropertyType::Embedding) => true,
            (PropertyType::Object, PropertyType::Object) => true,
            (PropertyType::Array(a), PropertyType::Array(b)) => a.alike(&*b),
            _ => false,
        }
    }

    /// The type as it is written in messages: the variant's name, with the target of a
    /// reference as it is written for debugging and the element type of an array in
    /// brackets.
    pub open spec fn written(&self) -> Seq<char>
        decreases *self,
    {
        match *self {
            PropertyType::String => "String"@,
            PropertyType::Number => "Number"@,
            PropertyType::Boolean => "Boolean"@,
            PropertyType::DateTime => "DateTime"@,
            PropertyType::Reference(target) => "Reference("@ + crate::runtime::debug_form(target@)
                + ")"@,
            PropertyType::Embedding => "Embedding"@,
            PropertyType::Object => "Object"@,
            PropertyType::Array(inner) => "Array("@ + inner.written() + ")"@,
        }
    }

    pub fn is_alike(&self, other: &PropertyType) -> (same: bool)
        ensures
            same == self.alike(other),
        decreases *self,
    {
        match (self, other) {
            (PropertyType::String, PropertyType::String) => true,
            (PropertyType::Number, PropertyType::Number) => true,
            (PropertyType::Boolean, PropertyType::Boolean) => true,
            (PropertyType::DateTime, PropertyType::DateTime) => true,
            (PropertyType::Reference(a), PropertyType::Reference(b)) => *a == *b,
            (PropertyType::Embedding, PropertyType::Embedding) => true,
            (PropertyType::Object, PropertyType::Object) => true,
            (PropertyType::Array(a), PropertyType::Array(b)) => (**a).is_alike(&**b),
            _ => false,
        }
    }

    /// A reference as it is written in messages, given its target as it is written for
    /// debugging.
    pub fn reference_text(target_written: &str) -> (text: String)
        ensures
            text@ == "Reference("@ + target_written@ + ")"@,
    {
        let mut text = crate::text::owned("Reference(");
        text.append(target_written);
        text.append(")");
        text
    }

    /// The type as it is written in messages.
    pub fn describe(&self) -> (text: String)
        ensures
            text@ == self.written(),
        decreases *self,
    {
        match self {
            PropertyType::String => crate::text::owned("String"),
            PropertyType::Number => crate::text::owned("Number"),
            PropertyType::Boolean => crate::text::owned("Boolean"),
            PropertyType::DateTime => crate::text::owned("DateTime"),
            PropertyType::Reference(target) => {
                let target_text = crate::runtime::debug_text(target.as_str());
                PropertyType::reference_text(target_text.as_str())
            },
            PropertyType::Embedding => crate::text::owned("Embedding"),
            PropertyType::Object => crate::text::owned("Object"),
            PropertyType::Array(inner) => {
                let mut text = crate::text::owned("Array(");
                let element = (**inner).describe();
                text.append(element.as_str());
                text.append(")");
                text
            },
        }
    }
}

impl Clone for PropertyType {
    fn clone(&self) -> (copy: Self)
        ensures
            copy == *self,
        decreases *self,
    {
        match self {
            PropertyType::String => PropertyType::String,
            PropertyType::Number => PropertyType::Number,
            PropertyType::Boolean => PropertyType::Boolean,
            PropertyType::DateTime => PropertyType::DateTime,
            PropertyType::Reference(target) => PropertyType::Reference(target.clone()),
            PropertyType::Embedding => PropertyType::Embedding,
            PropertyType::Object => PropertyType::Object,
            PropertyType::Array(inner) => {
                let element: PropertyType = (**inner).clone();
                PropertyType::Array(Box::new(element))
            },
        }
    }
}

impl PartialEq for PropertyType {
    fn eq(&self, other: &Self) -> (same: bool) {
        self.is_alike(other)
    }
}

impl PartialEqSpecImpl for PropertyType {
    open spec fn obeys_eq_spec() -> bool {
        true
    }

    open spec fn eq_spec(&self, other: &Self) -> bool {
        self.alike(other)
    }
}

/// How many values a property may hold.
#[derive(Debug, Clone, Copy, PartialEq, Eq, Structural)]
pub enum Cardinality {
    /// Exactly one value.
    One,
    /// At most one value.
    ZeroOrOne,
    /// Any number of values.
    Many,
    /// At least one value.
    OneOrMore,
}

impl Cardinality {
    /// Whether a number of values is within the cardinality.
    pub open spec fn admits(&self, count: nat) -> bool {
        match *self {
            Cardinality::One => count == 1,
            Cardinality::ZeroOrOne => count <= 1,
            Cardinality::Many => true,
            Cardinality::OneOrMore => count >= 1,
        }
    }

    /// Whether the cardinality asks for at least one value.
    pub open spec fn demands_value(&self) -> bool {
        *self == Cardinality::One || *self == Cardinality::OneOrMore
    }

    /// The cardinality's name.
    pub open spec fn written(&self) -> Seq<char> {
        match *self {
            Cardinality::One => "One"@,
            Cardinality::ZeroOrOne => "ZeroOrOne"@,
            Cardinality::Many => "Many"@,
            Cardinality::OneOrMore => "OneOrMore"@,
        }
    }

    pub fn allows(&self, count: usize) -> (ok: bool)
        ensures
            ok == self.admits(count as nat),
    {
        match self {
            Cardinality::One => count == 1,
            Cardinality::ZeroOrOne => count <= 1,
            Cardinality::Many => true,
            Cardinality::OneOrMore => count >= 1,
        }
    }

    pub fn needs_value(&self) -> (needed: bool)
        ensures
            needed == self.demands_value(),
    {
        match self {
            Cardinality::One => true,
            Cardinality::OneOrMore => true,
            _ => false,
        }
    }

    /// The cardinality's name.
    pub fn name(&self) -> (text: &'static str)
        ensures
            text@ == self.written(),
    {
        match self {
            Cardinality::One => "One",
            Cardinality::ZeroOrOne => "ZeroOrOne",
            Cardinality::Many => "Many",
            Cardinality::OneOrMore => "OneOrMore",
        }
    }
}

/// A rule on the values of an entity's properties.
#[derive(Debug, Clone)]
#[allow(inconsistent_fields)]
pub enum Constraint {
    /// Each number lies between `min` and `max`.
    ValueRange { min: Number, max: Number },
    /// Each text matches the pattern. Kept with the type; not enforced.
    Pattern(String),
    /// Each text is one of the listed.
    Enum(Vec<String>),
    /// The byte length of each text lies within the given bounds.
    StringLength { min: Option<usize>, max: Option<usize> },
    /// A rule known by its tag only. Kept with the type; not enforced.
    Custom(String),
}

/// The declaration of one property of an entity type.
#[derive(Debug)]
pub struct PropertyDefinition {
    pub name: String,
    pub property_type: PropertyType,
    pub required: bool,
    pub cardinality: Cardinality,
    pub description: Option<String>,
}

impl Clone for PropertyDefinition {
    fn clone(&self) -> (copy: Self)
        ensures
            copy == *self,
    {
        PropertyDefinition {
            name: self.name.clone(),
            property_type: self.property_type.clone(),
            required: self.required,
            cardinality: self.cardinality,
            description: clone_opt(&self.description),
        }
    }
}

impl PropertyDefinition {
    /// Whether an entity must hold a value for the property: it is marked required, or
    /// its cardinality asks for at least one value.
    pub open spec fn demands_presence(&self) -> bool {
        self.required || self.cardinality.demands_value()
    }

    /// An optional property of the given name and type.
    pub fn new(name: String, property_type: PropertyType) -> (def: Self)
        ensures
            def == (PropertyDefinition {
                name,
                property_type,
                required: false,
                cardinality: Cardinality::ZeroOrOne,
                description: None,
            }),
    {
        PropertyDefinition {
            name,
            property_type,
            required: false,
            cardinality: Cardinality::ZeroOrOne,
            description: None,
        }
    }

    /// The same property, required and holding exactly one value.
    pub fn required(self) -> (def: Self)
        ensures
            def == (PropertyDefinition { required: true, cardinality: Cardinality::One, ..self }),
    {
        PropertyDefinition { required: true, cardinality: Cardinality::One, ..self }
    }

    /// The same property with another cardinality.
    pub fn with_cardinality(self, cardinality: Cardinality) -> (def: Self)
        ensures
            def == (PropertyDefinition { cardinality, ..self }),
    {
        PropertyDefinition { cardinality, ..self }
    }

    /// The same property with a description.
    pub fn with_description(self, description: String) -> (def: Self)
        ensures
            def == (PropertyDefinition { description: Some(description), ..self }),
    {
        PropertyDefinition { description: Some(description), ..self }
    }

    pub fn must_be_present(&self) -> (needed: bool)
        ensures
            needed == self.demands_presence(),
    {
        self.required || self.cardinality.needs_value()
    }
}

/// A class of the ontology.
#[derive(Debug, Clone)]
pub struct EntityType {
    /// The type's identifier, by which other types and relations name it.
    pub id: String,
    pub label: String,
    /// The one type this type inherits from, if any.
    pub parent: Option<String>,
    pub properties: Vec<PropertyDefinition>,
    pub constraints: Vec<Constraint>,
    /// Free-form data kept with the type, as JSON text.
    pub metadata: String,
}

/// The characters of an optional string.
pub open spec fn opt_view(value: Option<String>) -> Option<Seq<char>> {
    match value {
        Some(s) => Some(s@),
        None => None,
    }
}

impl EntityType {
    /// A type without parent, properties or constraints.
    pub fn new(id: String, label: String) -> (entity_type: Self)
        ensures
            entity_type.id == id,
            entity_type.label == label,
            entity_type.parent is None,
            entity_type.properties@ == Seq::<PropertyDefinition>::empty(),
            entity_type.constraints@ == Seq::<Constraint>::empty(),
            entity_type.metadata@ == "null"@,
    {
        EntityType {
            id,
            label,
            parent: None,
            properties: Vec::new(),
            constraints: Vec::new(),
            metadata: crate::text::owned("null"),
        }
    }

    /// The same type, inheriting from `parent`.
    pub fn with_parent(self, parent: String) -> (entity_type: Self)
        ensures
            entity_type == (EntityType { parent: Some(parent), ..self }),
    {
        EntityType { parent: Some(parent), ..self }
    }

    /// The same type with one more property, after those it has.
    pub fn with_property(self, property: PropertyDefinition) -> (entity_type: Self)
        ensures
            entity_type.properties@ == self.properties@.push(property),
            entity_type.id == self.id,
            entity_type.label == self.label,
            entity_type.parent == self.parent,
            entity_type.constraints == self.constraints,
            entity_type.metadata == self.metadata,
    {
        let mut entity_type = self;
        entity_type.properties.push(property);
        entity_type
    }

    /// The same type with one more constraint, after those it has.
    pub fn with_constraint(self, constraint: Constraint) -> (entity_type: Self)
        ensures
            entity_type.constraints@ == self.constraints@.push(constraint),
            entity_type.id == self.id,
            entity_type.label == self.label,
            entity_type.parent == self.parent,
            entity_type.properties == self.properties,
            entity_type.metadata == self.metadata,
    {
        let mut entity_type = self;
        entity_type.constraints.push(constraint);
        entity_type
    }
}

/// The properties declared along the chain of parents that starts at `id`, nearest type
/// first, for at most `fuel` types.
pub open spec fn chain_properties(
    types: Seq<EntityType>,
    id: Option<Seq<char>>,
    fuel: nat,
) -> Seq<PropertyDefinition>
    decreases fuel,
{
    if fuel == 0 || id is None {
        Seq::empty()
    } else {
        match find_type(types, id->0) {
            Some(t) => t.properties@ + chain_properties(types, opt_view(t.parent), (fuel - 1) as nat),
            None => Seq::empty(),
        }
    }
}

impl EntityType {
    /// Whether the type is `other` or has it above itself in a list of types.
    pub open spec fn subtype_of(&self, other: Seq<char>, types: Seq<EntityType>) -> bool {
        self.id@ == other || (self.parent is Some && is_ancestor(types, self.parent->0@, other))
    }

    /// The type's own properties, then those of its parent, and so on up the chain of
    /// parents through as many types as the list has.
    pub open spec fn all_properties(&self, types: Seq<EntityType>) -> Seq<PropertyDefinition> {
        self.properties@ + chain_properties(types, opt_view(self.parent), types.len())
    }

    /// The type's properties with those it inherits, its own first.
    pub fn get_all_properties(&self, schema: &OntologySchema) -> (properties: Vec<
        PropertyDefinition,
    >)
        ensures
            properties@ == self.all_properties(schema.entity_types@),
    {
        let types = &schema.entity_types;
        let mut properties: Vec<PropertyDefinition> = Vec::new();
        append_definitions(&mut properties, &self.properties);
        let mut next: Option<&String> = self.parent.as_ref();
        let mut fuel: usize = types.len();
        while fuel > 0 && next.is_some()
            invariant
                fuel <= types.len(),
                self.all_properties(types@) == properties@ + chain_properties(
                    types@,
                    match next {
                        Some(p) => Some(p@),
                        None => None,
                    },
                    fuel as nat,
                ),
            decreases fuel,
        {
            let id: &String = next.unwrap();
            match type_position(types, id.as_str()) {
                Some(i) => {
                    let ghost before = properties@;
                    append_definitions(&mut properties, &types[i].properties);
                    next = types[i].parent.as_ref();
                    fuel -= 1;
                    assert(properties@ + chain_properties(
                        types@,
                        opt_view(types@[i as int].parent),
                        fuel as nat,
                    ) =~= before + (types@[i as int].properties@ + chain_properties(
                        types@,
                        opt_view(types@[i as int].parent),
                        fuel as nat,
                    )));
                },
                None => {
                    next = None;
                    fuel = 0;
                },
            }
        }
        assert(properties@ + Seq::<PropertyDefinition>::empty() =~= properties@);
        properties
    }

    /// Whether the type is `other_id` or inherits from it, directly or through the
    /// types of the schema.
    pub fn is_subtype_of(&self, other_id: &str, schema: &OntologySchema) -> (yes: bool)
        ensures
            yes == self.subtype_of(other_id@, schema.entity_types@),
    {
        if crate::text::str_eq(self.id.as_str(), other_id) {
            return true;
        }
        match &self.parent {
            Some(p) => reaches(&schema.entity_types, p.as_str(), other_id),
            None => false,
        }
    }
}

/// Appends copies of the definitions of `from` to `to`.
pub fn append_definitions(to: &mut Vec<PropertyDefinition>, from: &Vec<PropertyDefinition>)
    ensures
        final(to)@ == old(to)@ + from@,
{
    let mut i: usize = 0;
    while i < from.len()
        invariant
            i <= from.len(),
            to@ == old(to)@ + from@.take(i as int),
        decreases from.len() - i,
    {
        to.push(from[i].clone());
        assert(from@.take(i + 1) == from@.take(i as int).push(from@[i as int]));
        i += 1;
    }
    assert(from@.take(from.len() as int) == from@);
}

} // verus!
