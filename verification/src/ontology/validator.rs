use crate::ontology::entity_type::{Cardinality, Constraint, PropertyDefinition, PropertyType};
use crate::ontology::schema::{find_relation, find_type, OntologySchema};
use crate::ontology::value::{property_names, has_property, shape_name, value_count, Property, PropertyValue};
use crate::text::{decimal, decimal_text, first_position, joined, key_position, owned, str_eq, views};
use vstd::prelude::*;
use vstd::utf8::encode_utf8;

verus! {

/// What an entity or a relation fails the schema by.
#[derive(Debug, Clone)]
pub enum ValidationError {
    /// The entity type is not in the schema.
    UnknownEntityType(String),
    /// The relation type is not in the schema.
    UnknownRelationType(String),
    /// A property that the type asks for has no value.
    MissingRequiredProperty { entity_type: String, property: String },
    /// A value has another shape than its property is declared with.
    PropertyTypeMismatch { property: String, expected: String, found: String },
    /// A property holds more or fewer values than its cardinality admits.
    CardinalityViolation { property: String, expected: String, found: usize },
    /// A value breaks a constraint of the type.
    ConstraintViolation { property: String, constraint: String, value: String },
    /// The relation cannot run between entities of the two types.
    InvalidRelation { relation: String, source_type: String, target_type: String, reason: String },
}

/// A validation error by the characters it holds.
pub enum ValidationErrorView {
    UnknownEntityType(Seq<char>),
    UnknownRelationType(Seq<char>),
    MissingRequiredProperty { entity_type: Seq<char>, property: Seq<char> },
    PropertyTypeMismatch { property: Seq<char>, expected: Seq<char>, found: Seq<char> },
    CardinalityViolation { property: Seq<char>, expected: Seq<char>, found: nat },
    ConstraintViolation { property: Seq<char>, constraint: Seq<char>, value: Seq<char> },
    InvalidRelation {
        relation: Seq<char>,
        source_type: Seq<char>,
        target_type: Seq<char>,
        reason: Seq<char>,
    },
}

impl View for ValidationError {
    type V = ValidationErrorView;

    open spec fn view(&self) -> ValidationErrorView {
        match *self {
            ValidationError::UnknownEntityType(t) => ValidationErrorView::UnknownEntityType(t@),
            ValidationError::UnknownRelationType(t) => ValidationErrorView::UnknownRelationType(
                t@,
            ),
            ValidationError::MissingRequiredProperty { entity_type, property } => {
                ValidationErrorView::MissingRequiredProperty {
                    entity_type: entity_type@,
                    property: property@,
                }
            },
            ValidationError::PropertyTypeMismatch { property, expected, found } => {
                ValidationErrorView::PropertyTypeMismatch {
                    property: property@,
                    expected: expected@,
                    found: found@,
                }
            },
            ValidationError::CardinalityViolation { property, expected, found } => {
                ValidationErrorView::CardinalityViolation {
                    property: property@,
                    expected: expected@,
                    found: found as nat,
                }
            },
            ValidationError::ConstraintViolation { property, constraint, value } => {
                ValidationErrorView::ConstraintViolation {
                    property: property@,
                    constraint: constraint@,
                    value: value@,
                }
            },
            ValidationError::InvalidRelation { relation, source_type, target_type, reason } => {
                ValidationErrorView::InvalidRelation {
                    relation: relation@,
                    source_type: source_type@,
                    target_type: target_type@,
                    reason: reason@,
                }
            },
        }
    }
}

impl ValidationErrorView {
    /// The error in words.
    pub open spec fn text(&self) -> Seq<char> {
        match *self {
            ValidationErrorView::UnknownEntityType(t) => "Unknown entity type: "@ + t,
            ValidationErrorView::UnknownRelationType(t) => "Unknown relation type: "@ + t,
            ValidationErrorView::MissingRequiredProperty { entity_type, property } => {
                "Missing required property '"@ + property + "' for entity type '"@ + entity_type
                    + "'"@
            },
            ValidationErrorView::PropertyTypeMismatch { property, expected, found } => {
                "Property '"@ + property + "': expected type '"@ + expected + "', found '"@
                    + found + "'"@
            },
            ValidationErrorView::CardinalityViolation { property, expected, found } => {
                "Property '"@ + property + "': expected "@ + expected + ", found "@ + decimal(
                    found,
                ) + " values"@
            },
            ValidationErrorView::ConstraintViolation { property, constraint, value } => {
                "Property '"@ + property + "': constraint '"@ + constraint
                    + "' violated by value '"@ + value + "'"@
            },
            ValidationErrorView::InvalidRelation { relation, source_type, target_type, reason } => {
                "Invalid relation '"@ + relation + "' from '"@ + source_type + "' to '"@
                    + target_type + "': "@ + reason
            },
        }
    }

    /// The name of the error's kind.
    pub open spec fn kind(&self) -> Seq<char> {
        match *self {
            ValidationErrorView::UnknownEntityType(_) => "UnknownEntityType"@,
            ValidationErrorView::UnknownRelationType(_) => "UnknownRelationType"@,
            ValidationErrorView::MissingRequiredProperty { .. } => "MissingRequiredProperty"@,
            ValidationErrorView::PropertyTypeMismatch { .. } => "PropertyTypeMismatch"@,
            ValidationErrorView::CardinalityViolation { .. } => "CardinalityViolation"@,
            ValidationErrorView::ConstraintViolation { .. } => "ConstraintViolation"@,
            ValidationErrorView::InvalidRelation { .. } => "InvalidRelation"@,
        }
    }
}

impl ValidationError {
    /// The error in words.
    pub fn message(&self) -> (text: String)
        ensures
            text@ == self@.text(),
    {
        match self {
            ValidationError::UnknownEntityType(t) => crate::text::concat2(
                "Unknown entity type: ",
                t.as_str(),
            ),
            ValidationError::UnknownRelationType(t) => crate::text::concat2(
                "Unknown relation type: ",
                t.as_str(),
            ),
            ValidationError::MissingRequiredProperty { entity_type, property } => {
                let mut text = owned("Missing required property '");
                text.append(property.as_str());
                text.append("' for entity type '");
                text.append(entity_type.as_str());
                text.append("'");
                text
            },
            ValidationError::PropertyTypeMismatch { property, expected, found } => {
                let mut text = owned("Property '");
                text.append(property.as_str());
                text.append("': expected type '");
                text.append(expected.as_str());
                text.append("', found '");
                text.append(found.as_str());
                text.append("'");
                text
            },
            ValidationError::CardinalityViolation { property, expected, found } => {
                let count = decimal_text(*found as u64);
                let mut text = owned("Property '");
                text.append(property.as_str());
                text.append("': expected ");
                text.append(expected.as_str());
                text.append(", found ");
                text.append(count.as_str());
                text.append(" values");
                text
            },
            ValidationError::ConstraintViolation { property, constraint, value } => {
                let mut text = owned("Property '");
                text.append(property.as_str());
                text.append("': constraint '");
                text.append(constraint.as_str());
                text.append("' violated by value '");
                text.append(value.as_str());
                text.append("'");
                text
            },
            ValidationError::InvalidRelation { relation, source_type, target_type, reason } => {
                let mut text = owned("Invalid relation '");
                text.append(relation.as_str());
                text.append("' from '");
                text.append(source_type.as_str());
                text.append("' to '");
                text.append(target_type.as_str());
                text.append("': ");
                text.append(reason.as_str());
                text
            },
        }
    }

    /// The name of the error's kind.
    pub fn kind_name(&self) -> (name: &'static str)
        ensures
            name@ == self@.kind(),
    {
        match self {
            ValidationError::UnknownEntityType(_) => "UnknownEntityType",
            ValidationError::UnknownRelationType(_) => "UnknownRelationType",
            ValidationError::MissingRequiredProperty { .. } => "MissingRequiredProperty",
            ValidationError::PropertyTypeMismatch { .. } => "PropertyTypeMismatch",
            ValidationError::CardinalityViolation { .. } => "CardinalityViolation",
            ValidationError::ConstraintViolation { .. } => "ConstraintViolation",
            ValidationError::InvalidRelation { .. } => "InvalidRelation",
        }
    }
}

/// The views of a list of errors.
pub open spec fn error_views(errors: Seq<ValidationError>) -> Seq<ValidationErrorView> {
    errors.map_values(|e: ValidationError| e@)
}

/// Whether a value has the shape that a property type asks for. A date, like a
/// reference, is a text; an embedding, like an array, is a sequence.
pub open spec fn shape_fits(expected: PropertyType, value: PropertyValue) -> bool {
    match expected {
        PropertyType::String => value is String,
        PropertyType::Number => value is Number,
        PropertyType::Boolean => value is Bool,
        PropertyType::DateTime => value is String,
        PropertyType::Reference(_) => value is String,
        PropertyType::Embedding => value is Array,
        PropertyType::Object => value is Object,
        PropertyType::Array(_) => value is Array,
    }
}

/// The error of a value that has not the shape its property is declared with.
pub open spec fn type_mismatch(
    name: Seq<char>,
    value: PropertyValue,
    expected: PropertyType,
) -> Option<ValidationErrorView> {
    if shape_fits(expected, value) {
        None
    } else {
        Some(
            ValidationErrorView::PropertyTypeMismatch {
                property: name,
                expected: expected.written(),
                found: shape_name(value),
            },
        )
    }
}

/// The error of a value that counts for more or fewer values than the cardinality
/// admits.
pub open spec fn cardinality_fault(
    name: Seq<char>,
    value: PropertyValue,
    cardinality: Cardinality,
) -> Option<ValidationErrorView> {
    if cardinality.admits(value_count(value)) {
        None
    } else {
        Some(
            ValidationErrorView::CardinalityViolation {
                property: name,
                expected: cardinality.written(),
                found: value_count(value),
            },
        )
    }
}

/// The names of a list of property definitions.
pub open spec fn definition_names(defs: Seq<PropertyDefinition>) -> Seq<Seq<char>> {
    defs.map_values(|d: PropertyDefinition| d.name@)
}

/// An optional error as a list of none or one.
pub open spec fn listed(fault: Option<ValidationErrorView>) -> Seq<ValidationErrorView> {
    match fault {
        Some(e) => seq![e],
        None => Seq::empty(),
    }
}

/// The errors of one provided property against the first definition of its name: the
/// error of its shape, then that of its cardinality. A property that no definition
/// names has none.
pub open spec fn property_faults(defs: Seq<PropertyDefinition>, p: Property) -> Seq<
    ValidationErrorView,
> {
    match first_position(definition_names(defs), p.name@) {
        Some(i) => listed(type_mismatch(p.name@, p.value, defs[i].property_type)) + listed(
            cardinality_fault(p.name@, p.value, defs[i].cardinality),
        ),
        None => Seq::empty(),
    }
}

/// The errors of the provided properties, property by property in their order.
pub open spec fn provided_faults(defs: Seq<PropertyDefinition>, props: Seq<Property>) -> Seq<
    ValidationErrorView,
>
    decreases props.len(),
{
    if props.len() == 0 {
        Seq::empty()
    } else {
        provided_faults(defs, props.drop_last()) + property_faults(defs, props.last())
    }
}

/// Whether a definition asks for a value that the properties do not hold.
pub open spec fn is_missing(d: PropertyDefinition, props: Seq<Property>) -> bool {
    d.demands_presence() && !property_names(props).contains(d.name@)
}

/// One error for each definition that asks for a value that is not there, in the
/// definitions' order.
pub open spec fn missing_faults(
    type_id: Seq<char>,
    defs: Seq<PropertyDefinition>,
    props: Seq<Property>,
) -> Seq<ValidationErrorView>
    decreases defs.len(),
{
    if defs.len() == 0 {
        Seq::empty()
    } else if is_missing(defs.last(), props) {
        missing_faults(type_id, defs.drop_last(), props).push(
            ValidationErrorView::MissingRequiredProperty {
                entity_type: type_id,
                property: defs.last().name@,
            },
        )
    } else {
        missing_faults(type_id, defs.drop_last(), props)
    }
}

/// Each text of a list as it is written for debugging: between double quotes, with
/// what cannot stand between them escaped.
pub open spec fn quoted(list: Seq<Seq<char>>) -> Seq<Seq<char>> {
    list.map_values(|s: Seq<char>| crate::runtime::debug_form(s))
}

/// A constraint as it is written in messages, where it is one the library enforces and
/// is broken by the given side (`low` for a bound from below).
pub open spec fn constraint_text(c: Constraint, low: bool) -> Seq<char> {
    match c {
        Constraint::ValueRange { min, max } => "ValueRange("@ + min.text@ + ", "@ + max.text@
            + ")"@,
        Constraint::Enum(allowed) => "Enum(["@ + joined(quoted(views(allowed@)), ", "@) + "])"@,
        Constraint::StringLength { min, max } => if low {
            "StringLength(min: "@ + decimal(min->0 as nat) + ")"@
        } else {
            "StringLength(max: "@ + decimal(max->0 as nat) + ")"@
        },
        Constraint::Pattern(pattern) => "Pattern("@ + pattern@ + ")"@,
        Constraint::Custom(tag) => "Custom("@ + tag@ + ")"@,
    }
}

/// Whether a text is shorter, in bytes, than a length constraint admits.
pub open spec fn too_short(c: Constraint, s: Seq<char>) -> bool {
    c matches Constraint::StringLength { min: Some(least), .. } && encode_utf8(s).len() < least
}

/// Whether a text is longer, in bytes, than a length constraint admits.
pub open spec fn too_long(c: Constraint, s: Seq<char>) -> bool {
    c matches Constraint::StringLength { max: Some(most), .. } && encode_utf8(s).len() > most
}

/// Whether a value breaks a constraint. A range is broken by a number outside it, a
/// list of admitted texts by a text that is not on it, a length by a text whose byte
/// length is out of bounds. A pattern and a custom rule are broken by nothing.
pub open spec fn violates(c: Constraint, value: PropertyValue) -> bool {
    match c {
        Constraint::ValueRange { min, max } => value matches PropertyValue::Number(n)
            && n.outside(&min, &max),
        Constraint::Enum(allowed) => value matches PropertyValue::String(s) && !views(
            allowed@,
        ).contains(s@),
        Constraint::StringLength { .. } => value matches PropertyValue::String(s) && (too_short(
            c,
            s@,
        ) || too_long(c, s@)),
        Constraint::Pattern(_) => false,
        Constraint::Custom(_) => false,
    }
}

/// The error of a property whose value breaks a constraint.
pub open spec fn violation(c: Constraint, p: Property) -> ValidationErrorView {
    ValidationErrorView::ConstraintViolation {
        property: p.name@,
        constraint: constraint_text(
            c,
            p.value matches PropertyValue::String(s) && too_short(c, s@),
        ),
        value: match p.value {
            PropertyValue::Number(n) => n.text@,
            PropertyValue::String(s) => s@,
            _ => Seq::empty(),
        },
    }
}

/// The error of the first property, at or after `from`, whose value breaks the
/// constraint.
pub open spec fn constraint_fault(c: Constraint, props: Seq<Property>, from: int) -> Option<
    ValidationErrorView,
>
    decreases props.len() - from,
{
    if from < 0 || from >= props.len() {
        None
    } else if violates(c, props[from].value) {
        Some(violation(c, props[from]))
    } else {
        constraint_fault(c, props, from + 1)
    }
}

/// For each constraint that some property breaks, the error of the first such
/// property, in the constraints' order.
pub open spec fn constraint_faults(constraints: Seq<Constraint>, props: Seq<Property>) -> Seq<
    ValidationErrorView,
>
    decreases constraints.len(),
{
    if constraints.len() == 0 {
        Seq::empty()
    } else {
        constraint_faults(constraints.drop_last(), props) + listed(
            constraint_fault(constraints.last(), props, 0),
        )
    }
}

/// Everything an entity of the named type with the given properties fails a schema by.
///
/// An unknown type is the one error of an entity that has it. Else the errors are:
/// one for each property that the type or a type above it asks for and the entity does
/// not hold; then those of the properties held, by shape and by cardinality; then one
/// for each of the type's own constraints that a value breaks.
pub open spec fn entity_faults(schema: OntologySchema, type_id: Seq<char>, props: Seq<Property>) -> Seq<
    ValidationErrorView,
> {
    match find_type(schema.entity_types@, type_id) {
        None => seq![ValidationErrorView::UnknownEntityType(type_id)],
        Some(t) => {
            let defs = t.all_properties(schema.entity_types@);
            missing_faults(type_id, defs, props) + provided_faults(defs, props)
                + constraint_faults(t.constraints@, props)
        },
    }
}

/// The reason given for a relation that cannot run between two types.
pub open spec fn mismatch_reason(
    domain: Seq<char>,
    range: Seq<char>,
    source: Seq<char>,
    target: Seq<char>,
) -> Seq<char> {
    "Expected domain '"@ + domain + "' and range '"@ + range + "', got source '"@ + source
        + "' and target '"@ + target + "'"@
}

/// What a relation of the named type between entities of the two types fails a schema
/// by: the relation type is unknown, or it cannot connect the two types.
pub open spec fn relation_fault(
    schema: OntologySchema,
    relation_id: Seq<char>,
    source: Seq<char>,
    target: Seq<char>,
) -> Option<ValidationErrorView> {
    match find_relation(schema.relation_types@, relation_id) {
        None => Some(ValidationErrorView::UnknownRelationType(relation_id)),
        Some(r) => if r.connects(source, target, schema.entity_types@) {
            None
        } else {
            Some(
                ValidationErrorView::InvalidRelation {
                    relation: relation_id,
                    source_type: source,
                    target_type: target,
                    reason: mismatch_reason(r.domain@, r.range@, source, target),
                },
            )
        },
    }
}


/// Checks entities and relations against a schema.
pub struct OntologyValidator {
    schema: OntologySchema,
}

impl View for OntologyValidator {
    type V = OntologySchema;

    /// The schema that the validator checks against.
    closed spec fn view(&self) -> OntologySchema {
        self.schema
    }
}

/// Adds an error after those of a list.
pub fn push_error(errors: &mut Vec<ValidationError>, error: ValidationError)
    ensures
        error_views(final(errors)@) == error_views(old(errors)@).push(error@),
        final(errors)@ == old(errors)@.push(error),
{
    errors.push(error);
    assert(error_views(errors@) =~= error_views(old(errors)@).push(error@));
}

/// Where the definition of a name first stands in a list.
pub fn definition_position(defs: &Vec<PropertyDefinition>, name: &str) -> (pos: Option<usize>)
    ensures
        match pos {
            Some(i) => first_position(definition_names(defs@), name@) == Some(i as int) && i
                < defs.len(),
            None => first_position(definition_names(defs@), name@) is None,
        },
{
    let mut i: usize = 0;
    while i < defs.len()
        invariant
            i <= defs.len(),
            first_position(definition_names(defs@), name@) == key_position(
                definition_names(defs@),
                name@,
                i as int,
            ),
        decreases defs.len() - i,
    {
        if str_eq(defs[i].name.as_str(), name) {
            return Some(i);
        }
        i += 1;
    }
    None
}

/// A list of texts, each as it is written for debugging.
fn quoted_texts(allowed: &Vec<String>) -> (parts: Vec<String>)
    ensures
        views(parts@) == quoted(views(allowed@)),
{
    let mut parts: Vec<String> = Vec::new();
    let mut i: usize = 0;
    while i < allowed.len()
        invariant
            i <= allowed.len(),
            views(parts@) == quoted(views(allowed@).take(i as int)),
        decreases allowed.len() - i,
    {
        let part = crate::runtime::debug_text(allowed[i].as_str());
        let ghost before = views(parts@);
        parts.push(part);
        assert(views(parts@) =~= before.push(part@));
        assert(views(allowed@).take(i + 1) =~= views(allowed@).take(i as int).push(
            allowed@[i as int]@,
        ));
        assert(views(parts@) =~= quoted(views(allowed@).take(i + 1)));
        i += 1;
    }
    assert(views(allowed@).take(allowed.len() as int) == views(allowed@));
    parts
}

/// A list of admitted texts as it is written in messages, given each text as it is
/// written for debugging: the texts between square brackets, a comma and a blank
/// between two of them, after the constraint's name.
pub fn listed_text(written: &Vec<String>) -> (text: String)
    ensures
        text@ == "Enum(["@ + joined(views(written@), ", "@) + "])"@,
{
    let inner = crate::text::join(written, ", ");
    let mut text = owned("Enum([");
    text.append(inner.as_str());
    text.append("])");
    text
}

/// A list of admitted texts as it is written in messages.
fn enum_text(allowed: &Vec<String>) -> (text: String)
    ensures
        text@ == "Enum(["@ + joined(quoted(views(allowed@)), ", "@) + "])"@,
{
    let parts = quoted_texts(allowed);
    listed_text(&parts)
}

fn bound_text(lead: &str, bound: usize) -> (text: String)
    ensures
        text@ == lead@ + decimal(bound as nat) + ")"@,
{
    let number = decimal_text(bound as u64);
    let mut text = owned(lead);
    text.append(number.as_str());
    text.append(")");
    text
}

fn range_text(min: &crate::ontology::value::Number, max: &crate::ontology::value::Number) -> (text:
    String)
    ensures
        text@ == "ValueRange("@ + min.text@ + ", "@ + max.text@ + ")"@,
{
    let mut text = owned("ValueRange(");
    text.append(min.text.as_str());
    text.append(", ");
    text.append(max.text.as_str());
    text.append(")");
    text
}

/// The error of a property whose value breaks a constraint, if it does.
pub fn check_value(constraint: &Constraint, property: &Property) -> (fault: Option<ValidationError>)
    ensures
        match fault {
            Some(e) => violates(*constraint, property.value) && e@ == violation(
                *constraint,
                *property,
            ),
            None => !violates(*constraint, property.value),
        },
{
    match constraint {
        Constraint::ValueRange { min, max } => {
            match &property.value {
                PropertyValue::Number(n) => {
                    if n.is_outside(min, max) {
                        Some(
                            ValidationError::ConstraintViolation {
                                property: property.name.clone(),
                                constraint: range_text(min, max),
                                value: n.text.clone(),
                            },
                        )
                    } else {
                        None
                    }
                },
                _ => None,
            }
        },
        Constraint::Enum(allowed) => {
            match &property.value {
                PropertyValue::String(s) => {
                    if !crate::text::list_contains(allowed, s.as_str()) {
                        Some(
                            ValidationError::ConstraintViolation {
                                property: property.name.clone(),
                                constraint: enum_text(allowed),
                                value: s.clone(),
                            },
                        )
                    } else {
                        None
                    }
                },
                _ => None,
            }
        },
        Constraint::StringLength { min, max } => {
            match &property.value {
                PropertyValue::String(s) => {
                    let len = s.as_str().as_bytes().len();
                    if let Some(least) = min {
                        if len < *least {
                            return Some(
                                ValidationError::ConstraintViolation {
                                    property: property.name.clone(),
                                    constraint: bound_text("StringLength(min: ", *least),
                                    value: s.clone(),
                                },
                            );
                        }
                    }
                    if let Some(most) = max {
                        if len > *most {
                            return Some(
                                ValidationError::ConstraintViolation {
                                    property: property.name.clone(),
                                    constraint: bound_text("StringLength(max: ", *most),
                                    value: s.clone(),
                                },
                            );
                        }
                    }
                    None
                },
                _ => None,
            }
        },
        Constraint::Pattern(_) => None,
        Constraint::Custom(_) => None,
    }
}

impl OntologyValidator {
    /// A validator that checks against `schema`.
    pub fn new(schema: OntologySchema) -> (validator: Self)
        ensures
            validator@ == schema,
    {
        OntologyValidator { schema }
    }

    /// The schema that the validator checks against.
    pub fn schema(&self) -> (schema: &OntologySchema)
        ensures
            *schema == self@,
    {
        &self.schema
    }

    /// Checks that a value has the shape its property is declared with.
    pub fn validate_property_type(
        &self,
        prop_name: &str,
        value: &PropertyValue,
        expected_type: &PropertyType,
    ) -> (result: Result<(), ValidationError>)
        ensures
            match result {
                Ok(()) => type_mismatch(prop_name@, *value, *expected_type) is None,
                Err(e) => type_mismatch(prop_name@, *value, *expected_type) == Some(e@),
            },
    {
        let fits = match expected_type {
            PropertyType::String => matches!(value, PropertyValue::String(_)),
            PropertyType::Number => matches!(value, PropertyValue::Number(_)),
            PropertyType::Boolean => matches!(value, PropertyValue::Bool(_)),
            PropertyType::DateTime => matches!(value, PropertyValue::String(_)),
            PropertyType::Reference(_) => matches!(value, PropertyValue::String(_)),
            PropertyType::Embedding => matches!(value, PropertyValue::Array { .. }),
            PropertyType::Object => matches!(value, PropertyValue::Object { .. }),
            PropertyType::Array(_) => matches!(value, PropertyValue::Array { .. }),
        };
        if !fits {
            return Err(
                ValidationError::PropertyTypeMismatch {
                    property: owned(prop_name),
                    expected: expected_type.describe(),
                    found: owned(value.shape()),
                },
            );
        }
        Ok(())
    }

    /// Checks that a value counts for as many values as the cardinality admits.
    pub fn validate_cardinality(
        &self,
        prop_name: &str,
        value: &PropertyValue,
        cardinality: &Cardinality,
    ) -> (result: Result<(), ValidationError>)
        ensures
            match result {
                Ok(()) => cardinality_fault(prop_name@, *value, *cardinality) is None,
                Err(e) => cardinality_fault(prop_name@, *value, *cardinality) == Some(e@),
            },
    {
        let count = value.count();
        if !cardinality.allows(count) {
            return Err(
                ValidationError::CardinalityViolation {
                    property: owned(prop_name),
                    expected: owned(cardinality.name()),
                    found: count,
                },
            );
        }
        Ok(())
    }

    /// Checks one constraint against every property and reports the first property
    /// that breaks it.
    pub fn validate_constraint(&self, constraint: &Constraint, properties: &Vec<Property>) -> (result:
        Result<(), ValidationError>)
        ensures
            match result {
                Ok(()) => constraint_fault(*constraint, properties@, 0) is None,
                Err(e) => constraint_fault(*constraint, properties@, 0) == Some(e@),
            },
    {
        let mut i: usize = 0;
        while i < properties.len()
            invariant
                i <= properties.len(),
                constraint_fault(*constraint, properties@, 0) == constraint_fault(
                    *constraint,
                    properties@,
                    i as int,
                ),
            decreases properties.len() - i,
        {
            if let Some(e) = check_value(constraint, &properties[i]) {
                return Err(e);
            }
            i += 1;
        }
        Ok(())
    }

    /// Checks an entity's properties against its type and reports everything wrong
    /// with them, not the first error alone.
    pub fn validate_entity(&self, entity_type_id: &str, properties: &Vec<Property>) -> (result:
        Result<(), Vec<ValidationError>>)
        ensures
            match result {
                Ok(()) => entity_faults(self@, entity_type_id@, properties@).len() == 0,
                Err(errors) => errors.len() > 0 && error_views(errors@) == entity_faults(
                    self@,
                    entity_type_id@,
                    properties@,
                ),
            },
    {
        let mut errors: Vec<ValidationError> = Vec::new();
        let entity_type = match self.schema.entity_type(entity_type_id) {
            Some(t) => t,
            None => {
                push_error(&mut errors, ValidationError::UnknownEntityType(owned(entity_type_id)));
                assert(error_views(errors@) =~= seq![
                    ValidationErrorView::UnknownEntityType(entity_type_id@),
                ]);
                return Err(errors);
            },
        };
        let defs = entity_type.get_all_properties(&self.schema);
        assert(error_views(errors@) =~= Seq::<ValidationErrorView>::empty());

        let mut i: usize = 0;
        while i < defs.len()
            invariant
                i <= defs.len(),
                error_views(errors@) == missing_faults(
                    entity_type_id@,
                    defs@.take(i as int),
                    properties@,
                ),
            decreases defs.len() - i,
        {
            assert(defs@.take(i + 1).drop_last() == defs@.take(i as int));
            if defs[i].must_be_present() && !has_property(properties, defs[i].name.as_str()) {
                push_error(
                    &mut errors,
                    ValidationError::MissingRequiredProperty {
                        entity_type: owned(entity_type_id),
                        property: defs[i].name.clone(),
                    },
                );
            }
            i += 1;
        }
        assert(defs@.take(defs.len() as int) == defs@);
        let ghost missing = error_views(errors@);

        let mut k: usize = 0;
        while k < properties.len()
            invariant
                k <= properties.len(),
                error_views(errors@) == missing + provided_faults(
                    defs@,
                    properties@.take(k as int),
                ),
            decreases properties.len() - k,
        {
            assert(properties@.take(k + 1).drop_last() == properties@.take(k as int));
            let ghost before = error_views(errors@);
            let property = &properties[k];
            if let Some(d) = definition_position(&defs, property.name.as_str()) {
                let def = &defs[d];
                if let Err(e) = self.validate_property_type(
                    property.name.as_str(),
                    &property.value,
                    &def.property_type,
                ) {
                    push_error(&mut errors, e);
                }
                if let Err(e) = self.validate_cardinality(
                    property.name.as_str(),
                    &property.value,
                    &def.cardinality,
                ) {
                    push_error(&mut errors, e);
                }
            }
            assert(error_views(errors@) =~= before + property_faults(defs@, properties@[k as int]));
            assert(missing + (provided_faults(defs@, properties@.take(k as int)) + property_faults(
                defs@,
                properties@[k as int],
            )) =~= before + property_faults(defs@, properties@[k as int]));
            k += 1;
        }
        assert(properties@.take(properties.len() as int) == properties@);
        let ghost provided = error_views(errors@);

        let constraints = &entity_type.constraints;
        let mut c: usize = 0;
        while c < constraints.len()
            invariant
                c <= constraints.len(),
                error_views(errors@) == provided + constraint_faults(
                    constraints@.take(c as int),
                    properties@,
                ),
            decreases constraints.len() - c,
        {
            assert(constraints@.take(c + 1).drop_last() == constraints@.take(c as int));
            let ghost before = error_views(errors@);
            if let Err(e) = self.validate_constraint(&constraints[c], properties) {
                push_error(&mut errors, e);
            }
            assert(error_views(errors@) =~= before + listed(
                constraint_fault(constraints@[c as int], properties@, 0),
            ));
            assert(provided + (constraint_faults(constraints@.take(c as int), properties@)
                + listed(constraint_fault(constraints@[c as int], properties@, 0))) =~= before
                + listed(constraint_fault(constraints@[c as int], properties@, 0)));
            c += 1;
        }
        assert(constraints@.take(constraints.len() as int) == constraints@);

        if errors.len() == 0 {
            Ok(())
        } else {
            Err(errors)
        }
    }

    /// Checks that a relation of the named type may run from an entity of the one type
    /// to an entity of the other. A symmetric relation is checked in the direction
    /// given, like any other.
    pub fn validate_relation(&self, relation_type_id: &str, source_type: &str, target_type: &str) -> (result:
        Result<(), ValidationError>)
        ensures
            match result {
                Ok(()) => relation_fault(self@, relation_type_id@, source_type@, target_type@)
                    is None,
                Err(e) => relation_fault(self@, relation_type_id@, source_type@, target_type@)
                    == Some(e@),
            },
    {
        let relation_type = match self.schema.relation_type(relation_type_id) {
            Some(r) => r,
            None => {
                return Err(ValidationError::UnknownRelationType(owned(relation_type_id)));
            },
        };
        if !relation_type.can_connect(source_type, target_type, &self.schema) {
            let mut reason = owned("Expected domain '");
            reason.append(relation_type.domain.as_str());
            reason.append("' and range '");
            reason.append(relation_type.range.as_str());
            reason.append("', got source '");
            reason.append(source_type);
            reason.append("' and target '");
            reason.append(target_type);
            reason.append("'");
            return Err(
                ValidationError::InvalidRelation {
                    relation: owned(relation_type_id),
                    source_type: owned(source_type),
                    target_type: owned(target_type),
                    reason,
                },
            );
        }
        Ok(())
    }
}

} // verus!
