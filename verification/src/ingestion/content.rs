use crate::api::types::EventPayload;
use crate::ontology::value::{Property, PropertyValue};
use crate::text::{join, joined, views};
use vstd::prelude::*;

verus! {

/// A scalar value as it is written into the text of an entity: a text as it is, a
/// number as it is written, a truth value by its name. Other values are not written.
pub open spec fn scalar_text(value: PropertyValue) -> Option<Seq<char>> {
    match value {
        PropertyValue::String(s) => Some(s@),
        PropertyValue::Number(n) => Some(n.text@),
        PropertyValue::Bool(b) => Some(
            if b {
                "true"@
            } else {
                "false"@
            },
        ),
        _ => None,
    }
}

/// One piece of text for each property that holds a scalar: the name, a colon and a
/// blank, and the value.
pub open spec fn text_parts(properties: Seq<Property>) -> Seq<Seq<char>>
    decreases properties.len(),
{
    if properties.len() == 0 {
        Seq::empty()
    } else {
        match scalar_text(properties.last().value) {
            Some(text) => text_parts(properties.drop_last()).push(
                properties.last().name@ + ": "@ + text,
            ),
            None => text_parts(properties.drop_last()),
        }
    }
}

/// The text that stands for the properties of an entity when it is embedded: the
/// pieces of its scalar properties, with a full stop and a blank between them.
pub open spec fn properties_text(properties: Seq<Property>) -> Seq<char> {
    joined(text_parts(properties), ". "@)
}

/// The text that stands for what an event carries: a text for itself, named values as
/// the properties of an entity, anything else for nothing.
pub open spec fn payload_text(payload: EventPayload) -> Seq<char> {
    match payload {
        EventPayload::Text(s) => s@,
        EventPayload::Fields(fields) => properties_text(fields@),
        EventPayload::Other { .. } => Seq::empty(),
    }
}

/// The text that stands for the properties of an entity when it is embedded.
pub fn extract_text_from_properties(properties: &Vec<Property>) -> (text: String)
    ensures
        text@ == properties_text(properties@),
{
    let mut parts: Vec<String> = Vec::new();
    let mut i: usize = 0;
    assert(views(parts@) =~= text_parts(properties@.take(0)));
    while i < properties.len()
        invariant
            i <= properties.len(),
            views(parts@) == text_parts(properties@.take(i as int)),
        decreases properties.len() - i,
    {
        assert(properties@.take(i + 1).drop_last() == properties@.take(i as int));
        let ghost before = views(parts@);
        let property = &properties[i];
        let value: Option<&str> = match &property.value {
            PropertyValue::String(s) => Some(s.as_str()),
            PropertyValue::Number(n) => Some(n.text.as_str()),
            PropertyValue::Bool(b) => Some(
                if *b {
                    "true"
                } else {
                    "false"
                },
            ),
            _ => None,
        };
        if let Some(text) = value {
            let mut part = property.name.clone();
            part.append(": ");
            part.append(text);
            parts.push(part);
            assert(views(parts@) =~= before.push(part@));
        }
        i += 1;
    }
    assert(properties@.take(properties.len() as int) == properties@);
    join(&parts, ". ")
}

/// The text that stands for what an event carries when it is embedded.
pub fn extract_text_from_json(value: &EventPayload) -> (text: String)
    ensures
        text@ == payload_text(*value),
{
    match value {
        EventPayload::Text(s) => s.clone(),
        EventPayload::Fields(fields) => extract_text_from_properties(fields),
        EventPayload::Other { .. } => String::new(),
    }
}

} // verus!
