use crate::text::{join, joined, views};
use vstd::prelude::*;

pub mod agent;
pub mod log;
pub mod task;
pub mod thought;

verus! {

/// How many characters the identifier of a model has.
pub const MODEL_ID_LENGTH: usize = 10;

/// A value of the free-form data of a model, as far as it is read: a text, a list
/// whose texts are read, or something else, kept as JSON text.
#[derive(Debug, Clone)]
pub enum MetadataValue {
    Text(String),
    /// The items of a list: the texts, and nothing for each item that is no text.
    List(Vec<Option<String>>),
    Other { json: String },
}

/// A named value of the free-form data of a model.
#[derive(Debug, Clone)]
pub struct MetadataField {
    pub key: String,
    pub value: MetadataValue,
}

/// The texts among the items of a list, in their order.
pub open spec fn texts_of(items: Seq<Option<String>>) -> Seq<Seq<char>>
    decreases items.len(),
{
    if items.len() == 0 {
        Seq::empty()
    } else {
        match items.last() {
            Some(s) => texts_of(items.drop_last()).push(s@),
            None => texts_of(items.drop_last()),
        }
    }
}

/// What a field adds to the searchable text of a model: its key and its text, or its
/// key and the texts of its list with commas between them; nothing for a list without
/// texts and for any other value.
pub open spec fn field_text(field: MetadataField) -> Option<Seq<char>> {
    match field.value {
        MetadataValue::Text(s) => Some(field.key@ + ": "@ + s@),
        MetadataValue::List(items) => if texts_of(items@).len() > 0 {
            Some(field.key@ + ": "@ + joined(texts_of(items@), ", "@))
        } else {
            None
        },
        MetadataValue::Other { .. } => None,
    }
}

/// The parts of a searchable text with what the fields add, field by field.
pub open spec fn with_fields(parts: Seq<Seq<char>>, fields: Seq<MetadataField>) -> Seq<Seq<char>>
    decreases fields.len(),
{
    if fields.len() == 0 {
        parts
    } else {
        match field_text(fields.last()) {
            Some(text) => with_fields(parts, fields.drop_last()).push(text),
            None => with_fields(parts, fields.drop_last()),
        }
    }
}

/// The searchable text of a model: its leading parts and what its fields add, with a
/// bar between them.
pub open spec fn searchable(parts: Seq<Seq<char>>, fields: Seq<MetadataField>) -> Seq<char> {
    joined(with_fields(parts, fields), " | "@)
}

/// The texts among the items of a list.
pub fn list_texts(items: &Vec<Option<String>>) -> (texts: Vec<String>)
    ensures
        views(texts@) == texts_of(items@),
{
    let mut texts: Vec<String> = Vec::new();
    let mut i: usize = 0;
    assert(views(texts@) =~= texts_of(items@.take(0)));
    while i < items.len()
        invariant
            i <= items.len(),
            views(texts@) == texts_of(items@.take(i as int)),
        decreases items.len() - i,
    {
        assert(items@.take(i + 1).drop_last() == items@.take(i as int));
        if let Some(s) = &items[i] {
            let ghost before = views(texts@);
            texts.push(s.clone());
            assert(views(texts@) =~= before.push(s@));
        }
        i += 1;
    }
    assert(items@.take(items.len() as int) == items@);
    texts
}

/// The searchable text of a model with the given leading parts and fields.
pub fn searchable_text(parts: Vec<String>, fields: &Vec<MetadataField>) -> (text: String)
    ensures
        text@ == searchable(views(parts@), fields@),
{
    let ghost lead = views(parts@);
    let mut parts = parts;
    let mut i: usize = 0;
    assert(views(parts@) =~= with_fields(lead, fields@.take(0)));
    while i < fields.len()
        invariant
            i <= fields.len(),
            views(parts@) == with_fields(lead, fields@.take(i as int)),
        decreases fields.len() - i,
    {
        assert(fields@.take(i + 1).drop_last() == fields@.take(i as int));
        let ghost before = views(parts@);
        let field = &fields[i];
        match &field.value {
            MetadataValue::Text(s) => {
                let mut part = field.key.clone();
                part.append(": ");
                part.append(s.as_str());
                parts.push(part);
                assert(views(parts@) =~= before.push(part@));
            },
            MetadataValue::List(items) => {
                let texts = list_texts(items);
                if texts.len() > 0 {
                    let listed = join(&texts, ", ");
                    let mut part = field.key.clone();
                    part.append(": ");
                    part.append(listed.as_str());
                    parts.push(part);
                    assert(views(parts@) =~= before.push(part@));
                }
            },
            MetadataValue::Other { .. } => {},
        }
        i += 1;
    }
    assert(fields@.take(fields.len() as int) == fields@);
    join(&parts, " | ")
}

} // verus!
