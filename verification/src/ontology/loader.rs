use crate::error::VectaDBError;
use crate::ontology::schema::OntologySchema;
use crate::text::concat2;
use vstd::prelude::*;

verus! {

/// Takes schemas in: a schema that was read from a document becomes usable when it is
/// consistent.
#[derive(Debug, Clone, Copy)]
pub struct OntologyLoader;

impl OntologyLoader {
    /// The schema, if it is consistent; else what is wrong with it.
    pub fn checked(schema: OntologySchema) -> (result: Result<OntologySchema, VectaDBError>)
        ensures
            result is Ok <==> schema.well_formed(),
            result matches Ok(loaded) ==> loaded == schema,
            result matches Err(e) ==> e is Config && schema.fault() is Some && e.detail()
                == "Ontology validation failed: "@ + schema.fault()->0.message_text(),
    {
        match schema.check() {
            Ok(()) => Ok(schema),
            Err(fault) => {
                let detail = fault.message();
                Err(VectaDBError::Config(concat2("Ontology validation failed: ", detail.as_str())))
            },
        }
    }

    /// The error of a document that is no schema in YAML.
    pub fn yaml_parse_error(detail: &str) -> (error: VectaDBError)
        ensures
            error is Config,
            error.detail() == "Failed to parse ontology YAML: "@ + detail@,
    {
        VectaDBError::Config(concat2("Failed to parse ontology YAML: ", detail))
    }

    /// The error of a document that is no schema in JSON.
    pub fn json_parse_error(detail: &str) -> (error: VectaDBError)
        ensures
            error is Config,
            error.detail() == "Failed to parse ontology JSON: "@ + detail@,
    {
        VectaDBError::Config(concat2("Failed to parse ontology JSON: ", detail))
    }
}

} // verus!
