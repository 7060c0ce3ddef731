//! Derives a companion builder for a plain named-field record.
//!
//! The library works on a plain description of the record (its name and
//! its fields, each with the source text of its type) and produces the
//! source text of the builder type, its setters, its `build` method and the
//! `builder()` entry point, as text and, lexed, as tokens. It also holds
//! `RecordBuilder`, an executable model of what the generated builder does
//! at run time, with the laws that relate its operations.

pub mod record;
pub mod expand;
pub mod runtime;
pub mod laws;
pub mod tokens;

pub use expand::GeneratedUnit;
pub use record::{extract_fields, FieldDescription, RecordDescription, RecordShape};
pub use runtime::RecordBuilder;

use vstd::prelude::*;
use expand::{
    expand_build_method, expand_builder_fields, expand_init_builder_fields, expand_setters,
    generated_for, push,
};
use record::is_named_record;

verus! {

/// Generates the builder of a record. Fails, generating nothing, unless the
/// record is a struct with named fields.
pub fn derive(input: &RecordDescription) -> (r: Option<GeneratedUnit>)
    ensures
        r is Some <==> is_named_record(input.data),
        r matches Some(u) ==> (input.data matches RecordShape::Named(fields) && generated_for(
            u,
            input.name@,
            fields@,
        )),
{
    if !matches!(input.data, RecordShape::Named(_)) {
        return None;
    }
    let struct_name = input.name.as_str();
    let mut builder_name = String::new();
    push(&mut builder_name, struct_name);
    push(&mut builder_name, "Builder");
    let fields = extract_fields(&input.data);
    let builder_fields = expand_builder_fields(fields);
    let init_builder_fields = expand_init_builder_fields(fields);
    let setters = expand_setters(fields);
    let build_method = expand_build_method(fields, struct_name);
    Some(
        GeneratedUnit {
            struct_name: input.name.clone(),
            builder_name,
            builder_fields,
            init_builder_fields,
            setters,
            build_method,
        },
    )
}

} // verus!
