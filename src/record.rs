use vstd::prelude::*;

verus! {

/// One named field of a record: its identifier and the source text of its
/// declared type, which is carried through unchanged.
pub struct FieldDescription {
    pub ident: String,
    pub ty: String,
}

/// The shape of the item that a builder is asked for.
pub enum RecordShape {
    /// A struct with named fields, in declaration order.
    Named(Vec<FieldDescription>),
    /// A tuple struct with the given number of fields.
    Tuple(usize),
    /// A unit struct.
    Unit,
    /// An enum.
    Enum,
    /// A union.
    Union,
}

/// The item that a builder is derived for: its name and its shape.
pub struct RecordDescription {
    pub name: String,
    pub data: RecordShape,
}

impl FieldDescription {
    pub fn new(ident: &str, ty: &str) -> (r: FieldDescription)
        ensures
            r.ident@ == ident@,
            r.ty@ == ty@,
    {
        FieldDescription { ident: ident.to_owned(), ty: ty.to_owned() }
    }
}

impl RecordDescription {
    /// A struct named `name` with the given named fields.
    pub fn named(name: &str, fields: Vec<FieldDescription>) -> (r: RecordDescription)
        ensures
            r.name@ == name@,
            r.data == RecordShape::Named(fields),
    {
        RecordDescription { name: name.to_owned(), data: RecordShape::Named(fields) }
    }
}

/// The only shape a builder can be derived for: a struct with named fields.
pub open spec fn is_named_record(data: RecordShape) -> bool {
    data is Named
}

/// The named fields of a plain record, in declaration order.
pub fn extract_fields(data: &RecordShape) -> (r: &Vec<FieldDescription>)
    requires
        is_named_record(*data),
    ensures
        *data == RecordShape::Named(*r),
{
    match data {
        RecordShape::Named(fields) => fields,
        _ => {
            proof {
                assert(false);
            }
            unreached()
        },
    }
}

} // verus!
