use vstd::prelude::*;
use vstd::string::*;
use crate::record::FieldDescription;

verus! {

/// The views of a sequence of strings.
pub open spec fn texts(v: Seq<String>) -> Seq<Seq<char>> {
    Seq::new(v.len(), |i: int| v[i]@)
}

/// Fragments joined by `", "`, as the fields of a struct or of a struct literal.
pub open spec fn comma_joined(s: Seq<Seq<char>>) -> Seq<char>
    decreases s.len(),
{
    if s.len() == 0 {
        Seq::empty()
    } else if s.len() == 1 {
        s[0]
    } else {
        comma_joined(s.drop_last()) + ", "@ + s.last()
    }
}

/// Fragments written one after the other, as the items of an `impl` block.
pub open spec fn concatenated(s: Seq<Seq<char>>) -> Seq<char>
    decreases s.len(),
{
    if s.len() == 0 {
        Seq::empty()
    } else {
        concatenated(s.drop_last()) + s.last()
    }
}

/// The name of the builder type of record `name`.
pub open spec fn builder_name_text(name: Seq<char>) -> Seq<char> {
    name + "Builder"@
}

/// The builder's field for `f`: `ident: Option<ty>`.
pub open spec fn builder_field_text(f: FieldDescription) -> Seq<char> {
    f.ident@ + ": Option<"@ + f.ty@ + ">"@
}

/// The builder's starting value for `f`: `ident: None`.
pub open spec fn init_field_text(f: FieldDescription) -> Seq<char> {
    f.ident@ + ": None"@
}

/// The setter for `f`: a method named after the field that takes a value of
/// the field's type, stores it as present and returns the builder itself.
pub open spec fn setter_text(f: FieldDescription) -> Seq<char> {
    "pub fn "@ + f.ident@ + "(&mut self, "@ + f.ident@ + ": "@ + f.ty@
        + ") -> &mut Self { self."@ + f.ident@ + " = Some("@ + f.ident@ + "); self }"@
}

/// The message with which `build` fails when field `ident` was never set.
pub open spec fn missing_message(ident: Seq<char>) -> Seq<char> {
    "field "@ + ident + " missing!"@
}

/// The clause of `build` for `f`: the stored value, or an early failure that
/// names the field.
pub open spec fn build_clause_text(f: FieldDescription) -> Seq<char> {
    f.ident@ + ": self."@ + f.ident@ + ".clone().ok_or(\""@ + missing_message(f.ident@)
        + "\")?"@
}

/// Pass one: the builder's field declarations, one per field, in order.
pub open spec fn builder_field_decls(fields: Seq<FieldDescription>) -> Seq<Seq<char>> {
    Seq::new(fields.len(), |i: int| builder_field_text(fields[i]))
}

/// Pass two: the builder's starting values, one per field, in order.
pub open spec fn init_field_values(fields: Seq<FieldDescription>) -> Seq<Seq<char>> {
    Seq::new(fields.len(), |i: int| init_field_text(fields[i]))
}

/// Pass three: the setters, one per field, in order.
pub open spec fn setter_defs(fields: Seq<FieldDescription>) -> Seq<Seq<char>> {
    Seq::new(fields.len(), |i: int| setter_text(fields[i]))
}

/// The clauses of `build`, one per field, in order.
pub open spec fn build_clauses(fields: Seq<FieldDescription>) -> Seq<Seq<char>> {
    Seq::new(fields.len(), |i: int| build_clause_text(fields[i]))
}

/// Pass four: the `build` method of the builder of record `name`.
pub open spec fn build_method_text(fields: Seq<FieldDescription>, name: Seq<char>) -> Seq<char> {
    "pub fn build(&mut self) -> Result<"@ + name + ", Box<dyn std::error::Error>> { Ok("@ + name
        + " { "@ + comma_joined(build_clauses(fields)) + " }) }"@
}

/// Appends `t` to `s`.
pub(crate) fn push(s: &mut String, t: &str)
    ensures
        final(s)@ == old(s)@ + t@,
{
    s.append(t);
}

/// Joins fragments: with `", "` between them when `split`, else one after
/// the other.
pub fn join_fragments(frags: &Vec<String>, split: bool) -> (r: String)
    ensures
        split ==> r@ == comma_joined(texts(frags@)),
        !split ==> r@ == concatenated(texts(frags@)),
{
    let mut out = String::new();
    let mut i: usize = 0;
    while i < frags.len()
        invariant
            i <= frags@.len(),
            split ==> out@ == comma_joined(texts(frags@.subrange(0, i as int))),
            !split ==> out@ == concatenated(texts(frags@.subrange(0, i as int))),
        decreases frags@.len() - i,
    {
        let ghost prev = texts(frags@.subrange(0, i as int));
        let ghost next = texts(frags@.subrange(0, i as int + 1));
        assert(next.drop_last() =~= prev);
        assert(next.last() == frags@[i as int]@);
        if split && i > 0 {
            push(&mut out, ", ");
        }
        push(&mut out, frags[i].as_str());
        i = i + 1;
    }
    assert(frags@.subrange(0, frags@.len() as int) =~= frags@);
    out
}

/// The builder's field declarations, `ident: Option<ty>` for each field.
pub fn expand_builder_fields(fields: &Vec<FieldDescription>) -> (r: Vec<String>)
    ensures
        texts(r@) == builder_field_decls(fields@),
{
    let mut out: Vec<String> = Vec::new();
    let mut i: usize = 0;
    while i < fields.len()
        invariant
            i <= fields@.len(),
            out@.len() == i,
            forall|j: int| 0 <= j < i ==> #[trigger] out@[j]@ == builder_field_text(fields@[j]),
        decreases fields@.len() - i,
    {
        let f = &fields[i];
        let mut s = String::new();
        push(&mut s, f.ident.as_str());
        push(&mut s, ": Option<");
        push(&mut s, f.ty.as_str());
        push(&mut s, ">");
        out.push(s);
        i = i + 1;
    }
    assert(texts(out@) =~= builder_field_decls(fields@));
    out
}

/// The builder's starting values, `ident: None` for each field.
pub fn expand_init_builder_fields(fields: &Vec<FieldDescription>) -> (r: Vec<String>)
    ensures
        texts(r@) == init_field_values(fields@),
{
    let mut out: Vec<String> = Vec::new();
    let mut i: usize = 0;
    while i < fields.len()
        invariant
            i <= fields@.len(),
            out@.len() == i,
            forall|j: int| 0 <= j < i ==> #[trigger] out@[j]@ == init_field_text(fields@[j]),
        decreases fields@.len() - i,
    {
        let mut s = String::new();
        push(&mut s, fields[i].ident.as_str());
        push(&mut s, ": None");
        out.push(s);
        i = i + 1;
    }
    assert(texts(out@) =~= init_field_values(fields@));
    out
}

/// One setter per field, named after the field and taking its type.
pub fn expand_setters(fields: &Vec<FieldDescription>) -> (r: Vec<String>)
    ensures
        texts(r@) == setter_defs(fields@),
{
    let mut out: Vec<String> = Vec::new();
    let mut i: usize = 0;
    while i < fields.len()
        invariant
            i <= fields@.len(),
            out@.len() == i,
            forall|j: int| 0 <= j < i ==> #[trigger] out@[j]@ == setter_text(fields@[j]),
        decreases fields@.len() - i,
    {
        let ident = fields[i].ident.as_str();
        let mut s = String::new();
        push(&mut s, "pub fn ");
        push(&mut s, ident);
        push(&mut s, "(&mut self, ");
        push(&mut s, ident);
        push(&mut s, ": ");
        push(&mut s, fields[i].ty.as_str());
        push(&mut s, ") -> &mut Self { self.");
        push(&mut s, ident);
        push(&mut s, " = Some(");
        push(&mut s, ident);
        push(&mut s, "); self }");
        out.push(s);
        i = i + 1;
    }
    assert(texts(out@) =~= setter_defs(fields@));
    out
}

/// The clause of `build` for each field.
fn expand_build_clauses(fields: &Vec<FieldDescription>) -> (r: Vec<String>)
    ensures
        texts(r@) == build_clauses(fields@),
{
    let mut out: Vec<String> = Vec::new();
    let mut i: usize = 0;
    while i < fields.len()
        invariant
            i <= fields@.len(),
            out@.len() == i,
            forall|j: int| 0 <= j < i ==> #[trigger] out@[j]@ == build_clause_text(fields@[j]),
        decreases fields@.len() - i,
    {
        let ident = fields[i].ident.as_str();
        let mut s = String::new();
        push(&mut s, ident);
        push(&mut s, ": self.");
        push(&mut s, ident);
        push(&mut s, ".clone().ok_or(\"");
        push(&mut s, "field ");
        push(&mut s, ident);
        push(&mut s, " missing!");
        push(&mut s, "\")?");
        out.push(s);
        i = i + 1;
    }
    assert(texts(out@) =~= build_clauses(fields@));
    out
}

/// The `build` method: it fails on the first field, in declaration order,
/// that was never set, and otherwise returns the record.
pub fn expand_build_method(fields: &Vec<FieldDescription>, struct_name: &str) -> (r: String)
    ensures
        r@ == build_method_text(fields@, struct_name@),
{
    let clauses = expand_build_clauses(fields);
    let joined = join_fragments(&clauses, true);
    let mut s = String::new();
    push(&mut s, "pub fn build(&mut self) -> Result<");
    push(&mut s, struct_name);
    push(&mut s, ", Box<dyn std::error::Error>> { Ok(");
    push(&mut s, struct_name);
    push(&mut s, " { ");
    push(&mut s, joined.as_str());
    push(&mut s, " }) }");
    s
}

/// What is generated for one record: the builder's name and the fragments
/// of the four passes.
pub struct GeneratedUnit {
    pub struct_name: String,
    pub builder_name: String,
    pub builder_fields: Vec<String>,
    pub init_builder_fields: Vec<String>,
    pub setters: Vec<String>,
    pub build_method: String,
}

/// The unit generated for record `name` with the given fields.
pub open spec fn generated_for(u: GeneratedUnit, name: Seq<char>, fields: Seq<FieldDescription>) -> bool {
    &&& u.struct_name@ == name
    &&& u.builder_name@ == builder_name_text(name)
    &&& texts(u.builder_fields@) == builder_field_decls(fields)
    &&& texts(u.init_builder_fields@) == init_field_values(fields)
    &&& texts(u.setters@) == setter_defs(fields)
    &&& u.build_method@ == build_method_text(fields, name)
}

/// The source text of the two declarations: the builder type with its
/// setters and `build`, and the `builder()` entry point on the record.
pub open spec fn expansion_text(u: GeneratedUnit) -> Seq<char> {
    let b = u.builder_name@;
    let s = u.struct_name@;
    "pub struct "@ + b + " { "@ + comma_joined(texts(u.builder_fields@)) + " } impl "@ + b + " { "@
        + concatenated(texts(u.setters@)) + " "@ + u.build_method@ + " } impl "@ + s
        + " { pub fn builder() -> "@ + b + " { "@ + b + " { "@ + comma_joined(
        texts(u.init_builder_fields@),
    ) + " } } }"@
}

impl GeneratedUnit {
    /// The source text of the declarations this unit stands for.
    pub fn expanded(&self) -> (r: String)
        ensures
            r@ == expansion_text(*self),
    {
        let b = self.builder_name.as_str();
        let decls = join_fragments(&self.builder_fields, true);
        let setters = join_fragments(&self.setters, false);
        let inits = join_fragments(&self.init_builder_fields, true);
        let mut s = String::new();
        push(&mut s, "pub struct ");
        push(&mut s, b);
        push(&mut s, " { ");
        push(&mut s, decls.as_str());
        push(&mut s, " } impl ");
        push(&mut s, b);
        push(&mut s, " { ");
        push(&mut s, setters.as_str());
        push(&mut s, " ");
        push(&mut s, self.build_method.as_str());
        push(&mut s, " } impl ");
        push(&mut s, self.struct_name.as_str());
        push(&mut s, " { pub fn builder() -> ");
        push(&mut s, b);
        push(&mut s, " { ");
        push(&mut s, b);
        push(&mut s, " { ");
        push(&mut s, inits.as_str());
        push(&mut s, " } } }");
        s
    }
}

} // verus!
