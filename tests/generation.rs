use builder::expand::{
    expand_build_method, expand_builder_fields, expand_init_builder_fields, expand_setters,
    join_fragments,
};
use builder::{extract_fields, FieldDescription, RecordDescription, RecordShape};

fn command_fields() -> Vec<FieldDescription> {
    vec![
        FieldDescription::new("executable", "String"),
        FieldDescription::new("args", "Vec<String>"),
        FieldDescription::new("env", "Vec<String>"),
        FieldDescription::new("current_dir", "String"),
    ]
}

fn command() -> RecordDescription {
    RecordDescription::named("Command", command_fields())
}

#[test]
fn command_builder_has_four_optional_fields_and_setters() {
    let unit = builder::derive(&command()).expect("named struct");
    assert_eq!(unit.struct_name, "Command");
    assert_eq!(unit.builder_name, "CommandBuilder");
    assert_eq!(
        unit.builder_fields,
        vec![
            "executable: Option<String>",
            "args: Option<Vec<String>>",
            "env: Option<Vec<String>>",
            "current_dir: Option<String>",
        ]
    );
    assert_eq!(
        unit.init_builder_fields,
        vec!["executable: None", "args: None", "env: None", "current_dir: None"]
    );
    assert_eq!(unit.setters.len(), 4);
    assert_eq!(
        unit.setters[1],
        "pub fn args(&mut self, args: Vec<String>) -> &mut Self { self.args = Some(args); self }"
    );
    assert!(unit.build_method.contains("\"field args missing!\""));
}

#[test]
fn build_method_text_is_exact() {
    let fields = vec![FieldDescription::new("a", "u8"), FieldDescription::new("b", "String")];
    assert_eq!(
        expand_build_method(&fields, "Pair"),
        "pub fn build(&mut self) -> Result<Pair, Box<dyn std::error::Error>> { Ok(Pair { \
         a: self.a.clone().ok_or(\"field a missing!\")?, \
         b: self.b.clone().ok_or(\"field b missing!\")? }) }"
    );
}

#[test]
fn expansion_text_is_exact() {
    let unit = builder::derive(&RecordDescription::named("P", vec![FieldDescription::new("x", "i32")]))
        .expect("named struct");
    assert_eq!(
        unit.expanded(),
        "pub struct PBuilder { x: Option<i32> } impl PBuilder { \
         pub fn x(&mut self, x: i32) -> &mut Self { self.x = Some(x); self } \
         pub fn build(&mut self) -> Result<P, Box<dyn std::error::Error>> { \
         Ok(P { x: self.x.clone().ok_or(\"field x missing!\")? }) } } \
         impl P { pub fn builder() -> PBuilder { PBuilder { x: None } } }"
    );
}

#[test]
fn expansion_is_valid_rust() {
    let unit = builder::derive(&command()).expect("named struct");
    let tokens: proc_macro2::TokenStream = unit.expanded().parse().expect("lexes");
    let file = tokens.to_string();
    assert!(file.contains("CommandBuilder"));
    let decl = format!("pub struct {} {{ {} }}", unit.builder_name, unit.builder_fields.join(", "));
    let parsed: syn::DeriveInput = syn::parse_str(&decl).expect("builder struct parses");
    match parsed.data {
        syn::Data::Struct(s) => assert_eq!(s.fields.len(), 4),
        _ => panic!("builder is not a struct"),
    }
}

#[test]
fn empty_record_generates_empty_builder() {
    let unit = builder::derive(&RecordDescription::named("Empty", Vec::new())).expect("named struct");
    assert!(unit.builder_fields.is_empty());
    assert!(unit.setters.is_empty());
    assert_eq!(
        unit.expanded(),
        "pub struct EmptyBuilder {  } impl EmptyBuilder {  \
         pub fn build(&mut self) -> Result<Empty, Box<dyn std::error::Error>> { Ok(Empty {  }) } } \
         impl Empty { pub fn builder() -> EmptyBuilder { EmptyBuilder {  } } }"
    );
}

#[test]
fn other_shapes_generate_nothing() {
    for data in [RecordShape::Tuple(2), RecordShape::Unit, RecordShape::Enum, RecordShape::Union] {
        let input = RecordDescription { name: "T".to_string(), data };
        assert!(builder::derive(&input).is_none());
    }
}

#[test]
fn extract_fields_keeps_declaration_order() {
    let data = RecordShape::Named(command_fields());
    let idents: Vec<&str> = extract_fields(&data).iter().map(|f| f.ident.as_str()).collect();
    assert_eq!(idents, vec!["executable", "args", "env", "current_dir"]);
}

#[test]
fn fragments_join_with_commas_or_not() {
    let frags = vec!["a".to_string(), "b".to_string(), "c".to_string()];
    assert_eq!(join_fragments(&frags, true), "a, b, c");
    assert_eq!(join_fragments(&frags, false), "abc");
    assert_eq!(join_fragments(&Vec::new(), true), "");
    assert_eq!(join_fragments(&vec!["x".to_string()], true), "x");
}

#[test]
fn passes_follow_field_order() {
    let mut reordered = command_fields();
    reordered.reverse();
    let decls = expand_builder_fields(&reordered);
    assert_eq!(decls[0], "current_dir: Option<String>");
    assert_eq!(decls[3], "executable: Option<String>");
    let inits = expand_init_builder_fields(&reordered);
    assert_eq!(inits, vec!["current_dir: None", "env: None", "args: None", "executable: None"]);
    let setters = expand_setters(&reordered);
    assert!(setters[0].starts_with("pub fn current_dir(&mut self, current_dir: String)"));
    assert!(setters[3].starts_with("pub fn executable(&mut self, executable: String)"));
    let build = expand_build_method(&reordered, "Command");
    let first = build.find("current_dir:").unwrap();
    let last = build.find("executable:").unwrap();
    assert!(first < last);
}
