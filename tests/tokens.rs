use builder::tokens::{derive_tokens, TokenError};
use builder::{FieldDescription, RecordDescription, RecordShape};

#[test]
fn derive_tokens_lexes_the_builder() {
    let input = RecordDescription::named(
        "Command",
        vec![
            FieldDescription::new("executable", "String"),
            FieldDescription::new("args", "Vec < String >"),
        ],
    );
    let tokens = derive_tokens(&input).ok().expect("tokens");
    let text = tokens.to_string();
    assert!(text.contains("pub struct CommandBuilder"));
    assert!(text.contains("pub fn builder"));
    assert!(text.contains("\"field args missing!\""));
    assert!(!tokens.is_empty());
}

#[test]
fn derive_tokens_rejects_other_shapes() {
    let input = RecordDescription { name: "T".to_string(), data: RecordShape::Tuple(1) };
    assert!(matches!(derive_tokens(&input), Err(TokenError::UnsupportedShape)));
}

#[test]
fn derive_tokens_reports_unlexable_type_text() {
    let input = RecordDescription::named("T", vec![FieldDescription::new("a", "\"")]);
    assert!(matches!(derive_tokens(&input), Err(TokenError::Unlexable)));
}
