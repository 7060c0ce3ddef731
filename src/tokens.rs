use vstd::prelude::*;
use proc_macro2::{LexError, TokenStream};
use crate::expand::GeneratedUnit;
use crate::record::{RecordDescription, is_named_record};

verus! {

#[verifier::external_type_specification]
#[verifier::external_body]
pub struct ExTokenStream(proc_macro2::TokenStream);

#[verifier::external_type_specification]
#[verifier::external_body]
pub struct ExLexError(proc_macro2::LexError);

/// Why no tokens could be generated.
pub enum TokenError {
    /// The item is not a struct with named fields.
    UnsupportedShape,
    /// The generated text is not made of Rust tokens (a field's type text
    /// that does not lex).
    Unlexable,
}

/// Relies on proc_macro2's `FromStr for TokenStream`: lexes Rust source text
/// into tokens, or fails with a `LexError`; it does not panic.
#[verifier::external_body]
fn lex(src: &str) -> Result<TokenStream, LexError> {
    src.parse()
}

impl GeneratedUnit {
    /// The declarations of this unit as tokens: the text of `expanded`,
    /// lexed.
    pub fn to_tokens(&self) -> (r: Result<TokenStream, TokenError>)
        ensures
            r is Err ==> r matches Err(TokenError::Unlexable),
    {
        let text = self.expanded();
        match lex(text.as_str()) {
            Ok(tokens) => Ok(tokens),
            Err(_) => Err(TokenError::Unlexable),
        }
    }
}

/// Generates the builder of a record as tokens, ready to hand back to the
/// compiler. Fails with `UnsupportedShape` exactly when the item is not a
/// struct with named fields.
pub fn derive_tokens(input: &RecordDescription) -> (r: Result<TokenStream, TokenError>)
    ensures
        r matches Err(TokenError::UnsupportedShape) <==> !is_named_record(input.data),
{
    match crate::derive(input) {
        Some(unit) => unit.to_tokens(),
        None => Err(TokenError::UnsupportedShape),
    }
}

} // verus!
