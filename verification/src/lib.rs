//! A schema compiler. A schema is a small dialect of TOML, given as tokens:
//! properties with literal defaults, one level of named tables, and inline
//! tables nested to any depth. From it the compiler writes, again as tokens,
//! one struct for each table and inline table, the root struct, and the
//! root's `Default`, which builds every default of the schema.
//!
//! ```text
//! #[name = Config]
//! debug = false;
//! [server]
//! host = "0.0.0.0";
//! tls = { enabled = true, cert = "a.pem" };
//! ```
//!
//! gives `ConfigServerTls`, `ConfigServer` and `Config`, in that order, and
//! `impl Default for Config`.
//!
//! # What is handed over
//!
//! The schema comes as [`lexeme::Lexeme`]s: tokens that hold what the lexer
//! and the parser of the macro host make of them. A literal comes as what it
//! denotes, an identifier with whether it can serve as a name, and both
//! with the number of tokens that the expression that opens with them takes.
//! The compiler takes these as given and decides everything else. The code goes
//! out as [`token::Token`]s, in which a literal is again held by what it
//! denotes.
//!
//! # Where to look
//!
//! [`grammar`] says which tokens spell which schema, [`generated`] what code
//! a schema gives and how it is written down, and [`laws`] what holds of
//! both. The functions that read and write are methods of the types of the
//! schema: [`document::TomlDocument`], [`item::Item`], [`table::Table`],
//! [`property::Property`], [`inline_table::InlineTable`], [`value::Value`].
//!
//! # Known limits
//!
//! Names are not checked. Two properties of one table may have the same
//! name, and two nested types may resolve to the same name (`a_b` beside
//! `b` inside `a`): the code is generated all the same, with the name
//! declared twice, and it is for the compiler of the generated code to
//! refuse it.

pub mod document;
pub mod error;
pub mod generated;
pub mod grammar;
pub mod inline_table;
pub mod item;
pub mod laws;
pub mod lexeme;
pub mod naming;
pub mod property;
pub mod table;
pub mod token;
pub mod value;

use crate::document::TomlDocument;
use crate::error::ParseError;
use crate::generated::document_tokens;
use crate::grammar::{document_of, parsed};
use crate::lexeme::{Lexeme, LexemeView};
use crate::token::{Token, TokenView};
use vstd::prelude::*;

verus! {

/// The code generated for the schema that `tokens` spell, or the fault for
/// which the schema is rejected.
pub open spec fn compiled(tokens: Seq<LexemeView>) -> Result<Seq<TokenView>, ParseError> {
    match document_of(tokens) {
        Ok(document) => Ok(document_tokens(document)),
        Err(error) => Err(error),
    }
}

/// Compiles a schema: reads `input` and writes the generated code. A schema
/// with a fault gives the first fault and no code.
pub fn toml(input: &Vec<Lexeme>) -> (result: Result<Vec<Token>, ParseError>)
    ensures
        parsed(result) == compiled(input.deep_view()),
{
    match TomlDocument::parse(input) {
        Ok(document) => {
            let mut tokens: Vec<Token> = Vec::new();
            document.to_tokens(&mut tokens);
            Ok(tokens)
        },
        Err(error) => Err(error),
    }
}

} // verus!
