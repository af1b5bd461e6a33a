//! The grammar of a schema, over tokens:
//!
//! ```text
//! Document    := Metadata? Item*
//! Metadata    := '#' '[' 'name' '=' Identifier ']'
//! Item        := Table | Property ';'
//! Table       := '[' Identifier ']' (Property ';')*
//! Property    := Identifier '=' Value
//! Value       := 'true' | 'false' | Number | String | InlineTable
//! InlineTable := '{' (Property (',' Property)* ','?)? '}'
//! ```
//!
//! An identifier is an identifier token other than `_` and the keywords. A
//! value is a single token, so a property spans three tokens; where an
//! expression of more than one token stands for the value, the value is
//! invalid. Each
//! function reports a fault by the index of the offending token in the
//! sequence it was given; a fault inside a group is reported by the caller at
//! the index of the group.

use crate::document::DocumentView;
use crate::error::{ErrorKind, Expected, ParseError};
use crate::item::ItemView;
use crate::lexeme::{is_punct, name_of, LexemeView};
use crate::property::PropertyView;
use crate::table::TableView;
use crate::token::{Delimiter, LiteralView};
use crate::value::ValueView;
use vstd::prelude::*;

verus! {

/// A fault of the given kind at the given index.
pub open spec fn fault(kind: ErrorKind, position: int) -> ParseError {
    ParseError { kind, position: position as usize }
}

/// The outcome of a parser, with what was built taken by its view.
pub open spec fn parsed<T: DeepView>(result: Result<T, ParseError>) -> Result<T::V, ParseError> {
    match result {
        Ok(value) => Ok(value.deep_view()),
        Err(error) => Err(error),
    }
}

/// The number of tokens of a property.
pub open spec fn property_width() -> int {
    3
}

/// The value that a literal denotes: a string its contents, a number the
/// text of a floating-point literal, to which the digits of an integer are
/// brought by the suffix `.0`. A literal of another kind denotes no value.
pub open spec fn literal_value(literal: LiteralView) -> Result<ValueView, ErrorKind> {
    match literal {
        LiteralView::Str(contents) => Ok(ValueView::String(contents)),
        LiteralView::Int(digits) => Ok(ValueView::Number(digits + ".0"@)),
        LiteralView::Float(digits) => Ok(ValueView::Number(digits)),
        LiteralView::ByteStr(_) => Err(ErrorKind::InvalidLiteral),
        LiteralView::CStr(_) => Err(ErrorKind::InvalidLiteral),
        LiteralView::Byte(_) => Err(ErrorKind::InvalidLiteral),
        LiteralView::Char(_) => Err(ErrorKind::InvalidLiteral),
        LiteralView::Verbatim(_) => Err(ErrorKind::InvalidLiteral),
    }
}

/// Whether the expression that opens with a token of the given reach is
/// that token and no more.
pub open spec fn stands_alone(reach: usize) -> bool {
    reach == 1
}

/// The value written at `position`: an inline table in braces, or `true`,
/// `false`, or a literal that denotes a value, where the token stands
/// alone. Where an expression of more tokens opens there, or a token that
/// is none of these stands there, the value is invalid.
pub open spec fn value_at(tokens: Seq<LexemeView>, position: int) -> Result<ValueView, ErrorKind>
    decreases tokens, 0nat,
{
    if position < 0 || position >= tokens.len() {
        Err(ErrorKind::SyntaxError(Expected::Value))
    } else {
        match tokens[position] {
            LexemeView::Group(Delimiter::Brace, contents) => match inline_table_from(contents, 0) {
                Ok(properties) => Ok(ValueView::InlineTable(properties)),
                Err(error) => Err(error.kind),
            },
            LexemeView::Ident { text, reach, .. } => if stands_alone(reach) && text == "true"@ {
                Ok(ValueView::Boolean(true))
            } else if stands_alone(reach) && text == "false"@ {
                Ok(ValueView::Boolean(false))
            } else {
                Err(ErrorKind::InvalidLiteral)
            },
            LexemeView::Literal { literal, reach } => if stands_alone(reach) {
                literal_value(literal)
            } else {
                Err(ErrorKind::InvalidLiteral)
            },
            _ => Err(ErrorKind::InvalidLiteral),
        }
    }
}

/// The property written at `position`: a name, `=`, and a value.
pub open spec fn property_at(tokens: Seq<LexemeView>, position: int) -> Result<
    PropertyView,
    ParseError,
>
    decreases tokens, 1nat,
{
    if position < 0 || position >= tokens.len() || name_of(tokens[position]) is None {
        Err(fault(ErrorKind::SyntaxError(Expected::Name), position))
    } else if position + 1 >= tokens.len() || !is_punct(tokens[position + 1], '=') {
        Err(fault(ErrorKind::SyntaxError(Expected::Equals), position + 1))
    } else {
        match value_at(tokens, position + 2) {
            Ok(value) => Ok(PropertyView { name: name_of(tokens[position])->Some_0, value }),
            Err(kind) => Err(fault(kind, position + 2)),
        }
    }
}

/// `first` and then what `rest` holds, or the fault of `rest`.
pub open spec fn prepend<T>(first: Seq<T>, rest: Result<Seq<T>, ParseError>) -> Result<
    Seq<T>,
    ParseError,
> {
    match rest {
        Ok(more) => Ok(first + more),
        Err(error) => Err(error),
    }
}

/// The properties written between braces from `position` on: separated by
/// commas, with an optional comma after the last.
pub open spec fn inline_table_from(contents: Seq<LexemeView>, position: int) -> Result<
    Seq<PropertyView>,
    ParseError,
>
    decreases contents, contents.len() - position + 2,
{
    if position < 0 || position >= contents.len() {
        Ok(Seq::empty())
    } else {
        match property_at(contents, position) {
            Err(error) => Err(error),
            Ok(property) => {
                let after = position + property_width();
                if after >= contents.len() {
                    Ok(seq![property])
                } else if !is_punct(contents[after], ',') {
                    Err(fault(ErrorKind::SyntaxError(Expected::Comma), after))
                } else {
                    prepend(seq![property], inline_table_from(contents, after + 1))
                }
            },
        }
    }
}

/// The properties under a table heading, from `position` on: as long as a
/// name comes next, a property and `;`.
pub open spec fn table_contents_at(tokens: Seq<LexemeView>, position: int) -> Result<
    Seq<PropertyView>,
    ParseError,
>
    decreases tokens.len() - position,
{
    if position < 0 || position >= tokens.len() || name_of(tokens[position]) is None {
        Ok(Seq::empty())
    } else {
        match property_at(tokens, position) {
            Err(error) => Err(error),
            Ok(property) => {
                let after = position + property_width();
                if after >= tokens.len() || !is_punct(tokens[after], ';') {
                    Err(fault(ErrorKind::SyntaxError(Expected::Semicolon), after))
                } else {
                    prepend(seq![property], table_contents_at(tokens, after + 1))
                }
            },
        }
    }
}

/// The number of tokens of the properties under a table heading: each is
/// followed by `;`.
pub open spec fn contents_width(properties: Seq<PropertyView>) -> nat {
    4 * properties.len()
}

/// The table written at `position`: a heading in square brackets, which
/// holds one name, and the properties under it.
pub open spec fn table_at(tokens: Seq<LexemeView>, position: int) -> Result<TableView, ParseError> {
    if position < 0 || position >= tokens.len() {
        Err(fault(ErrorKind::SyntaxError(Expected::Item), position))
    } else {
        match tokens[position] {
            LexemeView::Group(Delimiter::Bracket, heading) => {
                if heading.len() == 1 && name_of(heading[0]) is Some {
                    match table_contents_at(tokens, position + 1) {
                        Ok(contents) => Ok(
                            TableView { heading: name_of(heading[0])->Some_0, contents },
                        ),
                        Err(error) => Err(error),
                    }
                } else {
                    Err(fault(ErrorKind::SyntaxError(Expected::Heading), position))
                }
            },
            _ => Err(fault(ErrorKind::SyntaxError(Expected::Item), position)),
        }
    }
}

/// The item written at `position`: a table where a bracket group stands, a
/// property and `;` where a name stands.
pub open spec fn item_at(tokens: Seq<LexemeView>, position: int) -> Result<ItemView, ParseError> {
    if position < 0 || position >= tokens.len() {
        Err(fault(ErrorKind::SyntaxError(Expected::Item), position))
    } else if name_of(tokens[position]) is Some {
        match property_at(tokens, position) {
            Ok(property) => {
                let after = position + property_width();
                if after >= tokens.len() || !is_punct(tokens[after], ';') {
                    Err(fault(ErrorKind::SyntaxError(Expected::Semicolon), after))
                } else {
                    Ok(ItemView::Property(property))
                }
            },
            Err(error) => Err(error),
        }
    } else {
        match table_at(tokens, position) {
            Ok(table) => Ok(ItemView::Table(table)),
            Err(error) => Err(error),
        }
    }
}

/// The number of tokens of an item after its first.
pub open spec fn item_tail(item: ItemView) -> nat {
    match item {
        ItemView::Table(table) => contents_width(table.contents),
        ItemView::Property(_) => 3,
    }
}

/// The number of tokens of an item.
pub open spec fn item_width(item: ItemView) -> nat {
    1 + item_tail(item)
}

/// The number of tokens from `position` to the end.
pub open spec fn remaining(tokens: Seq<LexemeView>, position: int) -> nat {
    if 0 <= position < tokens.len() {
        (tokens.len() - position) as nat
    } else {
        0
    }
}

/// The items written from `position` to the end.
pub open spec fn items_from(tokens: Seq<LexemeView>, position: int) -> Result<
    Seq<ItemView>,
    ParseError,
>
    decreases remaining(tokens, position),
{
    if position < 0 || position >= tokens.len() {
        Ok(Seq::empty())
    } else {
        match item_at(tokens, position) {
            Err(error) => Err(error),
            Ok(item) => {
                let after = position + item_width(item);
                prepend(seq![item], items_from(tokens, after))
            },
        }
    }
}

/// The root type's name that the contents of the metadata brackets give:
/// they must be the name `name`, `=`, a name, and nothing else.
pub open spec fn metadata_of(contents: Seq<LexemeView>) -> Result<Seq<char>, ParseError> {
    if contents.len() < 1 || name_of(contents[0]) != Some("name"@) {
        Err(fault(ErrorKind::InvalidMetadata, 0))
    } else if contents.len() < 2 || !is_punct(contents[1], '=') {
        Err(fault(ErrorKind::InvalidMetadata, 1))
    } else if contents.len() < 3 || name_of(contents[2]) is None {
        Err(fault(ErrorKind::InvalidMetadata, 2))
    } else if contents.len() > 3 {
        Err(fault(ErrorKind::InvalidMetadata, 3))
    } else {
        Ok(name_of(contents[2])->Some_0)
    }
}

/// The name of the root type of a schema that gives none.
pub open spec fn default_root_name() -> Seq<char> {
    "Root"@
}

/// The schema that opens with `#`: the token after it must be the metadata
/// in square brackets, and the items follow.
pub open spec fn annotated_document_of(tokens: Seq<LexemeView>) -> Result<
    DocumentView,
    ParseError,
> {
    if tokens.len() < 2 {
        Err(fault(ErrorKind::InvalidMetadata, 1))
    } else {
        match tokens[1] {
            LexemeView::Group(Delimiter::Bracket, contents) => match metadata_of(contents) {
                Ok(name) => match items_from(tokens, 2) {
                    Ok(items) => Ok(DocumentView { name, items }),
                    Err(error) => Err(error),
                },
                Err(_) => Err(fault(ErrorKind::InvalidMetadata, 1)),
            },
            _ => Err(fault(ErrorKind::InvalidMetadata, 1)),
        }
    }
}

/// The schema that `tokens` spell. Without metadata the root type has the
/// default name.
pub open spec fn document_of(tokens: Seq<LexemeView>) -> Result<DocumentView, ParseError> {
    if tokens.len() > 0 && is_punct(tokens[0], '#') {
        annotated_document_of(tokens)
    } else {
        match items_from(tokens, 0) {
            Ok(items) => Ok(DocumentView { name: default_root_name(), items }),
            Err(error) => Err(error),
        }
    }
}

/// Reading on after one more property: what was read before, then that
/// property, then the rest.
pub proof fn lemma_prepend_push<T>(first: Seq<T>, next: T, rest: Result<Seq<T>, ParseError>)
    ensures
        prepend(first, prepend(seq![next], rest)) == prepend(first.push(next), rest),
{
    if let Ok(more) = rest {
        assert(first + (seq![next] + more) =~= first.push(next) + more);
    }
}

} // verus!
