use crate::error::{ErrorKind, Expected, ParseError};
use crate::generated::{
    declarations_tokens, entry_tokens, field_tokens, table_declarations, table_entry, table_field,
    Declaration, Entry, Field,
};
use crate::grammar::{
    contents_width, lemma_prepend_push, prepend, remaining, table_at, table_contents_at,
};
use crate::inline_table::{copy_properties, write_constructor, write_declarations};
use crate::lexeme::{lemma_lexeme_group_view, Lexeme};
use crate::naming::{extend_chain, resolve_name};
use crate::property::{Property, PropertyView};
use crate::token::{punct, push_token, Delimiter, Token};
use vstd::prelude::*;

verus! {

/// The properties that follow a table heading, in the order written.
#[derive(Debug, PartialEq, Eq)]
pub struct TableContents(pub Vec<Property>);

impl DeepView for TableContents {
    type V = Seq<PropertyView>;

    open spec fn deep_view(&self) -> Seq<PropertyView> {
        self.0.deep_view()
    }
}

impl TableContents {
    /// Reads the properties under a table heading, from `position` on: as
    /// long as a name comes next, a property and `;`. Returns them
    /// with the position after the last `;`.
    pub fn parse(input: &Vec<Lexeme>, position: usize) -> (result: Result<
        (TableContents, usize),
        ParseError,
    >)
        ensures
            match result {
                Ok((contents, next)) => {
                    &&& table_contents_at(input.deep_view(), position as int) == Ok::<
                        Seq<PropertyView>,
                        ParseError,
                    >(contents.deep_view())
                    &&& next == position + contents_width(contents.deep_view())
                    &&& position <= input.len() ==> next <= input.len()
                },
                Err(error) => table_contents_at(input.deep_view(), position as int) == Err::<
                    Seq<PropertyView>,
                    ParseError,
                >(error),
            },
    {
        let ghost tokens = input.deep_view();
        let len = input.len();
        let mut properties: Vec<Property> = Vec::new();
        let mut at: usize = position;
        loop
            invariant
                len == input.len(),
                tokens == input.deep_view(),
                position <= len ==> at <= len,
                at == position + 4 * properties.len(),
                table_contents_at(tokens, position as int) == prepend(
                    properties.deep_view(),
                    table_contents_at(tokens, at as int),
                ),
            ensures
                table_contents_at(tokens, at as int) == Ok::<Seq<PropertyView>, ParseError>(
                    Seq::empty(),
                ),
            decreases remaining(tokens, at as int),
        {
            if at >= len {
                break;
            }
            if input[at].name().is_none() {
                break;
            }
            let ghost before = properties.deep_view();
            let property = match Property::parse(input, at) {
                Ok(property) => property,
                Err(error) => {
                    return Err(error);
                },
            };
            let after = at + 3;
            if after >= len {
                return Err(
                    ParseError {
                        kind: ErrorKind::SyntaxError(Expected::Semicolon),
                        position: after,
                    },
                );
            }
            if !input[after].is_punct(';') {
                return Err(
                    ParseError {
                        kind: ErrorKind::SyntaxError(Expected::Semicolon),
                        position: after,
                    },
                );
            }
            proof {
                lemma_prepend_push(
                    before,
                    property.deep_view(),
                    table_contents_at(tokens, after + 1),
                );
            }
            properties.push(property);
            assert(properties.deep_view() =~= before.push(property.deep_view()));
            at = after + 1;
        }
        Ok((TableContents(properties), at))
    }
}

impl Clone for TableContents {
    fn clone(&self) -> (copy: TableContents)
        ensures
            copy.deep_view() == self.deep_view(),
    {
        TableContents(copy_properties(&self.0))
    }
}

/// A named table: `[heading]` and the properties under it.
#[derive(Debug, PartialEq, Eq)]
pub struct Table {
    pub heading: String,
    pub contents: TableContents,
}

/// The mathematical value of a [`Table`].
pub struct TableView {
    pub heading: Seq<char>,
    pub contents: Seq<PropertyView>,
}

impl DeepView for Table {
    type V = TableView;

    open spec fn deep_view(&self) -> TableView {
        TableView { heading: self.heading@, contents: self.contents.deep_view() }
    }
}

impl Clone for Table {
    fn clone(&self) -> (copy: Table)
        ensures
            copy.deep_view() == self.deep_view(),
    {
        Table { heading: self.heading.clone(), contents: self.contents.clone() }
    }
}

impl Table {
    /// Reads the table that starts at `position`: a heading in square
    /// brackets, which holds one name, and the properties under it.
    /// Returns the table with the position after it.
    pub fn parse(input: &Vec<Lexeme>, position: usize) -> (result: Result<
        (Table, usize),
        ParseError,
    >)
        ensures
            match result {
                Ok((table, next)) => {
                    &&& table_at(input.deep_view(), position as int) == Ok::<
                        TableView,
                        ParseError,
                    >(table.deep_view())
                    &&& next == position + 1 + contents_width(table.deep_view().contents)
                    &&& next <= input.len()
                },
                Err(error) => table_at(input.deep_view(), position as int) == Err::<
                    TableView,
                    ParseError,
                >(error),
            },
    {
        if position >= input.len() {
            return Err(ParseError { kind: ErrorKind::SyntaxError(Expected::Item), position });
        }
        let heading = match &input[position] {
            Lexeme::Group(Delimiter::Bracket, heading) => {
                proof {
                    lemma_lexeme_group_view(Delimiter::Bracket, *heading);
                }
                if heading.len() != 1 {
                    return Err(
                        ParseError { kind: ErrorKind::SyntaxError(Expected::Heading), position },
                    );
                }
                match heading[0].name() {
                    Some(name) => name,
                    None => {
                        return Err(
                            ParseError {
                                kind: ErrorKind::SyntaxError(Expected::Heading),
                                position,
                            },
                        );
                    },
                }
            },
            _ => {
                return Err(ParseError { kind: ErrorKind::SyntaxError(Expected::Item), position });
            },
        };
        match TableContents::parse(input, position + 1) {
            Ok((contents, next)) => Ok((Table { heading, contents }, next)),
            Err(error) => Err(error),
        }
    }

    /// Places the table under the aggregate reached by `ancestors`.
    pub fn into_child_table(self, ancestors: Vec<String>) -> (child: ChildTable)
        ensures
            child.table == self,
            child.ancestors == ancestors,
    {
        ChildTable { table: self, ancestors }
    }
}

/// A table together with the ancestor chain of the aggregate that holds it.
/// Written as tokens it is the field that holds the table.
#[derive(Debug, PartialEq, Eq)]
pub struct ChildTable {
    pub table: Table,
    pub ancestors: Vec<String>,
}

impl ChildTable {
    /// The ancestor chain of the table itself.
    pub open spec fn chain(&self) -> Seq<Seq<char>> {
        self.ancestors.deep_view().push(self.table.heading@)
    }

    /// The field that holds the table.
    pub open spec fn field(&self) -> Field {
        table_field(self.ancestors.deep_view(), self.table.deep_view())
    }

    /// Appends the field declaration `heading : Name` to `tokens`.
    pub fn to_tokens(&self, tokens: &mut Vec<Token>)
        ensures
            final(tokens).deep_view() == old(tokens).deep_view() + field_tokens(self.field()),
    {
        let chain = extend_chain(&self.ancestors, self.table.heading.as_str());
        let heading_type = resolve_name(&chain);
        let heading = &self.table.heading;
        push_token(tokens, Token::ident(heading.as_str()));
        push_token(tokens, Token::punct(':'));
        push_token(tokens, Token::ident(heading_type.as_str()));
    }
}

/// Written as tokens: the struct declared for the table, after the structs of
/// the inline tables among its properties.
#[derive(Debug, PartialEq, Eq)]
pub struct ChildTablePrelude(pub ChildTable);

impl std::ops::Deref for ChildTablePrelude {
    type Target = ChildTable;

    /// The table and its ancestor chain.
    fn deref(&self) -> (inner: &ChildTable)
        ensures
            *inner == self.0,
    {
        &self.0
    }
}

impl ChildTablePrelude {
    /// The declarations that the table calls for.
    pub open spec fn declarations(&self) -> Seq<Declaration> {
        table_declarations(self.0.ancestors.deep_view(), self.0.table.deep_view())
    }

    /// Appends to `tokens` the declarations of the inline tables among the
    /// properties, each with those nested in it, in the order of the
    /// properties; then `struct Name { fields }` for the table itself.
    pub fn to_tokens(&self, tokens: &mut Vec<Token>)
        ensures
            final(tokens).deep_view() == old(tokens).deep_view() + declarations_tokens(
                self.declarations(),
            ),
    {
        let chain = extend_chain(&self.0.ancestors, self.0.table.heading.as_str());
        write_declarations(&chain, &self.0.table.contents.0, false, tokens);
    }
}

/// Written as tokens: the entry that gives the table's field its default.
#[derive(Debug, PartialEq, Eq)]
pub struct ChildTableDefault(pub ChildTable);

impl std::ops::Deref for ChildTableDefault {
    type Target = ChildTable;

    /// The table and its ancestor chain.
    fn deref(&self) -> (inner: &ChildTable)
        ensures
            *inner == self.0,
    {
        &self.0
    }
}

impl ChildTableDefault {
    /// The entry that gives the table's field its default.
    pub open spec fn entry(&self) -> Entry {
        table_entry(self.0.ancestors.deep_view(), self.0.table.deep_view())
    }

    /// Appends `heading : Name { name : default , ... }` to `tokens`, with
    /// one entry for each property, in the order of the properties.
    pub fn to_tokens(&self, tokens: &mut Vec<Token>)
        ensures
            final(tokens).deep_view() == old(tokens).deep_view() + entry_tokens(self.entry()),
    {
        let chain = extend_chain(&self.0.ancestors, self.0.table.heading.as_str());
        let heading = self.0.table.heading.clone();
        push_token(tokens, Token::ident(heading.as_str()));
        push_token(tokens, Token::punct(':'));
        write_constructor(&chain, &self.0.table.contents.0, tokens);
    }
}

} // verus!
