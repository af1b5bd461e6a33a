use crate::error::{ErrorKind, Expected, ParseError};
use crate::generated::{
    declarations_tokens, entry_of, entry_tokens, field_of, field_tokens, value_declarations,
    Declaration, Entry, Field,
};
use crate::grammar::{parsed, property_at};
use crate::inline_table::{ChildInlineTablePrelude, InlineTable};
use crate::lexeme::{lemma_lexeme_group_view, text_is, Lexeme};
use crate::naming::{copy_chain, extend_chain, resolve_name};
use crate::token::{push_token, Delimiter, Token};
use crate::value::{ChildValue, Value, ValueView};
use vstd::prelude::*;

verus! {

/// A named value: `name = value`.
#[derive(Debug, PartialEq, Eq)]
pub struct Property(pub String, pub Value);

/// The mathematical value of a [`Property`].
pub struct PropertyView {
    pub name: Seq<char>,
    pub value: ValueView,
}

impl DeepView for Property {
    type V = PropertyView;

    open spec fn deep_view(&self) -> PropertyView
        decreases self, 0nat,
    {
        PropertyView { name: self.0@, value: self.1.deep_view() }
    }
}

impl Clone for Property {
    fn clone(&self) -> (copy: Property)
        ensures
            copy.deep_view() == self.deep_view(),
        decreases self,
    {
        Property(self.0.clone(), self.1.clone())
    }
}

impl Property {
    /// Reads the property that starts at `position`: a name, `=`, and a
    /// value, which is `true` or `false`, a number or string literal, or an
    /// inline table in braces. An expression of more than one token is no
    /// value.
    pub fn parse(input: &Vec<Lexeme>, position: usize) -> (result: Result<Property, ParseError>)
        ensures
            parsed(result) == property_at(input.deep_view(), position as int),
        decreases input, 1nat,
    {
        let len = input.len();
        if position >= len {
            return Err(ParseError { kind: ErrorKind::SyntaxError(Expected::Name), position });
        }
        let name = match input[position].name() {
            Some(name) => name,
            None => {
                return Err(ParseError { kind: ErrorKind::SyntaxError(Expected::Name), position });
            },
        };
        let next = position + 1;
        if next >= len || !input[next].is_punct('=') {
            return Err(
                ParseError { kind: ErrorKind::SyntaxError(Expected::Equals), position: next },
            );
        }
        let at = position + 2;
        if at >= len {
            return Err(ParseError { kind: ErrorKind::SyntaxError(Expected::Value), position: at });
        }
        let value = match &input[at] {
            Lexeme::Group(Delimiter::Brace, contents) => {
                proof {
                    lemma_lexeme_group_view(Delimiter::Brace, *contents);
                }
                match InlineTable::parse(contents) {
                    Ok(table) => Value::InlineTable(table),
                    Err(error) => {
                        return Err(ParseError { kind: error.kind, position: at });
                    },
                }
            },
            Lexeme::Ident { text, name: _, reach } => {
                if *reach == 1 && text_is(text, "true") {
                    Value::Boolean(true)
                } else if *reach == 1 && text_is(text, "false") {
                    Value::Boolean(false)
                } else {
                    return Err(ParseError { kind: ErrorKind::InvalidLiteral, position: at });
                }
            },
            Lexeme::Literal { literal, reach } => {
                if *reach != 1 {
                    return Err(ParseError { kind: ErrorKind::InvalidLiteral, position: at });
                }
                match Value::from_literal(literal.clone()) {
                    Ok(value) => value,
                    Err(kind) => {
                        return Err(ParseError { kind, position: at });
                    },
                }
            },
            _ => {
                return Err(ParseError { kind: ErrorKind::InvalidLiteral, position: at });
            },
        };
        Ok(Property(name, value))
    }

    /// Places the property under the aggregate reached by `ancestors`.
    pub fn into_child_property(self, ancestors: Vec<String>) -> (child: ChildProperty)
        ensures
            child.ancestors == ancestors,
            child.property == self,
    {
        ChildProperty { property: self, ancestors }
    }
}

/// A property together with the ancestor chain of the aggregate that holds
/// it. Written as tokens it is the field that holds the property.
#[derive(Debug, PartialEq, Eq)]
pub struct ChildProperty {
    pub ancestors: Vec<String>,
    pub property: Property,
}

impl ChildProperty {
    /// The field that holds the property.
    pub open spec fn field(&self) -> Field {
        field_of(self.ancestors.deep_view(), self.property.deep_view())
    }

    /// Appends the field declaration `name : type` to `tokens`.
    pub fn to_tokens(&self, tokens: &mut Vec<Token>)
        ensures
            final(tokens).deep_view() == old(tokens).deep_view() + field_tokens(self.field()),
    {
        let name = &self.property.0;
        push_token(tokens, Token::ident(name.as_str()));
        push_token(tokens, Token::punct(':'));
        match &self.property.1 {
            Value::Boolean(_) => push_token(tokens, Token::ident("bool")),
            Value::String(_) => push_token(tokens, Token::ident("String")),
            Value::Number(_) => push_token(tokens, Token::ident("f64")),
            Value::InlineTable(_) => {
                let chain = extend_chain(&self.ancestors, name.as_str());
                let struct_name = resolve_name(&chain);
                push_token(tokens, Token::ident(struct_name.as_str()));
            },
        }
    }
}

/// Written as tokens: the struct declarations that the property calls for.
#[derive(Debug, PartialEq, Eq)]
pub struct ChildPropertyPrelude(pub ChildProperty);

impl ChildPropertyPrelude {
    /// The declarations that the property calls for.
    pub open spec fn declarations(&self) -> Seq<Declaration> {
        value_declarations(self.0.ancestors.deep_view(), self.0.property.deep_view())
    }

    /// Appends to `tokens` the declaration of the property's inline table,
    /// after those of the inline tables inside it; nothing for a scalar.
    pub fn to_tokens(&self, tokens: &mut Vec<Token>)
        ensures
            final(tokens).deep_view() == old(tokens).deep_view() + declarations_tokens(
                self.declarations(),
            ),
    {
        if let Value::InlineTable(inline_table) = &self.0.property.1 {
            let child = ChildInlineTablePrelude(
                inline_table.clone().into_child_inline_table(
                    self.0.property.0.clone(),
                    copy_chain(&self.0.ancestors),
                ),
            );
            child.to_tokens(tokens);
        } else {
        }
    }
}

/// Written as tokens: the entry that gives the property's field its default.
#[derive(Debug, PartialEq, Eq)]
pub struct ChildPropertyDefault(pub ChildProperty);

impl std::ops::Deref for ChildPropertyDefault {
    type Target = ChildProperty;

    /// The property and its ancestor chain.
    fn deref(&self) -> (inner: &ChildProperty)
        ensures
            *inner == self.0,
    {
        &self.0
    }
}

impl ChildPropertyDefault {
    /// The entry that gives the property's field its default.
    pub open spec fn entry(&self) -> Entry {
        entry_of(self.0.ancestors.deep_view(), self.0.property.deep_view())
    }

    /// Appends `name : default` to `tokens`.
    pub fn to_tokens(&self, tokens: &mut Vec<Token>)
        ensures
            final(tokens).deep_view() == old(tokens).deep_view() + entry_tokens(self.entry()),
    {
        let name = self.0.property.0.clone();
        push_token(tokens, Token::ident(name.as_str()));
        push_token(tokens, Token::punct(':'));
        let value = ChildValue {
            value: self.0.property.1.clone(),
            ancestors: copy_chain(&self.0.ancestors),
            property_name: name,
        };
        value.to_tokens(tokens);
    }
}

} // verus!
