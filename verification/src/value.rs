use crate::error::ErrorKind;
use crate::generated::{initializer_of, initializer_tokens, Initializer};
use crate::grammar::literal_value;
use crate::inline_table::{ChildInlineTableDefault, InlineTable};
use crate::naming::copy_chain;
use crate::property::PropertyView;
use crate::token::{push_token, Delimiter, Literal, Token, TokenView};
use vstd::prelude::*;

verus! {

/// The value of a property.
#[derive(Debug, PartialEq, Eq)]
pub enum Value {
    Boolean(bool),
    /// A number, held as the text of the floating-point literal that denotes
    /// it: integer literals are brought to that form when they are read.
    Number(String),
    String(String),
    InlineTable(InlineTable),
}

/// The mathematical value of a [`Value`].
pub enum ValueView {
    Boolean(bool),
    Number(Seq<char>),
    String(Seq<char>),
    InlineTable(Seq<PropertyView>),
}

impl DeepView for Value {
    type V = ValueView;

    open spec fn deep_view(&self) -> ValueView
        decreases self, 0nat,
    {
        match self {
            Value::Boolean(b) => ValueView::Boolean(*b),
            Value::Number(text) => ValueView::Number(text@),
            Value::String(text) => ValueView::String(text@),
            Value::InlineTable(table) => ValueView::InlineTable(table.deep_view()),
        }
    }
}

impl Value {
    /// The value that a literal denotes: a string its contents, a number the
    /// text of a floating-point literal, to which the digits of an integer
    /// are brought by the suffix `.0`. A literal of another kind denotes no
    /// value.
    pub fn from_literal(literal: Literal) -> (result: Result<Value, ErrorKind>)
        ensures
            match result {
                Ok(value) => literal_value(literal.deep_view()) == Ok::<ValueView, ErrorKind>(
                    value.deep_view(),
                ),
                Err(kind) => literal_value(literal.deep_view()) == Err::<ValueView, ErrorKind>(
                    kind,
                ),
            },
    {
        match literal {
            Literal::Str(contents) => Ok(Value::String(contents)),
            Literal::Int(digits) => {
                let mut text = digits;
                text.append(".0");
                Ok(Value::Number(text))
            },
            Literal::Float(digits) => Ok(Value::Number(digits)),
            Literal::ByteStr(_) => Err(ErrorKind::InvalidLiteral),
            Literal::CStr(_) => Err(ErrorKind::InvalidLiteral),
            Literal::Byte(_) => Err(ErrorKind::InvalidLiteral),
            Literal::Char(_) => Err(ErrorKind::InvalidLiteral),
            Literal::Verbatim(_) => Err(ErrorKind::InvalidLiteral),
        }
    }
}

impl Clone for Value {
    fn clone(&self) -> (copy: Value)
        ensures
            copy.deep_view() == self.deep_view(),
        decreases self,
    {
        match self {
            Value::Boolean(b) => Value::Boolean(*b),
            Value::Number(text) => Value::Number(text.clone()),
            Value::String(text) => Value::String(text.clone()),
            Value::InlineTable(table) => Value::InlineTable(table.clone()),
        }
    }
}

/// A value together with the name of the property that holds it and the
/// ancestor chain of the aggregate that holds that property. Written as
/// tokens it is the value's default expression.
#[derive(Debug, PartialEq, Eq)]
pub struct ChildValue {
    pub value: Value,
    pub ancestors: Vec<String>,
    pub property_name: String,
}

impl ChildValue {
    /// The property that holds the value.
    pub open spec fn property(&self) -> PropertyView {
        PropertyView { name: self.property_name@, value: self.value.deep_view() }
    }

    /// The value's default expression.
    pub open spec fn initializer(&self) -> Initializer {
        initializer_of(self.ancestors.deep_view(), self.property())
    }

    /// Appends the default expression to `tokens`: `true` or `false` for a
    /// boolean, the floating-point literal for a number, the string literal
    /// turned into an owned string for a string, the struct expression for
    /// an inline table.
    pub fn to_tokens(&self, tokens: &mut Vec<Token>)
        ensures
            final(tokens).deep_view() == old(tokens).deep_view() + initializer_tokens(
                self.initializer(),
            ),
        decreases self.value.deep_view(), 0nat,
    {
        match &self.value {
            Value::Boolean(value) => {
                if *value {
                    push_token(tokens, Token::ident("true"));
                } else {
                    push_token(tokens, Token::ident("false"));
                }
            },
            Value::String(value) => {
                push_token(tokens, Token::Literal(Literal::Str(value.clone())));
                push_token(tokens, Token::punct('.'));
                push_token(tokens, Token::ident("into"));
                let arguments: Vec<Token> = Vec::new();
                assert(arguments.deep_view() =~= Seq::<TokenView>::empty());
                push_token(tokens, Token::group(Delimiter::Parenthesis, arguments));
            },
            Value::Number(value) => {
                push_token(tokens, Token::Literal(Literal::Float(value.clone())));
            },
            Value::InlineTable(value) => {
                let default = ChildInlineTableDefault(
                    value.clone().into_child_inline_table(
                        self.property_name.clone(),
                        copy_chain(&self.ancestors),
                    ),
                );
                default.to_tokens(tokens);
            },
        }
    }
}

} // verus!
