use vstd::prelude::*;

verus! {

/// What was expected where a token of the wrong kind, or none, was found.
#[derive(Clone, Copy, Debug, PartialEq, Eq, Structural)]
pub enum Expected {
    /// A table heading or the name of a property.
    Item,
    /// The name of a property.
    Name,
    /// `=` between the name of a property and its value.
    Equals,
    /// The value of a property.
    Value,
    /// `;` after a property of the root or of a table.
    Semicolon,
    /// `,` between the properties of an inline table.
    Comma,
    /// A single name between the brackets of a table heading.
    Heading,
}

/// Why a schema was rejected.
#[derive(Clone, Copy, Debug, PartialEq, Eq, Structural)]
pub enum ErrorKind {
    /// The tokens do not follow the grammar: a token of the wrong kind, a
    /// missing separator, or tokens that end too early.
    SyntaxError(Expected),
    /// Where a value is expected stands an expression that is not a single
    /// boolean, number or string literal, or a literal of another kind.
    InvalidLiteral,
    /// The schema opens with `#` but what follows is not `[name = Identifier]`.
    InvalidMetadata,
}

/// A rejected schema: the reason, and the index, among the tokens that were
/// read, of the token at which the fault lies. A fault inside a group is
/// reported at the group. An index equal to the number of tokens means that
/// they ended too early.
#[derive(Clone, Copy, Debug, PartialEq, Eq, Structural)]
pub struct ParseError {
    pub kind: ErrorKind,
    pub position: usize,
}

/// What is said of a fault of the given kind.
pub open spec fn message_of(kind: ErrorKind) -> Seq<char> {
    match kind {
        ErrorKind::SyntaxError(Expected::Item) => "expected item"@,
        ErrorKind::SyntaxError(Expected::Name) => "expected identifier"@,
        ErrorKind::SyntaxError(Expected::Equals) => "expected `=`"@,
        ErrorKind::SyntaxError(Expected::Value) => "expected value"@,
        ErrorKind::SyntaxError(Expected::Semicolon) => "expected `;`"@,
        ErrorKind::SyntaxError(Expected::Comma) => "expected `,`"@,
        ErrorKind::SyntaxError(Expected::Heading) => "expected one identifier as table heading"@,
        ErrorKind::InvalidLiteral => "invalid literal: expected a boolean, number or string"@,
        ErrorKind::InvalidMetadata => "invalid metadata: expected `name = Identifier`"@,
    }
}

impl ParseError {
    /// The message to show for the fault.
    pub fn message(&self) -> (text: String)
        ensures
            text@ == message_of(self.kind),
    {
        match self.kind {
            ErrorKind::SyntaxError(Expected::Item) => String::from_str("expected item"),
            ErrorKind::SyntaxError(Expected::Name) => String::from_str("expected identifier"),
            ErrorKind::SyntaxError(Expected::Equals) => String::from_str("expected `=`"),
            ErrorKind::SyntaxError(Expected::Value) => String::from_str("expected value"),
            ErrorKind::SyntaxError(Expected::Semicolon) => String::from_str("expected `;`"),
            ErrorKind::SyntaxError(Expected::Comma) => String::from_str("expected `,`"),
            ErrorKind::SyntaxError(Expected::Heading) => String::from_str(
                "expected one identifier as table heading",
            ),
            ErrorKind::InvalidLiteral => String::from_str(
                "invalid literal: expected a boolean, number or string",
            ),
            ErrorKind::InvalidMetadata => String::from_str(
                "invalid metadata: expected `name = Identifier`",
            ),
        }
    }
}

} // verus!
