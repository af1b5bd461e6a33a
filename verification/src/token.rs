use vstd::prelude::*;

verus! {

/// How a group of tokens is bracketed.
#[derive(Clone, Copy, Debug, PartialEq, Eq, Structural)]
pub enum Delimiter {
    Parenthesis,
    Brace,
    Bracket,
    Invisible,
}

/// Whether a punctuation character is glued to the punctuation that follows it.
#[derive(Clone, Copy, Debug, PartialEq, Eq, Structural)]
pub enum Spacing {
    Alone,
    Joint,
}

/// What a literal token denotes, by its kind. A string literal is held by
/// its contents and a number by its digits in base ten, which is what a
/// schema can use; a literal of another kind is held by its source text.
#[derive(Debug, PartialEq, Eq)]
pub enum Literal {
    /// A string literal, by its contents (escapes resolved).
    Str(String),
    /// A byte string literal.
    ByteStr(String),
    /// A C string literal.
    CStr(String),
    /// A byte literal.
    Byte(String),
    /// A character literal.
    Char(String),
    /// An integer literal, by its digits in base ten.
    Int(String),
    /// A floating-point literal, by its digits in base ten, with the point
    /// and the exponent where it has them.
    Float(String),
    /// A literal of no kind above.
    Verbatim(String),
}

/// The mathematical value of a [`Literal`].
pub enum LiteralView {
    Str(Seq<char>),
    ByteStr(Seq<char>),
    CStr(Seq<char>),
    Byte(Seq<char>),
    Char(Seq<char>),
    Int(Seq<char>),
    Float(Seq<char>),
    Verbatim(Seq<char>),
}

impl DeepView for Literal {
    type V = LiteralView;

    open spec fn deep_view(&self) -> LiteralView {
        match self {
            Literal::Str(contents) => LiteralView::Str(contents@),
            Literal::ByteStr(text) => LiteralView::ByteStr(text@),
            Literal::CStr(text) => LiteralView::CStr(text@),
            Literal::Byte(text) => LiteralView::Byte(text@),
            Literal::Char(text) => LiteralView::Char(text@),
            Literal::Int(digits) => LiteralView::Int(digits@),
            Literal::Float(digits) => LiteralView::Float(digits@),
            Literal::Verbatim(text) => LiteralView::Verbatim(text@),
        }
    }
}

impl Clone for Literal {
    fn clone(&self) -> (copy: Literal)
        ensures
            copy.deep_view() == self.deep_view(),
    {
        match self {
            Literal::Str(contents) => Literal::Str(contents.clone()),
            Literal::ByteStr(text) => Literal::ByteStr(text.clone()),
            Literal::CStr(text) => Literal::CStr(text.clone()),
            Literal::Byte(text) => Literal::Byte(text.clone()),
            Literal::Char(text) => Literal::Char(text.clone()),
            Literal::Int(digits) => Literal::Int(digits.clone()),
            Literal::Float(digits) => Literal::Float(digits.clone()),
            Literal::Verbatim(text) => Literal::Verbatim(text.clone()),
        }
    }
}

/// One token of the generated code.
#[derive(Debug, PartialEq, Eq)]
pub enum Token {
    /// An identifier or keyword, by its text.
    Ident(String),
    /// A single punctuation character.
    Punct(char, Spacing),
    /// A literal, by what it denotes.
    Literal(Literal),
    /// A bracketed run of tokens.
    Group(Delimiter, Vec<Token>),
}

/// The mathematical value of a [`Token`].
pub enum TokenView {
    Ident(Seq<char>),
    Punct(char, Spacing),
    Literal(LiteralView),
    Group(Delimiter, Seq<TokenView>),
}

/// The views of the first `n` tokens of `tokens`.
pub open spec fn token_views_upto(tokens: &Vec<Token>, n: nat) -> Seq<TokenView>
    decreases tokens, n,
{
    if n == 0 || n > tokens.len() {
        Seq::empty()
    } else {
        token_views_upto(tokens, (n - 1) as nat).push(tokens[n - 1].deep_view())
    }
}

impl DeepView for Token {
    type V = TokenView;

    open spec fn deep_view(&self) -> TokenView
        decreases self, 0nat,
    {
        match self {
            Token::Ident(text) => TokenView::Ident(text@),
            Token::Punct(c, spacing) => TokenView::Punct(*c, *spacing),
            Token::Literal(literal) => TokenView::Literal(literal.deep_view()),
            Token::Group(delimiter, inner) => TokenView::Group(
                *delimiter,
                token_views_upto(inner, inner.len() as nat),
            ),
        }
    }
}

/// The identifier token with the given text.
pub open spec fn ident(text: Seq<char>) -> TokenView {
    TokenView::Ident(text)
}

/// The punctuation token `c`, standing alone.
pub open spec fn punct(c: char) -> TokenView {
    TokenView::Punct(c, Spacing::Alone)
}

/// The punctuation token `c`, glued to the next one.
pub open spec fn joint(c: char) -> TokenView {
    TokenView::Punct(c, Spacing::Joint)
}

/// The token of the given literal.
pub open spec fn literal(literal: LiteralView) -> TokenView {
    TokenView::Literal(literal)
}

/// A group in braces.
pub open spec fn braces(inner: Seq<TokenView>) -> TokenView {
    TokenView::Group(Delimiter::Brace, inner)
}

/// A group in parentheses.
pub open spec fn parens(inner: Seq<TokenView>) -> TokenView {
    TokenView::Group(Delimiter::Parenthesis, inner)
}

/// The first `n` views of a vector of tokens are a prefix of its view.
pub proof fn lemma_token_views_upto(tokens: &Vec<Token>, n: nat)
    requires
        n <= tokens.len(),
    ensures
        token_views_upto(tokens, n) == tokens.deep_view().take(n as int),
    decreases n,
{
    if n > 0 {
        lemma_token_views_upto(tokens, (n - 1) as nat);
        assert(tokens.deep_view()[n - 1] == tokens[n - 1].deep_view());
    }
}

/// The view of a group is the view of its contents, token by token.
pub proof fn lemma_group_view(delimiter: Delimiter, inner: Vec<Token>)
    ensures
        Token::Group(delimiter, inner).deep_view() == TokenView::Group(
            delimiter,
            inner.deep_view(),
        ),
{
    lemma_token_views_upto(&inner, inner.len() as nat);
    assert(inner.deep_view().take(inner.len() as int) =~= inner.deep_view());
}

impl Token {
    /// An identifier token.
    pub fn ident(text: &str) -> (token: Token)
        ensures
            token.deep_view() == ident(text@),
    {
        Token::Ident(String::from_str(text))
    }

    /// A punctuation token that stands alone.
    pub fn punct(c: char) -> (token: Token)
        ensures
            token.deep_view() == punct(c),
    {
        Token::Punct(c, Spacing::Alone)
    }

    /// A punctuation token glued to the punctuation after it.
    pub fn joint(c: char) -> (token: Token)
        ensures
            token.deep_view() == joint(c),
    {
        Token::Punct(c, Spacing::Joint)
    }

    /// A group of tokens inside the given brackets.
    pub fn group(delimiter: Delimiter, inner: Vec<Token>) -> (token: Token)
        ensures
            token.deep_view() == TokenView::Group(delimiter, inner.deep_view()),
    {
        proof {
            lemma_group_view(delimiter, inner);
        }
        Token::Group(delimiter, inner)
    }
}

impl Clone for Token {
    fn clone(&self) -> (copy: Token)
        ensures
            copy.deep_view() == self.deep_view(),
        decreases self,
    {
        match self {
            Token::Ident(text) => Token::Ident(text.clone()),
            Token::Punct(c, spacing) => Token::Punct(*c, *spacing),
            Token::Literal(literal) => Token::Literal(literal.clone()),
            Token::Group(delimiter, inner) => {
                let mut copies: Vec<Token> = Vec::new();
                let mut i: usize = 0;
                while i < inner.len()
                    invariant
                        i <= inner.len(),
                        copies.len() == i,
                        self is Group,
                        self->Group_1 == *inner,
                        forall|k: int| 0 <= k < i ==> copies[k].deep_view() == inner[k].deep_view(),
                    decreases inner.len() - i,
                {
                    copies.push(inner[i].clone());
                    i += 1;
                }
                assert(copies.deep_view() =~= inner.deep_view());
                proof {
                    lemma_group_view(*delimiter, copies);
                    lemma_group_view(*delimiter, *inner);
                }
                Token::Group(*delimiter, copies)
            },
        }
    }
}

/// Appends one token to `tokens`.
pub fn push_token(tokens: &mut Vec<Token>, token: Token)
    ensures
        final(tokens).deep_view() == old(tokens).deep_view().push(token.deep_view()),
{
    tokens.push(token);
}

} // verus!
