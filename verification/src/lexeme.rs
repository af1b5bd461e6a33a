//! The tokens of a schema, as they are handed over: each with what the
//! lexer and the parser of the macro host make of it.

use crate::token::{Delimiter, Literal, LiteralView};
use vstd::prelude::*;

verus! {

/// One token of a schema.
///
/// An identifier and a literal come with their `reach`: the number of
/// tokens, from this one on, that are read as one expression, and 0 where
/// none is read. In `x = 1;` the `1` reaches over one token, itself; in
/// `x = 1 + 2;` over three, and in `x = 1 [t]` over two.
#[derive(Debug, PartialEq, Eq)]
pub enum Lexeme {
    /// An identifier or keyword: its text, and whether it can serve as a
    /// name, which `_` and the keywords cannot.
    Ident { text: String, name: bool, reach: usize },
    /// A single punctuation character.
    Punct(char),
    /// A literal, by what it denotes.
    Literal { literal: Literal, reach: usize },
    /// A bracketed run of tokens.
    Group(Delimiter, Vec<Lexeme>),
}

/// The mathematical value of a [`Lexeme`].
pub enum LexemeView {
    Ident { text: Seq<char>, name: bool, reach: usize },
    Punct(char),
    Literal { literal: LiteralView, reach: usize },
    Group(Delimiter, Seq<LexemeView>),
}

/// The views of the first `n` of `lexemes`.
pub open spec fn lexeme_views_upto(lexemes: &Vec<Lexeme>, n: nat) -> Seq<LexemeView>
    decreases lexemes, n,
{
    if n == 0 || n > lexemes.len() {
        Seq::empty()
    } else {
        lexeme_views_upto(lexemes, (n - 1) as nat).push(lexemes[n - 1].deep_view())
    }
}

impl DeepView for Lexeme {
    type V = LexemeView;

    open spec fn deep_view(&self) -> LexemeView
        decreases self, 0nat,
    {
        match self {
            Lexeme::Ident { text, name, reach } => LexemeView::Ident {
                text: text@,
                name: *name,
                reach: *reach,
            },
            Lexeme::Punct(c) => LexemeView::Punct(*c),
            Lexeme::Literal { literal, reach } => LexemeView::Literal {
                literal: literal.deep_view(),
                reach: *reach,
            },
            Lexeme::Group(delimiter, inner) => LexemeView::Group(
                *delimiter,
                lexeme_views_upto(inner, inner.len() as nat),
            ),
        }
    }
}

/// The name that `lexeme` is: its text, if it is an identifier that can
/// serve as a name.
pub open spec fn name_of(lexeme: LexemeView) -> Option<Seq<char>> {
    match lexeme {
        LexemeView::Ident { text, name, .. } => if name {
            Some(text)
        } else {
            None
        },
        _ => None,
    }
}

/// Whether `lexeme` is the punctuation character `c`.
pub open spec fn is_punct(lexeme: LexemeView, c: char) -> bool {
    lexeme == LexemeView::Punct(c)
}

/// The first `n` views of a vector of lexemes are a prefix of its view.
pub proof fn lemma_lexeme_views_upto(lexemes: &Vec<Lexeme>, n: nat)
    requires
        n <= lexemes.len(),
    ensures
        lexeme_views_upto(lexemes, n) == lexemes.deep_view().take(n as int),
    decreases n,
{
    if n > 0 {
        lemma_lexeme_views_upto(lexemes, (n - 1) as nat);
        assert(lexemes.deep_view()[n - 1] == lexemes[n - 1].deep_view());
    }
}

/// The view of a group is the view of its contents, one by one.
pub proof fn lemma_lexeme_group_view(delimiter: Delimiter, inner: Vec<Lexeme>)
    ensures
        Lexeme::Group(delimiter, inner).deep_view() == LexemeView::Group(
            delimiter,
            inner.deep_view(),
        ),
{
    lemma_lexeme_views_upto(&inner, inner.len() as nat);
    assert(inner.deep_view().take(inner.len() as int) =~= inner.deep_view());
}

/// Whether `text` reads `expected`.
pub fn text_is(text: &String, expected: &str) -> (same: bool)
    ensures
        same == (text@ == expected@),
{
    let expected = String::from_str(expected);
    *text == expected
}

impl Lexeme {
    /// The name that the lexeme is: its text, if it is an identifier that
    /// can serve as a name.
    pub fn name(&self) -> (name: Option<String>)
        ensures
            match name {
                Some(text) => name_of(self.deep_view()) == Some(text@),
                None => name_of(self.deep_view()) is None,
            },
    {
        match self {
            Lexeme::Ident { text, name, reach: _ } => {
                if *name {
                    Some(text.clone())
                } else {
                    None
                }
            },
            _ => None,
        }
    }

    /// Whether the lexeme is the punctuation character `c`.
    pub fn is_punct(&self, c: char) -> (found: bool)
        ensures
            found == is_punct(self.deep_view(), c),
    {
        match self {
            Lexeme::Punct(d) => *d == c,
            _ => false,
        }
    }
}

} // verus!
