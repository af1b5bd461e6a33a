use crate::error::{ErrorKind, ParseError};
use crate::generated::{
    all_declarations, constructor_tokens, declarations_tokens, document_tokens, entries_tokens,
    fields_tokens, item_declarations, items_declarations, lemma_declarations_tokens_add,
    lemma_declarations_tokens_push, root_chain_of, root_constructor, root_declaration,
};
use crate::grammar::{document_of, items_from, lemma_prepend_push, metadata_of, parsed, prepend};
use crate::item::{Item, ItemView};
use crate::lexeme::{lemma_lexeme_group_view, text_is, Lexeme};
use crate::naming::{copy_chain, root_chain};
use crate::token::{braces, ident, joint, parens, punct, push_token, Delimiter, Token, TokenView};
use vstd::prelude::*;

verus! {

/// What the leading `#[name = Identifier]` annotation of a schema says.
#[derive(Debug, PartialEq, Eq)]
pub struct DocumentMetadata {
    /// The name of the root type.
    pub name: String,
}

/// A parsed schema: the root type's name and the top-level entries in the
/// order written.
#[derive(Debug, PartialEq, Eq)]
pub struct TomlDocument {
    pub items: Vec<Item>,
    pub metadata: DocumentMetadata,
}

/// The mathematical value of a [`TomlDocument`].
pub struct DocumentView {
    pub name: Seq<char>,
    pub items: Seq<ItemView>,
}

impl DeepView for TomlDocument {
    type V = DocumentView;

    open spec fn deep_view(&self) -> DocumentView {
        DocumentView { name: self.metadata.name@, items: self.items.deep_view() }
    }
}

impl DocumentMetadata {
    /// Reads what stands between the square brackets of the metadata: the
    /// name `name`, `=`, the name of the root type, and nothing else.
    pub fn parse(input: &Vec<Lexeme>) -> (result: Result<DocumentMetadata, ParseError>)
        ensures
            match result {
                Ok(metadata) => metadata_of(input.deep_view()) == Ok::<Seq<char>, ParseError>(
                    metadata.name@,
                ),
                Err(error) => metadata_of(input.deep_view()) == Err::<Seq<char>, ParseError>(
                    error,
                ),
            },
    {
        let len = input.len();
        if len < 1 {
            return Err(ParseError { kind: ErrorKind::InvalidMetadata, position: 0 });
        }
        match input[0].name() {
            Some(key) => {
                if !text_is(&key, "name") {
                    return Err(ParseError { kind: ErrorKind::InvalidMetadata, position: 0 });
                }
            },
            None => {
                return Err(ParseError { kind: ErrorKind::InvalidMetadata, position: 0 });
            },
        }
        if len < 2 {
            return Err(ParseError { kind: ErrorKind::InvalidMetadata, position: 1 });
        }
        if !input[1].is_punct('=') {
            return Err(ParseError { kind: ErrorKind::InvalidMetadata, position: 1 });
        }
        if len < 3 {
            return Err(ParseError { kind: ErrorKind::InvalidMetadata, position: 2 });
        }
        let name = match input[2].name() {
            Some(name) => name,
            None => {
                return Err(ParseError { kind: ErrorKind::InvalidMetadata, position: 2 });
            },
        };
        if len > 3 {
            return Err(ParseError { kind: ErrorKind::InvalidMetadata, position: 3 });
        }
        Ok(DocumentMetadata { name })
    }
}

impl TomlDocument {
    /// Reads a schema: the metadata, if the tokens open with `#`, and the
    /// items up to the end. Without metadata the root type is named `Root`.
    /// The first fault ends the reading.
    pub fn parse(input: &Vec<Lexeme>) -> (result: Result<TomlDocument, ParseError>)
        ensures
            parsed(result) == document_of(input.deep_view()),
    {
        let ghost tokens = input.deep_view();
        let len = input.len();
        let mut position: usize = 0;
        let mut metadata = DocumentMetadata { name: String::from_str("Root") };
        if len > 0 {
            if input[0].is_punct('#') {
                if len < 2 {
                    return Err(ParseError { kind: ErrorKind::InvalidMetadata, position: 1 });
                }
                match &input[1] {
                    Lexeme::Group(Delimiter::Bracket, contents) => {
                        proof {
                            lemma_lexeme_group_view(Delimiter::Bracket, *contents);
                        }
                        match DocumentMetadata::parse(contents) {
                            Ok(found) => {
                                metadata = found;
                            },
                            Err(_) => {
                                return Err(
                                    ParseError { kind: ErrorKind::InvalidMetadata, position: 1 },
                                );
                            },
                        }
                    },
                    _ => {
                        return Err(ParseError { kind: ErrorKind::InvalidMetadata, position: 1 });
                    },
                }
                position = 2;
            }
        }
        let ghost start = position as int;
        let mut items: Vec<Item> = Vec::new();
        while position < len
            invariant
                position <= len,
                len == input.len(),
                tokens == input.deep_view(),
                items_from(tokens, start) == prepend(
                    items.deep_view(),
                    items_from(tokens, position as int),
                ),
                document_of(tokens) == match items_from(tokens, start) {
                    Ok(all) => Ok(DocumentView { name: metadata.name@, items: all }),
                    Err(error) => Err(error),
                },
            decreases len - position,
        {
            let ghost before = items.deep_view();
            let (item, next) = match Item::parse(input, position) {
                Ok(found) => found,
                Err(error) => {
                    return Err(error);
                },
            };
            proof {
                lemma_prepend_push(before, item.deep_view(), items_from(tokens, next as int));
            }
            items.push(item);
            assert(items.deep_view() =~= before.push(item.deep_view()));
            position = next;
        }
        Ok(TomlDocument { items, metadata })
    }

    /// Appends the generated code to `tokens`: the structs that the items
    /// call for, in the order of the items and each after the structs it
    /// refers to; the root struct with one field per item; and the root's
    /// `Default`, which gives every field its default.
    pub fn to_tokens(&self, tokens: &mut Vec<Token>)
        ensures
            final(tokens).deep_view() == old(tokens).deep_view() + document_tokens(
                self.deep_view(),
            ),
    {
        let ghost before = tokens.deep_view();
        let ghost document = self.deep_view();
        let ghost items = self.items.deep_view();
        let parent_name = self.metadata.name.clone();
        let chain = root_chain(parent_name.as_str());
        let count = self.items.len();

        let mut i: usize = 0;
        while i < count
            invariant
                i <= count,
                count == self.items.len(),
                items == self.items.deep_view(),
                chain.deep_view() == root_chain_of(document),
                tokens.deep_view() == before + declarations_tokens(
                    items_declarations(chain.deep_view(), items, i as nat),
                ),
            decreases count - i,
        {
            let ghost so_far = items_declarations(chain.deep_view(), items, i as nat);
            let ghost more = item_declarations(chain.deep_view(), items[i as int]);
            let prelude = self.items[i].clone().into_child_item(
                copy_chain(&chain),
            ).into_item_prelude();
            prelude.to_tokens(tokens);
            proof {
                lemma_declarations_tokens_add(so_far, more);
            }
            i += 1;
        }

        let ghost root = root_declaration(document);
        let mut fields: Vec<Token> = Vec::new();
        let mut i: usize = 0;
        while i < count
            invariant
                i <= count,
                count == self.items.len(),
                items == self.items.deep_view(),
                items == document.items,
                chain.deep_view() == root_chain_of(document),
                root == root_declaration(document),
                fields.deep_view() == fields_tokens(root.fields, i as nat),
            decreases count - i,
        {
            if i > 0 {
                push_token(&mut fields, Token::punct(','));
            }
            let item = self.items[i].clone().into_child_item(copy_chain(&chain));
            item.to_tokens(&mut fields);
            i += 1;
        }

        let ghost constructor = root_constructor(document);
        let mut defaults: Vec<Token> = Vec::new();
        let mut i: usize = 0;
        while i < count
            invariant
                i <= count,
                count == self.items.len(),
                items == self.items.deep_view(),
                items == document.items,
                chain.deep_view() == root_chain_of(document),
                constructor == root_constructor(document),
                defaults.deep_view() == entries_tokens(constructor.entries, i as nat),
            decreases count - i,
        {
            if i > 0 {
                push_token(&mut defaults, Token::punct(','));
            }
            let default = self.items[i].clone().into_child_item(
                copy_chain(&chain),
            ).into_item_default();
            default.to_tokens(&mut defaults);
            proof {
                assert(defaults.deep_view() =~= entries_tokens(
                    constructor.entries,
                    (i + 1) as nat,
                ));
            }
            i += 1;
        }

        push_token(tokens, Token::ident("pub"));
        push_token(tokens, Token::ident("struct"));
        push_token(tokens, Token::ident(parent_name.as_str()));
        push_token(tokens, Token::group(Delimiter::Brace, fields));
        proof {
            let nested = items_declarations(chain.deep_view(), items, count as nat);
            lemma_declarations_tokens_push(nested, root);
            assert(tokens.deep_view() =~= before + declarations_tokens(
                all_declarations(document),
            ));
        }

        let mut expression: Vec<Token> = Vec::new();
        push_token(&mut expression, Token::ident(parent_name.as_str()));
        push_token(&mut expression, Token::group(Delimiter::Brace, defaults));
        assert(expression.deep_view() =~= constructor_tokens(constructor));

        let arguments: Vec<Token> = Vec::new();
        assert(arguments.deep_view() =~= Seq::<TokenView>::empty());
        let mut body: Vec<Token> = Vec::new();
        push_token(&mut body, Token::ident("fn"));
        push_token(&mut body, Token::ident("default"));
        push_token(&mut body, Token::group(Delimiter::Parenthesis, arguments));
        push_token(&mut body, Token::joint('-'));
        push_token(&mut body, Token::punct('>'));
        push_token(&mut body, Token::ident(parent_name.as_str()));
        push_token(&mut body, Token::group(Delimiter::Brace, expression));
        assert(body.deep_view() =~= seq![
            ident("fn"@),
            ident("default"@),
            parens(Seq::empty()),
            joint('-'),
            punct('>'),
            ident(document.name),
            braces(constructor_tokens(constructor)),
        ]);

        push_token(tokens, Token::ident("impl"));
        push_token(tokens, Token::ident("Default"));
        push_token(tokens, Token::ident("for"));
        push_token(tokens, Token::ident(parent_name.as_str()));
        push_token(tokens, Token::group(Delimiter::Brace, body));
    }
}

} // verus!
