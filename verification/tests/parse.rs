use proc_macro2::{TokenStream, TokenTree};
use syn::parse::{ParseStream, Parser};
use toml_schema::error::{ErrorKind, Expected, ParseError};
use toml_schema::lexeme::Lexeme;
use toml_schema::document::{DocumentMetadata, TomlDocument};
use toml_schema::inline_table::InlineTable;
use toml_schema::item::Item;
use toml_schema::property::Property;
use toml_schema::table::{Table, TableContents};
use toml_schema::token::{Delimiter, Literal};
use toml_schema::value::Value;

fn reach(trees: &[TokenTree]) -> usize {
    let expression = |input: ParseStream| -> syn::Result<usize> {
        input.parse::<syn::Expr>()?;
        Ok(input.parse::<TokenStream>()?.into_iter().count())
    };
    let stream: TokenStream = trees.iter().cloned().collect();
    expression.parse2(stream).map_or(0, |left| trees.len() - left)
}

fn literal_of(literal: proc_macro2::Literal) -> Literal {
    let text = literal.to_string();
    match syn::Lit::new(literal) {
        syn::Lit::Str(lit) => Literal::Str(lit.value()),
        syn::Lit::ByteStr(_) => Literal::ByteStr(text),
        syn::Lit::CStr(_) => Literal::CStr(text),
        syn::Lit::Byte(_) => Literal::Byte(text),
        syn::Lit::Char(_) => Literal::Char(text),
        syn::Lit::Int(lit) => Literal::Int(lit.base10_digits().to_string()),
        syn::Lit::Float(lit) => Literal::Float(lit.base10_digits().to_string()),
        _ => Literal::Verbatim(text),
    }
}

fn lexemes_of(stream: TokenStream) -> Vec<Lexeme> {
    let trees: Vec<TokenTree> = stream.into_iter().collect();
    (0..trees.len())
        .map(|at| match &trees[at] {
            TokenTree::Group(group) => {
                let delimiter = match group.delimiter() {
                    proc_macro2::Delimiter::Parenthesis => Delimiter::Parenthesis,
                    proc_macro2::Delimiter::Brace => Delimiter::Brace,
                    proc_macro2::Delimiter::Bracket => Delimiter::Bracket,
                    proc_macro2::Delimiter::None => Delimiter::Invisible,
                };
                Lexeme::Group(delimiter, lexemes_of(group.stream()))
            }
            TokenTree::Ident(ident) => Lexeme::Ident {
                text: ident.to_string(),
                name: syn::parse2::<syn::Ident>(TokenTree::Ident(ident.clone()).into()).is_ok(),
                reach: reach(&trees[at..]),
            },
            TokenTree::Punct(punct) => Lexeme::Punct(punct.as_char()),
            TokenTree::Literal(literal) => Lexeme::Literal {
                literal: literal_of(literal.clone()),
                reach: reach(&trees[at..]),
            },
        })
        .collect()
}

fn read(text: &str) -> Vec<Lexeme> {
    lexemes_of(text.parse::<TokenStream>().unwrap())
}

fn property(name: &str, value: Value) -> Property {
    Property(name.to_string(), value)
}

fn number(text: &str) -> Value {
    Value::Number(text.to_string())
}

fn string(text: &str) -> Value {
    Value::String(text.to_string())
}

fn syntax_error(expected: Expected, position: usize) -> ParseError {
    ParseError { kind: ErrorKind::SyntaxError(expected), position }
}

fn invalid_literal(position: usize) -> ParseError {
    ParseError { kind: ErrorKind::InvalidLiteral, position }
}

fn name(text: &str) -> Lexeme {
    Lexeme::Ident { text: text.to_string(), name: true, reach: 1 }
}

fn keyword(text: &str, reach: usize) -> Lexeme {
    Lexeme::Ident { text: text.to_string(), name: false, reach }
}

fn literal(literal: Literal, reach: usize) -> Lexeme {
    Lexeme::Literal { literal, reach }
}

#[test]
fn document_holds_metadata_and_items_in_order() {
    let document =
        TomlDocument::parse(&read("#[name = Config] name = \"svc\"; [server] port = 80;"));
    let expected = TomlDocument {
        metadata: DocumentMetadata { name: "Config".to_string() },
        items: vec![
            Item::Property(property("name", string("svc"))),
            Item::Table(Table {
                heading: "server".to_string(),
                contents: TableContents(vec![property("port", number("80.0"))]),
            }),
        ],
    };
    assert_eq!(document, Ok(expected));
}

#[test]
fn document_without_metadata_has_default_name() {
    let document = TomlDocument::parse(&read("a = true;")).unwrap();
    assert_eq!(document.metadata.name, "Root");
    assert_eq!(document.items, vec![Item::Property(property("a", Value::Boolean(true)))]);
}

#[test]
fn document_of_no_tokens_is_empty() {
    let document = TomlDocument::parse(&Vec::new()).unwrap();
    assert_eq!(document.metadata.name, "Root");
    assert!(document.items.is_empty());
}

#[test]
fn metadata_reads_the_name() {
    let metadata = DocumentMetadata::parse(&read("name = Config"));
    assert_eq!(metadata, Ok(DocumentMetadata { name: "Config".to_string() }));
}

#[test]
fn metadata_reports_the_first_wrong_token() {
    let invalid = |position| Err(ParseError { kind: ErrorKind::InvalidMetadata, position });
    assert_eq!(DocumentMetadata::parse(&read("")), invalid(0));
    assert_eq!(DocumentMetadata::parse(&read("title = Config")), invalid(0));
    assert_eq!(DocumentMetadata::parse(&read("\"name\" = Config")), invalid(0));
    assert_eq!(DocumentMetadata::parse(&read("name")), invalid(1));
    assert_eq!(DocumentMetadata::parse(&read("name : Config")), invalid(1));
    assert_eq!(DocumentMetadata::parse(&read("name =")), invalid(2));
    assert_eq!(DocumentMetadata::parse(&read("name = 5")), invalid(2));
    assert_eq!(DocumentMetadata::parse(&read("name = Config ;")), invalid(3));
}

#[test]
fn property_reads_each_kind_of_value() {
    let input = read("a = true b = false c = 1.5 d = 2 e = \"s\" f = { g = true }");
    assert_eq!(Property::parse(&input, 0), Ok(property("a", Value::Boolean(true))));
    assert_eq!(Property::parse(&input, 3), Ok(property("b", Value::Boolean(false))));
    assert_eq!(Property::parse(&input, 6), Ok(property("c", number("1.5"))));
    assert_eq!(Property::parse(&input, 9), Ok(property("d", number("2.0"))));
    assert_eq!(Property::parse(&input, 12), Ok(property("e", string("s"))));
    assert_eq!(
        Property::parse(&input, 15),
        Ok(property(
            "f",
            Value::InlineTable(InlineTable(vec![property("g", Value::Boolean(true))]))
        ))
    );
}

#[test]
fn property_past_the_end_is_a_syntax_error() {
    let input = read("a = true");
    assert_eq!(Property::parse(&input, 3), Err(syntax_error(Expected::Name, 3)));
    assert_eq!(Property::parse(&input, 100), Err(syntax_error(Expected::Name, 100)));
    assert_eq!(
        Property::parse(&input, usize::MAX),
        Err(syntax_error(Expected::Name, usize::MAX))
    );
}

#[test]
fn property_must_start_with_an_identifier() {
    let input = read("a = true");
    assert_eq!(Property::parse(&input, 1), Err(syntax_error(Expected::Name, 1)));
    assert_eq!(Property::parse(&input, 2), Err(syntax_error(Expected::Name, 2)));
    let named = read("a = b");
    assert_eq!(Property::parse(&named, 2), Err(syntax_error(Expected::Equals, 3)));
}

#[test]
fn string_escapes_are_resolved() {
    let input = read("a = \"line\\nbreak \\u{e9} \\x41\"");
    assert_eq!(Property::parse(&input, 0), Ok(property("a", string("line\nbreak \u{e9} A"))));
}

#[test]
fn lexemes_are_read_as_they_are_handed_over() {
    let value = |lexeme: Lexeme| Property::parse(&vec![name("a"), Lexeme::Punct('='), lexeme], 0);
    let int = || Literal::Int("7".to_string());
    assert_eq!(value(keyword("true", 1)), Ok(property("a", Value::Boolean(true))));
    assert_eq!(value(keyword("false", 1)), Ok(property("a", Value::Boolean(false))));
    assert_eq!(value(literal(int(), 1)), Ok(property("a", number("7.0"))));
    assert_eq!(value(keyword("true", 3)), Err(invalid_literal(2)));
    assert_eq!(value(keyword("true", 0)), Err(invalid_literal(2)));
    assert_eq!(value(literal(int(), 0)), Err(invalid_literal(2)));
    assert_eq!(value(literal(int(), usize::MAX)), Err(invalid_literal(2)));
    assert_eq!(value(literal(int(), 3)), Err(invalid_literal(2)));
    assert_eq!(value(name("b")), Err(invalid_literal(2)));
    assert_eq!(value(keyword("type", 1)), Err(invalid_literal(2)));
    assert_eq!(value(Lexeme::Punct('-')), Err(invalid_literal(2)));
    assert_eq!(value(Lexeme::Group(Delimiter::Bracket, Vec::new())), Err(invalid_literal(2)));
    assert_eq!(
        value(Lexeme::Group(Delimiter::Brace, Vec::new())),
        Ok(property("a", Value::InlineTable(InlineTable(Vec::new()))))
    );
}

#[test]
fn literals_of_other_kinds_are_no_values() {
    let value = |found: Literal| {
        Property::parse(&vec![name("a"), Lexeme::Punct('='), literal(found, 1)], 0)
    };
    assert_eq!(value(Literal::ByteStr("b\"x\"".to_string())), Err(invalid_literal(2)));
    assert_eq!(value(Literal::CStr("c\"x\"".to_string())), Err(invalid_literal(2)));
    assert_eq!(value(Literal::Byte("b'x'".to_string())), Err(invalid_literal(2)));
    assert_eq!(value(Literal::Char("'x'".to_string())), Err(invalid_literal(2)));
    assert_eq!(value(Literal::Verbatim("x".to_string())), Err(invalid_literal(2)));
}

#[test]
fn expression_of_more_tokens_is_no_value() {
    let input = read("a = 1 + 2 b = true && c d = \"s\".len() e = 1 as u8");
    assert_eq!(Property::parse(&input, 0), Err(invalid_literal(2)));
    assert_eq!(Property::parse(&input, 5), Err(invalid_literal(7)));
    assert_eq!(Property::parse(&input, 11), Err(invalid_literal(13)));
    assert_eq!(Property::parse(&input, 17), Err(invalid_literal(19)));
}

#[test]
fn value_before_what_continues_no_expression_is_a_value() {
    let input = read("a = 1 b = 2");
    assert_eq!(Property::parse(&input, 0), Ok(property("a", number("1.0"))));
    assert_eq!(Property::parse(&input, 3), Ok(property("b", number("2.0"))));
}

#[test]
fn inline_table_reads_properties_between_commas() {
    let table = InlineTable::parse(&read("x = 1.0, y = \"s\", z = { }"));
    let expected = InlineTable(vec![
        property("x", number("1.0")),
        property("y", string("s")),
        property("z", Value::InlineTable(InlineTable(Vec::new()))),
    ]);
    assert_eq!(table, Ok(expected));
}

#[test]
fn inline_table_may_be_empty_or_end_with_a_comma() {
    assert_eq!(InlineTable::parse(&read("")), Ok(InlineTable(Vec::new())));
    assert_eq!(
        InlineTable::parse(&read("x = true,")),
        Ok(InlineTable(vec![property("x", Value::Boolean(true))]))
    );
}

#[test]
fn inline_table_reports_faults_by_its_own_tokens() {
    assert_eq!(InlineTable::parse(&read(", x = true")), Err(syntax_error(Expected::Name, 0)));
    assert_eq!(
        InlineTable::parse(&read("x = true y = true")),
        Err(syntax_error(Expected::Comma, 3))
    );
    assert_eq!(
        InlineTable::parse(&read("x = true,, y = true")),
        Err(syntax_error(Expected::Name, 4))
    );
    assert_eq!(
        InlineTable::parse(&read("x = true, y")),
        Err(syntax_error(Expected::Equals, 5))
    );
    assert_eq!(
        InlineTable::parse(&read("x = true, y = 'c'")),
        Err(ParseError { kind: ErrorKind::InvalidLiteral, position: 6 })
    );
}

#[test]
fn table_contents_stop_at_what_is_no_identifier() {
    let input = read("a = true; b = 1; [next] c = false;");
    let (contents, next) = TableContents::parse(&input, 0).unwrap();
    assert_eq!(
        contents,
        TableContents(vec![property("a", Value::Boolean(true)), property("b", number("1.0"))])
    );
    assert_eq!(next, 8);
    let (none, same) = TableContents::parse(&input, 8).unwrap();
    assert_eq!(none, TableContents(Vec::new()));
    assert_eq!(same, 8);
    let (none, same) = TableContents::parse(&input, 100).unwrap();
    assert_eq!(none, TableContents(Vec::new()));
    assert_eq!(same, 100);
}

#[test]
fn table_contents_need_a_separator_after_each_property() {
    let input = read("a = true; b = 1");
    assert_eq!(TableContents::parse(&input, 0), Err(syntax_error(Expected::Semicolon, 7)));
}

#[test]
fn table_reads_heading_and_contents() {
    let input = read("x = true; [server] host = \"h\"; port = 1.0; [other]");
    let (table, next) = Table::parse(&input, 4).unwrap();
    assert_eq!(table.heading, "server");
    assert_eq!(
        table.contents,
        TableContents(vec![property("host", string("h")), property("port", number("1.0"))])
    );
    assert_eq!(next, 13);
    let (other, end) = Table::parse(&input, 13).unwrap();
    assert_eq!(other, Table { heading: "other".to_string(), contents: TableContents(Vec::new()) });
    assert_eq!(end, 14);
}

#[test]
fn table_must_start_with_a_heading() {
    let input = read("x = true; (server) { server } [1]");
    assert_eq!(Table::parse(&input, 0), Err(syntax_error(Expected::Item, 0)));
    assert_eq!(Table::parse(&input, 4), Err(syntax_error(Expected::Item, 4)));
    assert_eq!(Table::parse(&input, 5), Err(syntax_error(Expected::Item, 5)));
    assert_eq!(Table::parse(&input, 6), Err(syntax_error(Expected::Heading, 6)));
    assert_eq!(Table::parse(&input, 7), Err(syntax_error(Expected::Item, 7)));
}

#[test]
fn item_is_a_table_or_a_property_with_separator() {
    let input = read("x = true; [t] y = 1.0;");
    assert_eq!(
        Item::parse(&input, 0),
        Ok((Item::Property(property("x", Value::Boolean(true))), 4))
    );
    assert_eq!(
        Item::parse(&input, 4),
        Ok((
            Item::Table(Table {
                heading: "t".to_string(),
                contents: TableContents(vec![property("y", number("1.0"))]),
            }),
            9
        ))
    );
    assert_eq!(Item::parse(&input, 9), Err(syntax_error(Expected::Item, 9)));
    assert_eq!(Item::parse(&input, 3), Err(syntax_error(Expected::Item, 3)));
}

#[test]
fn literal_gives_value_by_kind() {
    assert_eq!(Value::from_literal(Literal::Str("s".to_string())), Ok(string("s")));
    assert_eq!(Value::from_literal(Literal::Int("42".to_string())), Ok(number("42.0")));
    assert_eq!(Value::from_literal(Literal::Float("4.2e1".to_string())), Ok(number("4.2e1")));
    assert_eq!(Value::from_literal(Literal::Float("1.".to_string())), Ok(number("1.")));
    let other = [
        Literal::ByteStr("b\"x\"".to_string()),
        Literal::CStr("c\"x\"".to_string()),
        Literal::Byte("b'x'".to_string()),
        Literal::Char("'x'".to_string()),
        Literal::Verbatim("x".to_string()),
    ];
    for literal in other {
        assert_eq!(Value::from_literal(literal), Err(ErrorKind::InvalidLiteral));
    }
}

#[test]
fn accepted_schema_is_read_to_its_last_token() {
    // 2 tokens of metadata, 4 of the property, 1 + 2 * 4 of the table
    let input = read("#[name = C] a = true; [t] b = 1; c = 2;");
    assert_eq!(input.len(), 2 + 4 + 1 + 2 * 4);
    assert!(TomlDocument::parse(&input).is_ok());
}

#[test]
fn fault_position_is_never_past_the_end() {
    for text in ["a", "a =", "a = true", "[t] a = true", "#", "a = true; b = { x = }"] {
        let input = read(text);
        let error = TomlDocument::parse(&input).unwrap_err();
        assert!(error.position <= input.len());
    }
}

#[test]
fn copies_are_equal_to_what_was_copied() {
    let document = TomlDocument::parse(&read("a = { b = { c = \"s\" } }; [t] d = 1;")).unwrap();
    for item in &document.items {
        assert_eq!(&item.clone(), item);
    }
}

#[test]
fn each_kind_of_fault_has_its_message() {
    let message = |kind| ParseError { kind, position: 0 }.message();
    assert_eq!(message(ErrorKind::SyntaxError(Expected::Item)), "expected item");
    assert_eq!(message(ErrorKind::SyntaxError(Expected::Name)), "expected identifier");
    assert_eq!(message(ErrorKind::SyntaxError(Expected::Equals)), "expected `=`");
    assert_eq!(message(ErrorKind::SyntaxError(Expected::Value)), "expected value");
    assert_eq!(message(ErrorKind::SyntaxError(Expected::Semicolon)), "expected `;`");
    assert_eq!(message(ErrorKind::SyntaxError(Expected::Comma)), "expected `,`");
    assert_eq!(
        message(ErrorKind::SyntaxError(Expected::Heading)),
        "expected one identifier as table heading"
    );
    assert_eq!(
        message(ErrorKind::InvalidLiteral),
        "invalid literal: expected a boolean, number or string"
    );
    assert_eq!(
        message(ErrorKind::InvalidMetadata),
        "invalid metadata: expected `name = Identifier`"
    );
}

#[test]
fn stray_token_where_an_item_starts_is_told_as_expected_item() {
    let input = read("\"svc\";");
    let error = TomlDocument::parse(&input).unwrap_err();
    assert_eq!(error, syntax_error(Expected::Item, 0));
    assert_eq!(error.message(), "expected item");
    assert_eq!(Item::parse(&input, 0), Err(syntax_error(Expected::Item, 0)));
}

#[test]
fn name_is_an_identifier_that_can_serve_as_one() {
    assert_eq!(name("server").name(), Some("server".to_string()));
    assert_eq!(keyword("type", 1).name(), None);
    assert_eq!(Lexeme::Punct('a').name(), None);
    assert_eq!(literal(Literal::Str("name".to_string()), 1).name(), None);
    assert_eq!(Lexeme::Group(Delimiter::Brace, vec![name("a")]).name(), None);
    let names: Vec<Option<String>> =
        read("server r#type Default type false _").iter().map(Lexeme::name).collect();
    assert_eq!(
        names,
        vec![
            Some("server".to_string()),
            Some("r#type".to_string()),
            Some("Default".to_string()),
            None,
            None,
            None
        ]
    );
}

#[test]
fn punctuation_is_told_by_its_character() {
    assert!(Lexeme::Punct('=').is_punct('='));
    assert!(!Lexeme::Punct('=').is_punct(';'));
    assert!(!name("a").is_punct('a'));
    let input = read("a == b");
    assert!(input[1].is_punct('=') && input[2].is_punct('='));
}

#[test]
fn table_contents_stop_at_a_keyword() {
    let input = read("a = true; type = 1;");
    let (contents, next) = TableContents::parse(&input, 0).unwrap();
    assert_eq!(contents, TableContents(vec![property("a", Value::Boolean(true))]));
    assert_eq!(next, 4);
}
