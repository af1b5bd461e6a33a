use proc_macro2::{Group, Ident, Punct, Span, TokenStream, TokenTree};
use syn::parse::{ParseStream, Parser};
use toml_schema::error::{ErrorKind, Expected, ParseError};
use toml_schema::lexeme::Lexeme;
use toml_schema::token::{Delimiter, Literal, Spacing, Token};
use toml_schema::toml;

fn reach(trees: &[TokenTree]) -> usize {
    let expression = |input: ParseStream| -> syn::Result<usize> {
        input.parse::<syn::Expr>()?;
        Ok(input.parse::<TokenStream>()?.into_iter().count())
    };
    let stream: TokenStream = trees.iter().cloned().collect();
    expression.parse2(stream).map_or(0, |left| trees.len() - left)
}

fn literal_of(literal: proc_macro2::Literal) -> Literal {
    let text = literal.to_string();
    match syn::Lit::new(literal) {
        syn::Lit::Str(lit) => Literal::Str(lit.value()),
        syn::Lit::ByteStr(_) => Literal::ByteStr(text),
        syn::Lit::CStr(_) => Literal::CStr(text),
        syn::Lit::Byte(_) => Literal::Byte(text),
        syn::Lit::Char(_) => Literal::Char(text),
        syn::Lit::Int(lit) => Literal::Int(lit.base10_digits().to_string()),
        syn::Lit::Float(lit) => Literal::Float(lit.base10_digits().to_string()),
        _ => Literal::Verbatim(text),
    }
}

fn lexemes_of(stream: TokenStream) -> Vec<Lexeme> {
    let trees: Vec<TokenTree> = stream.into_iter().collect();
    (0..trees.len())
        .map(|at| match &trees[at] {
            TokenTree::Group(group) => {
                let delimiter = match group.delimiter() {
                    proc_macro2::Delimiter::Parenthesis => Delimiter::Parenthesis,
                    proc_macro2::Delimiter::Brace => Delimiter::Brace,
                    proc_macro2::Delimiter::Bracket => Delimiter::Bracket,
                    proc_macro2::Delimiter::None => Delimiter::Invisible,
                };
                Lexeme::Group(delimiter, lexemes_of(group.stream()))
            }
            TokenTree::Ident(ident) => Lexeme::Ident {
                text: ident.to_string(),
                name: syn::parse2::<syn::Ident>(TokenTree::Ident(ident.clone()).into()).is_ok(),
                reach: reach(&trees[at..]),
            },
            TokenTree::Punct(punct) => Lexeme::Punct(punct.as_char()),
            TokenTree::Literal(literal) => Lexeme::Literal {
                literal: literal_of(literal.clone()),
                reach: reach(&trees[at..]),
            },
        })
        .collect()
}

fn lex(text: &str) -> Vec<Lexeme> {
    lexemes_of(text.parse::<TokenStream>().unwrap())
}

fn stream_of(tokens: &[Token]) -> TokenStream {
    tokens
        .iter()
        .map(|token| match token {
            Token::Group(delimiter, inner) => {
                let delimiter = match delimiter {
                    Delimiter::Parenthesis => proc_macro2::Delimiter::Parenthesis,
                    Delimiter::Brace => proc_macro2::Delimiter::Brace,
                    Delimiter::Bracket => proc_macro2::Delimiter::Bracket,
                    Delimiter::Invisible => proc_macro2::Delimiter::None,
                };
                TokenTree::Group(Group::new(delimiter, stream_of(inner)))
            }
            Token::Ident(text) => TokenTree::Ident(match text.strip_prefix("r#") {
                Some(raw) => Ident::new_raw(raw, Span::call_site()),
                None => Ident::new(text, Span::call_site()),
            }),
            Token::Punct(c, spacing) => {
                let spacing = match spacing {
                    Spacing::Alone => proc_macro2::Spacing::Alone,
                    Spacing::Joint => proc_macro2::Spacing::Joint,
                };
                TokenTree::Punct(Punct::new(*c, spacing))
            }
            Token::Literal(Literal::Str(contents)) => {
                TokenTree::Literal(proc_macro2::Literal::string(contents))
            }
            Token::Literal(
                Literal::ByteStr(text)
                | Literal::CStr(text)
                | Literal::Byte(text)
                | Literal::Char(text)
                | Literal::Int(text)
                | Literal::Float(text)
                | Literal::Verbatim(text),
            ) => TokenTree::Literal(text.parse().unwrap()),
        })
        .collect()
}

/// The generated code as text.
fn compile(text: &str) -> Result<String, ParseError> {
    toml(&lex(text)).map(|tokens| stream_of(&tokens).to_string())
}

/// Code as the text that its tokens are written as.
fn written(text: &str) -> String {
    text.parse::<TokenStream>().unwrap().to_string()
}

fn fails(text: &str, kind: ErrorKind, position: usize) {
    assert_eq!(compile(text), Err(ParseError { kind, position }));
}

fn syntax(expected: Expected) -> ErrorKind {
    ErrorKind::SyntaxError(expected)
}

#[test]
fn flat_properties_give_root_struct_and_default() {
    let code = compile("#[name = Config] name = \"svc\"; port = 8080.0;");
    let expected = written(
        "pub struct Config { name : String , port : f64 } \
         impl Default for Config { fn default ( ) -> Config { \
         Config { name : \"svc\" . into ( ) , port : 8080.0 } } }",
    );
    assert_eq!(code, Ok(expected));
}

#[test]
fn table_gives_its_own_struct() {
    let code = compile("#[name = Config] [server] host = \"0.0.0.0\"; port = 80.0;");
    let expected = written(
        "struct ConfigServer { host : String , port : f64 } \
         pub struct Config { server : ConfigServer } \
         impl Default for Config { fn default ( ) -> Config { \
         Config { server : ConfigServer { host : \"0.0.0.0\" . into ( ) , port : 80.0 } } } }",
    );
    assert_eq!(code, Ok(expected));
}

#[test]
fn inline_table_in_table_gives_nested_struct() {
    let code =
        compile("#[name = Config] [server] tls = { enabled = true, cert = \"a.pem\" };");
    let expected = written(
        "pub struct ConfigServerTls { enabled : bool , cert : String } \
         struct ConfigServer { tls : ConfigServerTls } \
         pub struct Config { server : ConfigServer } \
         impl Default for Config { fn default ( ) -> Config { \
         Config { server : ConfigServer { tls : ConfigServerTls { \
         enabled : true , cert : \"a.pem\" . into ( ) } } } } }",
    );
    assert_eq!(code, Ok(expected));
}

#[test]
fn list_value_is_an_invalid_literal() {
    fails("port = [1,2];", ErrorKind::InvalidLiteral, 2);
}

#[test]
fn colliding_names_are_both_declared() {
    // `a_b` under the root and `b` under `a` both resolve to `ConfigAB`.
    // Collisions are not detected: both structs are written, under one name.
    let code = compile("#[name = Config] a_b = { x = true }; a = { b = { y = false } };");
    let expected = written(
        "pub struct ConfigAB { x : bool } \
         pub struct ConfigAB { y : bool } \
         pub struct ConfigA { b : ConfigAB } \
         pub struct Config { a_b : ConfigAB , a : ConfigA } \
         impl Default for Config { fn default ( ) -> Config { \
         Config { a_b : ConfigAB { x : true } , a : ConfigA { b : ConfigAB { y : false } } } } }",
    );
    assert_eq!(code, Ok(expected));
}

#[test]
fn schema_without_metadata_is_named_root() {
    let code = compile("debug = false;");
    let expected = written(
        "pub struct Root { debug : bool } \
         impl Default for Root { fn default ( ) -> Root { Root { debug : false } } }",
    );
    assert_eq!(code, Ok(expected));
}

#[test]
fn empty_schema_gives_empty_root() {
    let code = compile("");
    let expected =
        written("pub struct Root { } impl Default for Root { fn default ( ) -> Root { Root { } } }");
    assert_eq!(code, Ok(expected));
}

#[test]
fn metadata_alone_gives_empty_named_root() {
    let code = compile("#[name = Settings]");
    let expected = written(
        "pub struct Settings { } \
         impl Default for Settings { fn default ( ) -> Settings { Settings { } } }",
    );
    assert_eq!(code, Ok(expected));
}

#[test]
fn root_name_is_kept_as_written_and_cased_in_nested_names() {
    let code = compile("#[name = app_config] [http_server] port = 1.5;");
    let expected = written(
        "struct AppConfigHttpServer { port : f64 } \
         pub struct app_config { http_server : AppConfigHttpServer } \
         impl Default for app_config { fn default ( ) -> app_config { \
         app_config { http_server : AppConfigHttpServer { port : 1.5 } } } }",
    );
    assert_eq!(code, Ok(expected));
}

#[test]
fn integer_literal_becomes_floating_point() {
    let code = compile("port = 80;");
    let expected = written(
        "pub struct Root { port : f64 } \
         impl Default for Root { fn default ( ) -> Root { Root { port : 80.0 } } }",
    );
    assert_eq!(code, Ok(expected));
}

#[test]
fn integer_literal_is_read_in_base_ten() {
    let code = compile("mask = 0x10; big = 1_000; typed = 7u8;");
    let expected = written(
        "pub struct Root { mask : f64 , big : f64 , typed : f64 } \
         impl Default for Root { fn default ( ) -> Root { \
         Root { mask : 16.0 , big : 1000.0 , typed : 7.0 } } }",
    );
    assert_eq!(code, Ok(expected));
}

#[test]
fn floating_point_literal_loses_underscores_and_suffix() {
    let code = compile("a = 1_0.5; b = 2.5f32; c = 1e3;");
    let expected = written(
        "pub struct Root { a : f64 , b : f64 , c : f64 } \
         impl Default for Root { fn default ( ) -> Root { \
         Root { a : 10.5 , b : 2.5 , c : 1e3 } } }",
    );
    assert_eq!(code, Ok(expected));
}

#[test]
fn string_contents_are_written_back_escaped() {
    let code = compile("quote = \"a\\\"b\"; raw = r\"c\\d\";");
    let expected = written(
        "pub struct Root { quote : String , raw : String } \
         impl Default for Root { fn default ( ) -> Root { \
         Root { quote : \"a\\\"b\" . into ( ) , raw : \"c\\\\d\" . into ( ) } } }",
    );
    assert_eq!(code, Ok(expected));
}

#[test]
fn properties_and_tables_keep_their_order() {
    let code = compile("#[name = C] z = true; [b] y = 1.0; x = 2.0; [a] w = \"s\";");
    let expected = written(
        "struct CB { y : f64 , x : f64 } \
         struct CA { w : String } \
         pub struct C { z : bool , b : CB , a : CA } \
         impl Default for C { fn default ( ) -> C { C { \
         z : true , b : CB { y : 1.0 , x : 2.0 } , a : CA { w : \"s\" . into ( ) } } } }",
    );
    assert_eq!(code, Ok(expected));
}

#[test]
fn nested_inline_tables_are_declared_innermost_first() {
    let code = compile("a = { b = { c = 1.0 }, d = { e = true } };");
    let expected = written(
        "pub struct RootAB { c : f64 } \
         pub struct RootAD { e : bool } \
         pub struct RootA { b : RootAB , d : RootAD } \
         pub struct Root { a : RootA } \
         impl Default for Root { fn default ( ) -> Root { Root { \
         a : RootA { b : RootAB { c : 1.0 } , d : RootAD { e : true } } } } }",
    );
    assert_eq!(code, Ok(expected));
}

#[test]
fn empty_inline_table_gives_empty_struct() {
    let code = compile("a = { };");
    let expected = written(
        "pub struct RootA { } pub struct Root { a : RootA } \
         impl Default for Root { fn default ( ) -> Root { Root { a : RootA { } } } }",
    );
    assert_eq!(code, Ok(expected));
}

#[test]
fn trailing_comma_in_inline_table_is_harmless() {
    assert_eq!(compile("a = { x = true, };"), compile("a = { x = true };"));
}

#[test]
fn compiling_twice_gives_the_same_code() {
    let input = lex("#[name = Config] [server] tls = { enabled = true }; port = 1.0;");
    assert_eq!(toml(&input), toml(&input));
}

#[test]
fn arrow_of_default_is_joint_then_alone() {
    let code = toml(&lex("")).unwrap();
    let body = match &code[8] {
        Token::Group(Delimiter::Brace, body) => body,
        other => panic!("no body: {:?}", other),
    };
    assert_eq!(body[3], Token::Punct('-', Spacing::Joint));
    assert_eq!(body[4], Token::Punct('>', Spacing::Alone));
}

#[test]
fn default_literals_hold_the_values_that_were_read() {
    let code = toml(&lex("s = \"tab\\there \\\"q\\\"\"; n = 0x1F; f = 2.50; b = true;")).unwrap();
    let body = match &code[8] {
        Token::Group(Delimiter::Brace, body) => body,
        other => panic!("no body: {:?}", other),
    };
    let expression = match &body[6] {
        Token::Group(Delimiter::Brace, expression) => expression,
        other => panic!("no expression: {:?}", other),
    };
    let entries = match &expression[1] {
        Token::Group(Delimiter::Brace, entries) => entries,
        other => panic!("no entries: {:?}", other),
    };
    // s : "..." . into ( ) , n : 31.0 , f : 2.50 , b : true
    assert_eq!(entries[2], Token::Literal(Literal::Str("tab\there \"q\"".to_string())));
    assert_eq!(entries[9], Token::Literal(Literal::Float("31.0".to_string())));
    assert_eq!(entries[13], Token::Literal(Literal::Float("2.50".to_string())));
    assert_eq!(entries[17], Token::ident("true"));
}

#[test]
fn written_defaults_read_back_as_the_same_values() {
    let first = toml(&lex("s = \"tab\\there \\\"q\\\" \\u{e9}\"; n = 0x1F; f = 2.50; b = true;")).unwrap();
    let body = match &first[8] {
        Token::Group(Delimiter::Brace, body) => body,
        other => panic!("no body: {:?}", other),
    };
    let expression = match &body[6] {
        Token::Group(Delimiter::Brace, expression) => expression,
        other => panic!("no expression: {:?}", other),
    };
    let entries = match &expression[1] {
        Token::Group(Delimiter::Brace, entries) => entries,
        other => panic!("no entries: {:?}", other),
    };
    let text_of = |at: usize| stream_of(&entries[at..at + 1]).to_string();
    let again = format!(
        "s = {}; n = {}; f = {}; b = {};",
        text_of(2),
        text_of(9),
        text_of(13),
        text_of(17)
    );
    assert_eq!(toml(&lex(&again)), Ok(first));
}

#[test]
fn expression_of_more_than_one_token_is_an_invalid_literal() {
    fails("a = 1 + 2;", ErrorKind::InvalidLiteral, 2);
    fails("a = true && b;", ErrorKind::InvalidLiteral, 2);
    fails("a = \"s\".len();", ErrorKind::InvalidLiteral, 2);
    fails("a = 1 as f64;", ErrorKind::InvalidLiteral, 2);
    fails("a = 1.5 * 2.0;", ErrorKind::InvalidLiteral, 2);
    fails("a = 1 +;", ErrorKind::InvalidLiteral, 2);
    fails("ok = true; a = 1 + 2;", ErrorKind::InvalidLiteral, 6);
    fails("[t] a = 1 + 2;", ErrorKind::InvalidLiteral, 3);
    fails("a = { x = 1 + 2 };", ErrorKind::InvalidLiteral, 2);
}

#[test]
fn table_heading_right_after_a_value_makes_the_value_invalid() {
    fails("a = 1 [t] x = 2;", ErrorKind::InvalidLiteral, 2);
    fails("[s] a = \"x\" [t] b = 2;", ErrorKind::InvalidLiteral, 3);
}

#[test]
fn value_followed_by_what_continues_no_expression_lacks_a_separator() {
    fails("a = 1 b = 2;", syntax(Expected::Semicolon), 3);
    fails("a = true \"s\";", syntax(Expected::Semicolon), 3);
    fails("a = { x = 1 y = 2 };", syntax(Expected::Comma), 2);
}

#[test]
fn missing_separator_after_property_is_a_syntax_error() {
    fails("a = true b = false;", syntax(Expected::Semicolon), 3);
    fails("a = true", syntax(Expected::Semicolon), 3);
}

#[test]
fn missing_equals_is_a_syntax_error() {
    fails("a true;", syntax(Expected::Equals), 1);
    fails("a", syntax(Expected::Equals), 1);
}

#[test]
fn missing_value_is_a_syntax_error() {
    fails("a =", syntax(Expected::Value), 2);
}

#[test]
fn stray_token_where_an_item_is_expected_is_a_syntax_error() {
    fails("; a = true;", syntax(Expected::Item), 0);
    fails("a = true; 5", syntax(Expected::Item), 4);
    fails("a = true; { }", syntax(Expected::Item), 4);
    fails("a = true; #[name = Late]", syntax(Expected::Item), 4);
}

#[test]
fn values_that_are_no_literals_are_invalid_literals() {
    fails("a = b;", ErrorKind::InvalidLiteral, 2);
    fails("a = -1;", ErrorKind::InvalidLiteral, 2);
    fails("a = ;", ErrorKind::InvalidLiteral, 2);
    fails("a = (1);", ErrorKind::InvalidLiteral, 2);
}

#[test]
fn literals_of_other_kinds_are_invalid_literals() {
    fails("a = 'c';", ErrorKind::InvalidLiteral, 2);
    fails("a = b\"bytes\";", ErrorKind::InvalidLiteral, 2);
    fails("a = b'x';", ErrorKind::InvalidLiteral, 2);
}

#[test]
fn fault_inside_inline_table_is_reported_at_the_table() {
    fails("ok = true; a = { x = [1] };", ErrorKind::InvalidLiteral, 6);
    fails("ok = true; a = { x = true y = false };", syntax(Expected::Comma), 6);
    fails("a = { b = { c = 'x' } };", ErrorKind::InvalidLiteral, 2);
}

#[test]
fn commas_in_inline_table_must_separate_properties() {
    fails("a = { , x = true };", syntax(Expected::Name), 2);
    fails("a = { x = true,, y = false };", syntax(Expected::Name), 2);
    fails("a = { x = true y = false };", syntax(Expected::Comma), 2);
    fails("a = { x = true; };", syntax(Expected::Comma), 2);
}

#[test]
fn malformed_metadata_is_invalid_metadata() {
    fails("#[nam = Config] a = true;", ErrorKind::InvalidMetadata, 1);
    fails("#[name Config]", ErrorKind::InvalidMetadata, 1);
    fails("#[name = \"Config\"]", ErrorKind::InvalidMetadata, 1);
    fails("#[name = Config extra]", ErrorKind::InvalidMetadata, 1);
    fails("#[]", ErrorKind::InvalidMetadata, 1);
    fails("# name", ErrorKind::InvalidMetadata, 1);
    fails("#", ErrorKind::InvalidMetadata, 1);
    fails("#(name = Config)", ErrorKind::InvalidMetadata, 1);
}

#[test]
fn malformed_table_heading_is_a_syntax_error() {
    fails("[a b] x = true;", syntax(Expected::Heading), 0);
    fails("[] x = true;", syntax(Expected::Heading), 0);
    fails("[\"a\"] x = true;", syntax(Expected::Heading), 0);
}

#[test]
fn fault_in_table_is_reported_at_its_token() {
    fails("[a] x = true; y = 'c';", ErrorKind::InvalidLiteral, 7);
    fails("[a] x = true y = false;", syntax(Expected::Semicolon), 4);
    fails("[a] x = true; [b] y;", syntax(Expected::Equals), 7);
}

#[test]
fn first_fault_wins() {
    fails("a = 'c'; b true;", ErrorKind::InvalidLiteral, 2);
    fails("a true; b = 'c';", syntax(Expected::Equals), 1);
}

#[test]
fn table_ends_at_the_next_heading() {
    let code = compile("[a] x = true; [b] [c] y = false;");
    let expected = written(
        "struct RootA { x : bool } struct RootB { } struct RootC { y : bool } \
         pub struct Root { a : RootA , b : RootB , c : RootC } \
         impl Default for Root { fn default ( ) -> Root { Root { \
         a : RootA { x : true } , b : RootB { } , c : RootC { y : false } } } }",
    );
    assert_eq!(code, Ok(expected));
}

#[test]
fn duplicate_property_names_are_not_detected() {
    let code = compile("a = true; a = 1.0;");
    let expected = written(
        "pub struct Root { a : bool , a : f64 } \
         impl Default for Root { fn default ( ) -> Root { Root { a : true , a : 1.0 } } }",
    );
    assert_eq!(code, Ok(expected));
}

#[test]
fn keywords_are_no_names() {
    fails("type = 1;", syntax(Expected::Item), 0);
    fails("true = 1;", syntax(Expected::Item), 0);
    fails("_ = 1;", syntax(Expected::Item), 0);
    fails("[fn] x = 1;", syntax(Expected::Heading), 0);
    fails("a = { struct = 1 };", syntax(Expected::Name), 2);
    fails("[t] a = 1; type = 2;", syntax(Expected::Item), 5);
    fails("#[name = struct]", ErrorKind::InvalidMetadata, 1);
    fails("#[name = _]", ErrorKind::InvalidMetadata, 1);
}

#[test]
fn raw_identifiers_are_names() {
    let code = toml(&lex("#[name = C] r#type = true;")).unwrap();
    assert_eq!(code[3], Token::Group(
        Delimiter::Brace,
        vec![Token::ident("r#type"), Token::punct(':'), Token::ident("bool")],
    ));
}
