//! What holds of every schema and of the code generated for it.

use crate::compiled;
use crate::document::DocumentView;
use crate::error::{ErrorKind, ParseError};
use crate::generated::{
    aggregate_declaration, all_declarations, constructor_of, declaration_tokens,
    declarations_tokens, default_impl_tokens, document_tokens, field_type_of, initializer_of,
    initializer_tokens, item_declarations, item_field, items_declarations,
    lemma_declarations_tokens_add, lemma_declarations_tokens_one, lemma_entries_of,
    nested_declarations, root_chain_of, root_constructor, root_declaration, value_declarations,
    Constructor, Declaration, Entry, Field, FieldType, Initializer,
};
use crate::grammar::{
    contents_width, document_of, item_at, item_tail, item_width, items_from, metadata_of, parsed,
    property_at, property_width, remaining, table_contents_at, value_at,
};
use crate::item::ItemView;
use crate::lexeme::{is_punct, name_of, LexemeView};
use crate::naming::resolved_name;
use crate::property::PropertyView;
use crate::token::{Delimiter, Token, TokenView};
use crate::value::ValueView;
use vstd::prelude::*;

verus! {

// ---------------------------------------------------------------------------
// Naming
// ---------------------------------------------------------------------------

/// Naming is deterministic: the name of a nested type depends on nothing but
/// the segments of its ancestor chain.
pub proof fn law_naming_is_deterministic(first: Seq<Seq<char>>, second: Seq<Seq<char>>)
    requires
        first.len() == second.len(),
        forall|i: int| 0 <= i < first.len() ==> first[i] == second[i],
    ensures
        resolved_name(first) == resolved_name(second),
{
    assert(first =~= second);
}

/// The three renderings of an inline table agree on its name: the type of
/// the field that holds it, the struct declared for it, and the struct
/// expression of its default all carry the name resolved from its chain.
pub proof fn law_renderings_agree_on_name(chain: Seq<Seq<char>>, property: PropertyView)
    requires
        property.value is InlineTable,
    ensures
        field_type_of(chain, property) == FieldType::Aggregate(
            resolved_name(chain.push(property.name)),
        ),
        value_declarations(chain, property).len() > 0,
        value_declarations(chain, property).last().name == resolved_name(
            chain.push(property.name),
        ),
        initializer_of(chain, property) is Aggregate,
        initializer_of(chain, property)->Aggregate_0.struct_name == resolved_name(
            chain.push(property.name),
        ),
{
}

/// Two compilations of the same schema give the same result, token for
/// token, or the same fault.
pub proof fn law_compilation_is_deterministic(
    input: Seq<LexemeView>,
    first: Result<Vec<Token>, ParseError>,
    second: Result<Vec<Token>, ParseError>,
)
    requires
        parsed(first) == compiled(input),
        parsed(second) == compiled(input),
    ensures
        parsed(first) == parsed(second),
{
}

// ---------------------------------------------------------------------------
// Reading
// ---------------------------------------------------------------------------

/// The number of tokens of `items`.
pub open spec fn items_width(items: Seq<ItemView>) -> nat
    decreases items.len(),
{
    if items.len() == 0 {
        0
    } else {
        item_width(items[0]) + items_width(items.drop_first())
    }
}

/// The number of tokens of the metadata: `#` and the brackets, where the
/// tokens open with `#`.
pub open spec fn metadata_width(tokens: Seq<LexemeView>) -> nat {
    if tokens.len() > 0 && is_punct(tokens[0], '#') {
        2
    } else {
        0
    }
}

/// A property that is read is spelled by three tokens: its name, `=`, and a
/// token that reads as its value.
pub proof fn law_property_is_spelled(tokens: Seq<LexemeView>, position: int)
    requires
        property_at(tokens, position) is Ok,
    ensures
        0 <= position,
        position + property_width() <= tokens.len(),
        name_of(tokens[position]) == Some(property_at(tokens, position)->Ok_0.name),
        is_punct(tokens[position + 1], '='),
        value_at(tokens, position + 2) == Ok::<ValueView, ErrorKind>(
            property_at(tokens, position)->Ok_0.value,
        ),
{
}

/// The properties under a table heading end within the tokens.
proof fn lemma_table_contents_fit(tokens: Seq<LexemeView>, position: int)
    requires
        0 <= position <= tokens.len(),
        table_contents_at(tokens, position) is Ok,
    ensures
        position + contents_width(table_contents_at(tokens, position)->Ok_0) <= tokens.len(),
    decreases remaining(tokens, position),
{
    if position < tokens.len() && name_of(tokens[position]) is Some {
        let after = position + property_width();
        lemma_table_contents_fit(tokens, after + 1);
    }
}

/// An item that is read ends within the tokens.
proof fn lemma_item_fits(tokens: Seq<LexemeView>, position: int)
    requires
        item_at(tokens, position) is Ok,
    ensures
        0 <= position,
        position + item_width(item_at(tokens, position)->Ok_0) <= tokens.len(),
{
    if name_of(tokens[position]) is None {
        lemma_table_contents_fit(tokens, position + 1);
    }
}

/// Items that are read from a position on take up every token from there to
/// the end.
proof fn lemma_items_reach_the_end(tokens: Seq<LexemeView>, position: int)
    requires
        0 <= position <= tokens.len(),
        items_from(tokens, position) is Ok,
    ensures
        position + items_width(items_from(tokens, position)->Ok_0) == tokens.len(),
    decreases remaining(tokens, position),
{
    if position < tokens.len() {
        let item = item_at(tokens, position)->Ok_0;
        lemma_item_fits(tokens, position);
        let after = position + 1 + item_tail(item);
        lemma_items_reach_the_end(tokens, after);
        let rest = items_from(tokens, after)->Ok_0;
        assert((seq![item] + rest).drop_first() =~= rest);
    }
}

/// A schema that is accepted is read to its last token: the metadata and
/// the items take up all the tokens.
pub proof fn law_schema_is_read_to_the_end(tokens: Seq<LexemeView>)
    requires
        document_of(tokens) is Ok,
    ensures
        metadata_width(tokens) + items_width(document_of(tokens)->Ok_0.items) == tokens.len(),
{
    if tokens.len() > 0 && is_punct(tokens[0], '#') {
        lemma_items_reach_the_end(tokens, 2);
    } else {
        lemma_items_reach_the_end(tokens, 0);
    }
}

/// The fault of reading the properties under a table heading lies within
/// the tokens or at their end.
proof fn lemma_table_contents_fault(tokens: Seq<LexemeView>, position: int)
    requires
        0 <= position <= tokens.len() <= usize::MAX,
        table_contents_at(tokens, position) is Err,
    ensures
        table_contents_at(tokens, position)->Err_0.position <= tokens.len(),
    decreases remaining(tokens, position),
{
    if position < tokens.len() && name_of(tokens[position]) is Some {
        if property_at(tokens, position) is Ok {
            let after = position + property_width();
            if after < tokens.len() && is_punct(tokens[after], ';') {
                lemma_table_contents_fault(tokens, after + 1);
            }
        }
    }
}

/// The fault of reading items lies within the tokens or at their end.
proof fn lemma_items_fault(tokens: Seq<LexemeView>, position: int)
    requires
        0 <= position <= tokens.len() <= usize::MAX,
        items_from(tokens, position) is Err,
    ensures
        items_from(tokens, position)->Err_0.position <= tokens.len(),
    decreases remaining(tokens, position),
{
    if position < tokens.len() {
        match item_at(tokens, position) {
            Ok(item) => {
                lemma_items_fault(tokens, position + 1 + item_tail(item));
            },
            Err(_) => {
                match tokens[position] {
                    LexemeView::Group(Delimiter::Bracket, heading) => {
                        if heading.len() == 1 && name_of(heading[0]) is Some {
                            lemma_table_contents_fault(tokens, position + 1);
                        }
                    },
                    _ => {},
                }
            },
        }
    }
}

/// A fault is reported at a token of the schema, or at its end where the
/// schema breaks off.
pub proof fn law_fault_lies_within_the_schema(tokens: Seq<LexemeView>)
    requires
        tokens.len() <= usize::MAX,
        document_of(tokens) is Err,
    ensures
        document_of(tokens)->Err_0.position <= tokens.len(),
{
    if tokens.len() > 0 && is_punct(tokens[0], '#') {
        if tokens.len() >= 2 {
            match tokens[1] {
                LexemeView::Group(Delimiter::Bracket, contents) => {
                    if metadata_of(contents) is Ok {
                        lemma_items_fault(tokens, 2);
                    }
                },
                _ => {},
            }
        }
    } else {
        lemma_items_fault(tokens, 0);
    }
}

// ---------------------------------------------------------------------------
// Defaults
// ---------------------------------------------------------------------------

/// The value that a default expression stands for.
pub open spec fn scalar_of(value: Initializer) -> Option<ValueView> {
    match value {
        Initializer::Boolean(b) => Some(ValueView::Boolean(b)),
        Initializer::Number(text) => Some(ValueView::Number(text)),
        Initializer::Text(contents) => Some(ValueView::String(contents)),
        Initializer::Aggregate(_) => None,
    }
}

/// The default of a boolean, a number or a string stands for the value that
/// was read: the same boolean, the same literal text of the number, the same
/// contents of the string.
pub proof fn law_default_keeps_scalar(chain: Seq<Seq<char>>, property: PropertyView)
    requires
        !(property.value is InlineTable),
    ensures
        scalar_of(initializer_of(chain, property)) == Some(property.value),
{
}

/// The token of the generated code as it is handed over where it stands
/// for a value by itself.
pub open spec fn read_alone(token: TokenView) -> LexemeView {
    match token {
        TokenView::Ident(text) => LexemeView::Ident { text, name: false, reach: 1 },
        TokenView::Punct(c, _) => LexemeView::Punct(c),
        TokenView::Literal(literal) => LexemeView::Literal { literal, reach: 1 },
        TokenView::Group(delimiter, _) => LexemeView::Group(delimiter, Seq::empty()),
    }
}

/// The default of a boolean, a number or a string opens with the token that
/// reads as the value again: `true` or `false`, the literal with the digits
/// of the number, the string literal with the contents of the string.
pub proof fn law_default_reads_back(chain: Seq<Seq<char>>, property: PropertyView)
    requires
        !(property.value is InlineTable),
    ensures
        value_at(
            seq![read_alone(initializer_tokens(initializer_of(chain, property))[0])],
            0,
        ) == Ok::<ValueView, ErrorKind>(property.value),
{
    reveal_strlit("true");
    reveal_strlit("false");
    assert("true"@.len() != "false"@.len());
}

// ---------------------------------------------------------------------------
// Order of fields
// ---------------------------------------------------------------------------

/// Whether an entry of a struct expression belongs to a field: they have the
/// same name, and the entry builds an aggregate exactly where the field's
/// type is one, of that very type.
pub open spec fn entry_fits_field(field: Field, entry: Entry) -> bool {
    &&& field.name == entry.name
    &&& match field.ty {
        FieldType::Boolean => entry.value is Boolean,
        FieldType::Number => entry.value is Number,
        FieldType::Text => entry.value is Text,
        FieldType::Aggregate(name) => entry.value is Aggregate
            && entry.value->Aggregate_0.struct_name == name,
    }
}

/// Whether a struct expression fits a declaration: it names the declared
/// struct and has, in the order of the fields, one fitting entry for each.
pub open spec fn constructor_fits(declaration: Declaration, constructor: Constructor) -> bool {
    &&& declaration.name == constructor.struct_name
    &&& declaration.fields.len() == constructor.entries.len()
    &&& forall|k: int|
        0 <= k < declaration.fields.len() ==> entry_fits_field(
            #[trigger] declaration.fields[k],
            constructor.entries[k],
        )
}

/// Order is preserved in every table and inline table: the fields of its
/// struct and the entries of its default are those of its properties, in the
/// order of the properties.
pub proof fn law_order_is_preserved(
    public: bool,
    chain: Seq<Seq<char>>,
    properties: Seq<PropertyView>,
)
    ensures
        constructor_fits(
            aggregate_declaration(public, chain, properties),
            constructor_of(chain, properties),
        ),
        aggregate_declaration(public, chain, properties).fields.len() == properties.len(),
        forall|k: int|
            0 <= k < properties.len() ==> #[trigger] aggregate_declaration(
                public,
                chain,
                properties,
            ).fields[k].name == properties[k].name,
{
    lemma_entries_of(chain, properties, properties.len());
    let declaration = aggregate_declaration(public, chain, properties);
    let constructor = constructor_of(chain, properties);
    assert forall|k: int| 0 <= k < declaration.fields.len() implies entry_fits_field(
        #[trigger] declaration.fields[k],
        constructor.entries[k],
    ) by {
    }
}

/// Order is preserved in the root: the fields of the root struct and the
/// entries of its default are those of the items, in the order of the items.
pub proof fn law_root_order_is_preserved(document: DocumentView)
    ensures
        constructor_fits(root_declaration(document), root_constructor(document)),
        root_declaration(document).fields.len() == document.items.len(),
{
    let declaration = root_declaration(document);
    let constructor = root_constructor(document);
    assert forall|k: int| 0 <= k < declaration.fields.len() implies entry_fits_field(
        #[trigger] declaration.fields[k],
        constructor.entries[k],
    ) by {
    }
}

// ---------------------------------------------------------------------------
// Declaration before use
// ---------------------------------------------------------------------------

/// Whether one of `declarations` declares the struct `name`.
pub open spec fn declares(declarations: Seq<Declaration>, name: Seq<char>) -> bool {
    exists|j: int| 0 <= j < declarations.len() && (#[trigger] declarations[j]).name == name
}

/// Whether every struct that a field of one of `declarations` refers to is
/// declared by an earlier one of them.
pub open spec fn declared_before_use(declarations: Seq<Declaration>) -> bool {
    forall|i: int, k: int|
        0 <= i < declarations.len() && 0 <= k < declarations[i].fields.len() && (
        #[trigger] declarations[i].fields[k]).ty is Aggregate ==> declares(
            declarations.take(i),
            declarations[i].fields[k].ty->Aggregate_0,
        )
}

/// What is declared in one of two runs is declared in the two joined.
proof fn lemma_declares_add(first: Seq<Declaration>, second: Seq<Declaration>, name: Seq<char>)
    requires
        declares(first, name) || declares(second, name),
    ensures
        declares(first + second, name),
{
    if declares(first, name) {
        let j = choose|j: int| 0 <= j < first.len() && (#[trigger] first[j]).name == name;
        assert((first + second)[j].name == name);
    } else {
        let j = choose|j: int| 0 <= j < second.len() && (#[trigger] second[j]).name == name;
        assert((first + second)[first.len() + j].name == name);
    }
}

/// Two runs that declare before use still do so when joined.
proof fn lemma_declared_before_use_add(first: Seq<Declaration>, second: Seq<Declaration>)
    requires
        declared_before_use(first),
        declared_before_use(second),
    ensures
        declared_before_use(first + second),
{
    let both = first + second;
    assert forall|i: int, k: int|
        0 <= i < both.len() && 0 <= k < both[i].fields.len() && (
        #[trigger] both[i].fields[k]).ty is Aggregate implies declares(
        both.take(i),
        both[i].fields[k].ty->Aggregate_0,
    ) by {
        let name = both[i].fields[k].ty->Aggregate_0;
        if i < first.len() {
            assert(both.take(i) =~= first.take(i));
        } else {
            let at = i - first.len();
            assert(both.take(i) =~= first + second.take(at));
            lemma_declares_add(first, second.take(at), name);
        }
    }
}

/// A run that declares before use still does so with one more declaration,
/// if the run declares every struct that the new one refers to.
proof fn lemma_declared_before_use_push(declarations: Seq<Declaration>, last: Declaration)
    requires
        declared_before_use(declarations),
        forall|k: int|
            0 <= k < last.fields.len() && (#[trigger] last.fields[k]).ty is Aggregate ==> declares(
                declarations,
                last.fields[k].ty->Aggregate_0,
            ),
    ensures
        declared_before_use(declarations.push(last)),
{
    let all = declarations.push(last);
    assert forall|i: int, k: int|
        0 <= i < all.len() && 0 <= k < all[i].fields.len() && (
        #[trigger] all[i].fields[k]).ty is Aggregate implies declares(
        all.take(i),
        all[i].fields[k].ty->Aggregate_0,
    ) by {
        if i < declarations.len() {
            assert(all.take(i) =~= declarations.take(i));
        } else {
            assert(all.take(i) =~= declarations);
        }
    }
}

/// The declarations that a property calls for declare before use, and where
/// the property holds an inline table the last of them declares its struct.
proof fn lemma_value_declarations(chain: Seq<Seq<char>>, property: PropertyView)
    ensures
        declared_before_use(value_declarations(chain, property)),
        property.value is InlineTable ==> declares(
            value_declarations(chain, property),
            resolved_name(chain.push(property.name)),
        ),
    decreases property, 0nat,
{
    match property.value {
        ValueView::InlineTable(properties) => {
            let inner = chain.push(property.name);
            let nested = nested_declarations(inner, properties, properties.len());
            let own = aggregate_declaration(true, inner, properties);
            lemma_nested_declarations(inner, properties, properties.len());
            assert forall|k: int|
                0 <= k < own.fields.len() && (
                #[trigger] own.fields[k]).ty is Aggregate implies declares(
                nested,
                own.fields[k].ty->Aggregate_0,
            ) by {
            }
            lemma_declared_before_use_push(nested, own);
            assert(nested.push(own)[nested.len() as int].name == resolved_name(inner));
        },
        _ => {},
    }
}

/// The declarations that the first `n` properties call for declare before
/// use, and they declare the struct of each inline table among those
/// properties.
proof fn lemma_nested_declarations(chain: Seq<Seq<char>>, properties: Seq<PropertyView>, n: nat)
    requires
        n <= properties.len(),
    ensures
        declared_before_use(nested_declarations(chain, properties, n)),
        forall|k: int|
            0 <= k < n && (#[trigger] properties[k]).value is InlineTable ==> declares(
                nested_declarations(chain, properties, n),
                resolved_name(chain.push(properties[k].name)),
            ),
    decreases properties, n,
{
    if n > 0 {
        let before = nested_declarations(chain, properties, (n - 1) as nat);
        let more = value_declarations(chain, properties[n - 1]);
        lemma_nested_declarations(chain, properties, (n - 1) as nat);
        lemma_value_declarations(chain, properties[n - 1]);
        lemma_declared_before_use_add(before, more);
        assert forall|k: int|
            0 <= k < n && (#[trigger] properties[k]).value is InlineTable implies declares(
            before + more,
            resolved_name(chain.push(properties[k].name)),
        ) by {
            lemma_declares_add(before, more, resolved_name(chain.push(properties[k].name)));
        }
    }
}

/// The declarations that an item calls for declare before use, and where
/// the item's field is of a struct type they declare that struct.
proof fn lemma_item_declarations(chain: Seq<Seq<char>>, item: ItemView)
    ensures
        declared_before_use(item_declarations(chain, item)),
        item_field(chain, item).ty is Aggregate ==> declares(
            item_declarations(chain, item),
            item_field(chain, item).ty->Aggregate_0,
        ),
{
    match item {
        ItemView::Table(table) => {
            let inner = chain.push(table.heading);
            let nested = nested_declarations(inner, table.contents, table.contents.len());
            let own = aggregate_declaration(false, inner, table.contents);
            lemma_nested_declarations(inner, table.contents, table.contents.len());
            assert forall|k: int|
                0 <= k < own.fields.len() && (
                #[trigger] own.fields[k]).ty is Aggregate implies declares(
                nested,
                own.fields[k].ty->Aggregate_0,
            ) by {
            }
            lemma_declared_before_use_push(nested, own);
            assert(nested.push(own)[nested.len() as int].name == resolved_name(inner));
        },
        ItemView::Property(property) => {
            lemma_value_declarations(chain, property);
        },
    }
}

/// The declarations that the first `n` items call for declare before use,
/// and they declare the struct of each of those items whose field is of a
/// struct type.
proof fn lemma_items_declarations(chain: Seq<Seq<char>>, items: Seq<ItemView>, n: nat)
    requires
        n <= items.len(),
    ensures
        declared_before_use(items_declarations(chain, items, n)),
        forall|k: int|
            0 <= k < n && item_field(chain, #[trigger] items[k]).ty is Aggregate ==> declares(
                items_declarations(chain, items, n),
                item_field(chain, items[k]).ty->Aggregate_0,
            ),
    decreases n,
{
    if n > 0 {
        let before = items_declarations(chain, items, (n - 1) as nat);
        let more = item_declarations(chain, items[n - 1]);
        lemma_items_declarations(chain, items, (n - 1) as nat);
        lemma_item_declarations(chain, items[n - 1]);
        lemma_declared_before_use_add(before, more);
        assert forall|k: int|
            0 <= k < n && item_field(chain, #[trigger] items[k]).ty is Aggregate implies declares(
            before + more,
            item_field(chain, items[k]).ty->Aggregate_0,
        ) by {
            lemma_declares_add(before, more, item_field(chain, items[k]).ty->Aggregate_0);
        }
    }
}

/// Declaration before use: in the generated code, every struct that a field
/// of a struct refers to is declared by an earlier struct.
pub proof fn law_declaration_before_use(document: DocumentView)
    ensures
        declared_before_use(all_declarations(document)),
{
    let chain = root_chain_of(document);
    let nested = items_declarations(chain, document.items, document.items.len());
    let root = root_declaration(document);
    lemma_items_declarations(chain, document.items, document.items.len());
    assert forall|k: int|
        0 <= k < root.fields.len() && (#[trigger] root.fields[k]).ty is Aggregate implies declares(
        nested,
        root.fields[k].ty->Aggregate_0,
    ) by {
    }
    lemma_declared_before_use_push(nested, root);
}

/// Whether, in the generated code, the tokens of the declaration at index
/// `used` stand wholly before the tokens of the declaration at index `user`.
pub open spec fn is_written_earlier(document: DocumentView, used: int, user: int) -> bool {
    let declarations = all_declarations(document);
    &&& 0 <= used < user < declarations.len()
    &&& document_tokens(document) == declarations_tokens(declarations.take(used))
        + declaration_tokens(declarations[used]) + declarations_tokens(
        declarations.subrange(used + 1, user),
    ) + declaration_tokens(declarations[user]) + declarations_tokens(
        declarations.skip(user + 1),
    ) + default_impl_tokens(document.name, root_constructor(document))
}

/// In the generated code every struct that a field refers to is written
/// earlier than the struct that holds the field.
pub proof fn law_used_struct_is_written_earlier(document: DocumentView, user: int, field: int)
    requires
        0 <= user < all_declarations(document).len(),
        0 <= field < all_declarations(document)[user].fields.len(),
        all_declarations(document)[user].fields[field].ty is Aggregate,
    ensures
        exists|used: int|
            #[trigger] is_written_earlier(document, used, user) && all_declarations(
                document,
            )[used].name == all_declarations(document)[user].fields[field].ty->Aggregate_0,
{
    let declarations = all_declarations(document);
    let name = declarations[user].fields[field].ty->Aggregate_0;
    law_declaration_before_use(document);
    let used = choose|j: int|
        0 <= j < declarations.take(user).len() && (#[trigger] declarations.take(user)[j]).name
            == name;
    law_declarations_are_written_in_order(declarations, used, user);
    assert(is_written_earlier(document, used, user));
}

/// The declarations are written in their order: of two of them, the tokens
/// of the earlier stand wholly before the tokens of the later.
pub proof fn law_declarations_are_written_in_order(
    declarations: Seq<Declaration>,
    earlier: int,
    later: int,
)
    requires
        0 <= earlier < later < declarations.len(),
    ensures
        declarations_tokens(declarations) == declarations_tokens(declarations.take(earlier))
            + declaration_tokens(declarations[earlier]) + declarations_tokens(
            declarations.subrange(earlier + 1, later),
        ) + declaration_tokens(declarations[later]) + declarations_tokens(
            declarations.skip(later + 1),
        ),
{
    let a = declarations.take(earlier);
    let b = seq![declarations[earlier]];
    let c = declarations.subrange(earlier + 1, later);
    let d = seq![declarations[later]];
    let e = declarations.skip(later + 1);
    assert(declarations =~= a + b + c + d + e);
    lemma_declarations_tokens_add(a + b + c + d, e);
    lemma_declarations_tokens_add(a + b + c, d);
    lemma_declarations_tokens_add(a + b, c);
    lemma_declarations_tokens_add(a, b);
    lemma_declarations_tokens_one(declarations[earlier]);
    lemma_declarations_tokens_one(declarations[later]);
}

// ---------------------------------------------------------------------------
// One struct for each aggregate
// ---------------------------------------------------------------------------

/// The number of inline tables that `property` holds: its own, if its value
/// is one, and those nested in it.
pub open spec fn inline_tables_in(property: PropertyView) -> nat
    decreases property, 0nat,
{
    match property.value {
        ValueView::InlineTable(properties) => 1 + inline_tables_among(
            properties,
            properties.len(),
        ),
        _ => 0,
    }
}

/// The number of inline tables that the first `n` of `properties` hold.
pub open spec fn inline_tables_among(properties: Seq<PropertyView>, n: nat) -> nat
    decreases properties, n,
{
    if n == 0 || n > properties.len() {
        0
    } else {
        inline_tables_among(properties, (n - 1) as nat) + inline_tables_in(properties[n - 1])
    }
}

/// The number of tables and inline tables of `item`.
pub open spec fn aggregates_of(item: ItemView) -> nat {
    match item {
        ItemView::Table(table) => 1 + inline_tables_among(table.contents, table.contents.len()),
        ItemView::Property(property) => inline_tables_in(property),
    }
}

/// The number of tables and inline tables of the first `n` of `items`.
pub open spec fn aggregates_among(items: Seq<ItemView>, n: nat) -> nat
    decreases n,
{
    if n == 0 || n > items.len() {
        0
    } else {
        aggregates_among(items, (n - 1) as nat) + aggregates_of(items[n - 1])
    }
}

/// A property calls for as many declarations as it holds inline tables.
proof fn lemma_count_value_declarations(chain: Seq<Seq<char>>, property: PropertyView)
    ensures
        value_declarations(chain, property).len() == inline_tables_in(property),
    decreases property, 0nat,
{
    match property.value {
        ValueView::InlineTable(properties) => {
            lemma_count_nested_declarations(
                chain.push(property.name),
                properties,
                properties.len(),
            );
        },
        _ => {},
    }
}

/// Properties call for as many declarations as they hold inline tables.
proof fn lemma_count_nested_declarations(
    chain: Seq<Seq<char>>,
    properties: Seq<PropertyView>,
    n: nat,
)
    requires
        n <= properties.len(),
    ensures
        nested_declarations(chain, properties, n).len() == inline_tables_among(properties, n),
    decreases properties, n,
{
    if n > 0 {
        lemma_count_nested_declarations(chain, properties, (n - 1) as nat);
        lemma_count_value_declarations(chain, properties[n - 1]);
    }
}

/// Items call for as many declarations as they have tables and inline
/// tables.
proof fn lemma_count_items_declarations(chain: Seq<Seq<char>>, items: Seq<ItemView>, n: nat)
    requires
        n <= items.len(),
    ensures
        items_declarations(chain, items, n).len() == aggregates_among(items, n),
    decreases n,
{
    if n > 0 {
        lemma_count_items_declarations(chain, items, (n - 1) as nat);
        match items[n - 1] {
            ItemView::Table(table) => {
                lemma_count_nested_declarations(
                    chain.push(table.heading),
                    table.contents,
                    table.contents.len(),
                );
            },
            ItemView::Property(property) => {
                lemma_count_value_declarations(chain, property);
            },
        }
    }
}

/// The generated code declares one struct for each table and each inline
/// table of the schema, and one for the root.
pub proof fn law_one_struct_for_each_aggregate(document: DocumentView)
    ensures
        all_declarations(document).len() == aggregates_among(
            document.items,
            document.items.len(),
        ) + 1,
{
    lemma_count_items_declarations(
        root_chain_of(document),
        document.items,
        document.items.len(),
    );
}

// ---------------------------------------------------------------------------
// Emission
// ---------------------------------------------------------------------------

/// Emission is idempotent: writing the code of the same schema twice, after
/// the same tokens, gives the same tokens.
pub proof fn law_emission_is_idempotent(
    document: DocumentView,
    before: Seq<TokenView>,
    first: Seq<TokenView>,
    second: Seq<TokenView>,
)
    requires
        first == before + document_tokens(document),
        second == before + document_tokens(document),
    ensures
        first == second,
{
}

} // verus!
