use crate::document::DocumentView;
use crate::item::ItemView;
use crate::naming::resolved_name;
use crate::property::PropertyView;
use crate::table::TableView;
use crate::token::{braces, ident, joint, literal, parens, punct, LiteralView, TokenView};
use crate::value::ValueView;
use vstd::prelude::*;

verus! {

/// The type of a field of a generated struct.
pub enum FieldType {
    /// `bool`
    Boolean,
    /// The 64-bit floating-point type.
    Number,
    /// `String`
    Text,
    /// A generated struct, by its name.
    Aggregate(Seq<char>),
}

/// A field of a generated struct.
pub struct Field {
    pub name: Seq<char>,
    pub ty: FieldType,
}

/// The declaration of a generated struct.
pub struct Declaration {
    pub public: bool,
    pub name: Seq<char>,
    pub fields: Seq<Field>,
}

/// The expression that gives a field its default.
pub enum Initializer {
    Boolean(bool),
    /// A number, by the text of its literal.
    Number(Seq<char>),
    /// An owned string, by its contents.
    Text(Seq<char>),
    Aggregate(Constructor),
}

/// One `name: value` entry of a struct expression.
pub struct Entry {
    pub name: Seq<char>,
    pub value: Initializer,
}

/// A struct expression: the name of the type and a value for each field.
pub struct Constructor {
    pub struct_name: Seq<char>,
    pub entries: Seq<Entry>,
}

// ---------------------------------------------------------------------------
// How the generated code is written down as tokens.
// ---------------------------------------------------------------------------

/// The token that names a field type.
pub open spec fn type_token(ty: FieldType) -> TokenView {
    match ty {
        FieldType::Boolean => ident("bool"@),
        FieldType::Number => ident("f64"@),
        FieldType::Text => ident("String"@),
        FieldType::Aggregate(name) => ident(name),
    }
}

/// `name : type`
pub open spec fn field_tokens(field: Field) -> Seq<TokenView> {
    seq![ident(field.name), punct(':'), type_token(field.ty)]
}

/// The first `n` fields, separated by commas.
pub open spec fn fields_tokens(fields: Seq<Field>, n: nat) -> Seq<TokenView>
    decreases n,
{
    if n == 0 || n > fields.len() {
        Seq::empty()
    } else if n == 1 {
        field_tokens(fields[0])
    } else {
        fields_tokens(fields, (n - 1) as nat) + seq![punct(',')] + field_tokens(fields[n - 1])
    }
}

/// `pub struct Name { fields }`, without `pub` for a private struct.
pub open spec fn declaration_tokens(declaration: Declaration) -> Seq<TokenView> {
    let head = if declaration.public {
        seq![ident("pub"@)]
    } else {
        Seq::empty()
    };
    head + seq![
        ident("struct"@),
        ident(declaration.name),
        braces(fields_tokens(declaration.fields, declaration.fields.len())),
    ]
}

/// The declarations one after the other.
pub open spec fn declarations_tokens(declarations: Seq<Declaration>) -> Seq<TokenView>
    decreases declarations.len(),
{
    if declarations.len() == 0 {
        Seq::empty()
    } else {
        declarations_tokens(declarations.drop_last()) + declaration_tokens(declarations.last())
    }
}

/// The tokens of a default expression.
pub open spec fn initializer_tokens(value: Initializer) -> Seq<TokenView>
    decreases value, 0nat,
{
    match value {
        Initializer::Boolean(b) => seq![
            ident(
                if b {
                    "true"@
                } else {
                    "false"@
                },
            ),
        ],
        Initializer::Number(text) => seq![literal(LiteralView::Float(text))],
        Initializer::Text(contents) => seq![
            literal(LiteralView::Str(contents)),
            punct('.'),
            ident("into"@),
            parens(Seq::empty()),
        ],
        Initializer::Aggregate(constructor) => constructor_tokens(constructor),
    }
}

/// `name : value`
pub open spec fn entry_tokens(entry: Entry) -> Seq<TokenView>
    decreases entry, 1nat,
{
    seq![ident(entry.name), punct(':')] + initializer_tokens(entry.value)
}

/// The first `n` entries, separated by commas.
pub open spec fn entries_tokens(entries: Seq<Entry>, n: nat) -> Seq<TokenView>
    decreases entries, n,
{
    if n == 0 || n > entries.len() {
        Seq::empty()
    } else if n == 1 {
        entry_tokens(entries[0])
    } else {
        entries_tokens(entries, (n - 1) as nat) + seq![punct(',')] + entry_tokens(
            entries[n - 1],
        )
    }
}

/// `Name { entries }`
pub open spec fn constructor_tokens(constructor: Constructor) -> Seq<TokenView>
    decreases constructor, 0nat,
{
    seq![
        ident(constructor.struct_name),
        braces(entries_tokens(constructor.entries, constructor.entries.len())),
    ]
}

/// `impl Default for Name { fn default() -> Name { constructor } }`
pub open spec fn default_impl_tokens(name: Seq<char>, constructor: Constructor) -> Seq<
    TokenView,
> {
    seq![
        ident("impl"@),
        ident("Default"@),
        ident("for"@),
        ident(name),
        braces(
            seq![
                ident("fn"@),
                ident("default"@),
                parens(Seq::empty()),
                joint('-'),
                punct('>'),
                ident(name),
                braces(constructor_tokens(constructor)),
            ],
        ),
    ]
}

// ---------------------------------------------------------------------------
// What a schema generates. `chain` is always the ancestor chain of the
// aggregate that holds the property or item in question.
// ---------------------------------------------------------------------------

/// The type of the field that holds `property`.
pub open spec fn field_type_of(chain: Seq<Seq<char>>, property: PropertyView) -> FieldType {
    match property.value {
        ValueView::Boolean(_) => FieldType::Boolean,
        ValueView::Number(_) => FieldType::Number,
        ValueView::String(_) => FieldType::Text,
        ValueView::InlineTable(_) => FieldType::Aggregate(
            resolved_name(chain.push(property.name)),
        ),
    }
}

/// The field that holds `property`.
pub open spec fn field_of(chain: Seq<Seq<char>>, property: PropertyView) -> Field {
    Field { name: property.name, ty: field_type_of(chain, property) }
}

/// One field for each property, in order.
pub open spec fn fields_of(chain: Seq<Seq<char>>, properties: Seq<PropertyView>) -> Seq<Field> {
    Seq::new(properties.len(), |i: int| field_of(chain, properties[i]))
}

/// The struct for the aggregate reached by `chain`, which holds `properties`.
pub open spec fn aggregate_declaration(
    public: bool,
    chain: Seq<Seq<char>>,
    properties: Seq<PropertyView>,
) -> Declaration {
    Declaration { public, name: resolved_name(chain), fields: fields_of(chain, properties) }
}

/// The declarations that `property` calls for: none for a scalar; for an
/// inline table those of the inline tables inside it, then its own.
pub open spec fn value_declarations(chain: Seq<Seq<char>>, property: PropertyView) -> Seq<
    Declaration,
>
    decreases property, 0nat,
{
    match property.value {
        ValueView::InlineTable(properties) => nested_declarations(
            chain.push(property.name),
            properties,
            properties.len(),
        ).push(aggregate_declaration(true, chain.push(property.name), properties)),
        _ => Seq::empty(),
    }
}

/// The declarations that the first `n` of `properties` call for, in order.
pub open spec fn nested_declarations(
    chain: Seq<Seq<char>>,
    properties: Seq<PropertyView>,
    n: nat,
) -> Seq<Declaration>
    decreases properties, n,
{
    if n == 0 || n > properties.len() {
        Seq::empty()
    } else {
        nested_declarations(chain, properties, (n - 1) as nat) + value_declarations(
            chain,
            properties[n - 1],
        )
    }
}

/// The declarations that a table calls for: those of the inline tables
/// among its properties, then its own.
pub open spec fn table_declarations(chain: Seq<Seq<char>>, table: TableView) -> Seq<Declaration> {
    nested_declarations(chain.push(table.heading), table.contents, table.contents.len()).push(
        aggregate_declaration(false, chain.push(table.heading), table.contents),
    )
}

/// The declarations that a top-level item calls for.
pub open spec fn item_declarations(chain: Seq<Seq<char>>, item: ItemView) -> Seq<Declaration> {
    match item {
        ItemView::Table(table) => table_declarations(chain, table),
        ItemView::Property(property) => value_declarations(chain, property),
    }
}

/// The declarations that the first `n` of `items` call for, in order.
pub open spec fn items_declarations(chain: Seq<Seq<char>>, items: Seq<ItemView>, n: nat) -> Seq<
    Declaration,
>
    decreases n,
{
    if n == 0 || n > items.len() {
        Seq::empty()
    } else {
        items_declarations(chain, items, (n - 1) as nat) + item_declarations(chain, items[n - 1])
    }
}

/// The field of the root struct that holds a table.
pub open spec fn table_field(chain: Seq<Seq<char>>, table: TableView) -> Field {
    Field {
        name: table.heading,
        ty: FieldType::Aggregate(resolved_name(chain.push(table.heading))),
    }
}

/// The field of the root struct that holds `item`.
pub open spec fn item_field(chain: Seq<Seq<char>>, item: ItemView) -> Field {
    match item {
        ItemView::Table(table) => table_field(chain, table),
        ItemView::Property(property) => field_of(chain, property),
    }
}

/// The ancestor chain of the root's members: the root type's name alone.
pub open spec fn root_chain_of(document: DocumentView) -> Seq<Seq<char>> {
    seq![document.name]
}

/// The root struct: public, named as the schema says, one field per item.
pub open spec fn root_declaration(document: DocumentView) -> Declaration {
    Declaration {
        public: true,
        name: document.name,
        fields: Seq::new(
            document.items.len(),
            |i: int| item_field(root_chain_of(document), document.items[i]),
        ),
    }
}

/// Every struct of the generated code, in the order in which it is written:
/// those the items call for, then the root.
pub open spec fn all_declarations(document: DocumentView) -> Seq<Declaration> {
    items_declarations(root_chain_of(document), document.items, document.items.len()).push(
        root_declaration(document),
    )
}

/// The default of the field that holds `property`.
pub open spec fn initializer_of(chain: Seq<Seq<char>>, property: PropertyView) -> Initializer
    decreases property, 0nat,
{
    match property.value {
        ValueView::Boolean(b) => Initializer::Boolean(b),
        ValueView::Number(text) => Initializer::Number(text),
        ValueView::String(contents) => Initializer::Text(contents),
        ValueView::InlineTable(properties) => Initializer::Aggregate(
            constructor_of(chain.push(property.name), properties),
        ),
    }
}

/// The entry that gives the field of `property` its default.
pub open spec fn entry_of(chain: Seq<Seq<char>>, property: PropertyView) -> Entry
    decreases property, 1nat,
{
    Entry { name: property.name, value: initializer_of(chain, property) }
}

/// The entries for the first `n` of `properties`, in order.
pub open spec fn entries_of(chain: Seq<Seq<char>>, properties: Seq<PropertyView>, n: nat) -> Seq<
    Entry,
>
    decreases properties, n,
{
    if n == 0 || n > properties.len() {
        Seq::empty()
    } else {
        entries_of(chain, properties, (n - 1) as nat).push(entry_of(chain, properties[n - 1]))
    }
}

/// The struct expression that builds the default of the aggregate reached by
/// `chain`, which holds `properties`.
pub open spec fn constructor_of(chain: Seq<Seq<char>>, properties: Seq<PropertyView>) -> Constructor
    decreases properties, properties.len() + 1,
{
    Constructor {
        struct_name: resolved_name(chain),
        entries: entries_of(chain, properties, properties.len()),
    }
}

/// The entry of the root's default that holds a table.
pub open spec fn table_entry(chain: Seq<Seq<char>>, table: TableView) -> Entry {
    Entry {
        name: table.heading,
        value: Initializer::Aggregate(constructor_of(chain.push(table.heading), table.contents)),
    }
}

/// The entry of the root's default that holds `item`.
pub open spec fn item_entry(chain: Seq<Seq<char>>, item: ItemView) -> Entry {
    match item {
        ItemView::Table(table) => table_entry(chain, table),
        ItemView::Property(property) => entry_of(chain, property),
    }
}

/// The struct expression that builds the default of the root.
pub open spec fn root_constructor(document: DocumentView) -> Constructor {
    Constructor {
        struct_name: document.name,
        entries: Seq::new(
            document.items.len(),
            |i: int| item_entry(root_chain_of(document), document.items[i]),
        ),
    }
}

/// The whole of the generated code: every struct, children before the struct
/// that holds them and the root last, then the root's `Default`.
pub open spec fn document_tokens(document: DocumentView) -> Seq<TokenView> {
    declarations_tokens(all_declarations(document)) + default_impl_tokens(
        document.name,
        root_constructor(document),
    )
}

// ---------------------------------------------------------------------------
// Facts about the definitions above that the emitters use.
// ---------------------------------------------------------------------------

/// Declarations written one run after another are the two runs joined.
pub proof fn lemma_declarations_tokens_add(first: Seq<Declaration>, second: Seq<Declaration>)
    ensures
        declarations_tokens(first + second) == declarations_tokens(first) + declarations_tokens(
            second,
        ),
    decreases second.len(),
{
    if second.len() == 0 {
    } else {
        lemma_declarations_tokens_add(first, second.drop_last());
        assert((first + second).drop_last() =~= first + second.drop_last());
    }
}

/// A single declaration written as a run is that declaration.
pub proof fn lemma_declarations_tokens_one(declaration: Declaration)
    ensures
        declarations_tokens(seq![declaration]) == declaration_tokens(declaration),
{
    assert(seq![declaration].drop_last() =~= Seq::<Declaration>::empty());
    assert(declarations_tokens(Seq::<Declaration>::empty()) =~= Seq::<TokenView>::empty());
}

/// A run with one more declaration is the run, then that declaration.
pub proof fn lemma_declarations_tokens_push(declarations: Seq<Declaration>, last: Declaration)
    ensures
        declarations_tokens(declarations.push(last)) == declarations_tokens(declarations)
            + declaration_tokens(last),
{
    assert(declarations.push(last).drop_last() =~= declarations);
}

/// There is one entry for each of the first `n` properties, each the entry
/// of its property.
pub proof fn lemma_entries_of(chain: Seq<Seq<char>>, properties: Seq<PropertyView>, n: nat)
    requires
        n <= properties.len(),
    ensures
        entries_of(chain, properties, n).len() == n,
        forall|k: int|
            0 <= k < n ==> #[trigger] entries_of(chain, properties, n)[k] == entry_of(
                chain,
                properties[k],
            ),
    decreases n,
{
    if n > 0 {
        lemma_entries_of(chain, properties, (n - 1) as nat);
    }
}

} // verus!
