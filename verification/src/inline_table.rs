use crate::error::{ErrorKind, Expected, ParseError};
use crate::generated::{
    aggregate_declaration, constructor_of, constructor_tokens, declarations_tokens, entries_of,
    entries_tokens, entry_of, entry_tokens, fields_of, fields_tokens, lemma_declarations_tokens_add,
    lemma_declarations_tokens_push, lemma_entries_of, nested_declarations, value_declarations,
    Constructor, Declaration,
};
use crate::grammar::{inline_table_from, lemma_prepend_push, parsed, prepend};
use crate::lexeme::Lexeme;
use crate::naming::{copy_chain, extend_chain, resolve_name};
use crate::property::{ChildProperty, Property, PropertyView};
use crate::token::{punct, push_token, Delimiter, Token};
use crate::value::{ChildValue, Value, ValueView};
use vstd::prelude::*;

verus! {

/// The properties between the braces of an inline table, in the order
/// written.
#[derive(Debug, PartialEq, Eq)]
pub struct InlineTable(pub Vec<Property>);

/// The views of the first `n` of `properties`.
pub open spec fn property_views_upto(properties: &Vec<Property>, n: nat) -> Seq<PropertyView>
    decreases properties, n,
{
    if n == 0 || n > properties.len() {
        Seq::empty()
    } else {
        property_views_upto(properties, (n - 1) as nat).push(properties[n - 1].deep_view())
    }
}

impl DeepView for InlineTable {
    type V = Seq<PropertyView>;

    open spec fn deep_view(&self) -> Seq<PropertyView>
        decreases self, 0nat,
    {
        property_views_upto(&self.0, self.0.len() as nat)
    }
}

/// The first `n` views of a vector of properties are a prefix of its view.
pub proof fn lemma_property_views_upto(properties: &Vec<Property>, n: nat)
    requires
        n <= properties.len(),
    ensures
        property_views_upto(properties, n) == properties.deep_view().take(n as int),
    decreases n,
{
    if n > 0 {
        lemma_property_views_upto(properties, (n - 1) as nat);
        assert(properties.deep_view()[n - 1] == properties[n - 1].deep_view());
    }
}

/// The view of an inline table is the view of its properties, one by one.
pub proof fn lemma_inline_table_view(table: &InlineTable)
    ensures
        table.deep_view() == table.0.deep_view(),
{
    lemma_property_views_upto(&table.0, table.0.len() as nat);
}

/// A copy of `properties`.
pub fn copy_properties(properties: &Vec<Property>) -> (copies: Vec<Property>)
    ensures
        copies.deep_view() == properties.deep_view(),
    decreases properties,
{
    let mut copies: Vec<Property> = Vec::new();
    let mut i: usize = 0;
    while i < properties.len()
        invariant
            i <= properties.len(),
            copies.len() == i,
            forall|k: int| 0 <= k < i ==> copies[k].deep_view() == properties[k].deep_view(),
        decreases properties.len() - i,
    {
        copies.push(properties[i].clone());
        i += 1;
    }
    copies
}

impl Clone for InlineTable {
    fn clone(&self) -> (copy: InlineTable)
        ensures
            copy.deep_view() == self.deep_view(),
        decreases self,
    {
        let copy = InlineTable(copy_properties(&self.0));
        proof {
            lemma_inline_table_view(&copy);
            lemma_inline_table_view(self);
        }
        copy
    }
}

impl InlineTable {
    /// Reads the properties between the braces of an inline table. They are
    /// separated by commas; a comma may follow the last, but none may stand
    /// first or follow another comma.
    pub fn parse(input: &Vec<Lexeme>) -> (result: Result<InlineTable, ParseError>)
        ensures
            parsed(result) == inline_table_from(input.deep_view(), 0),
        decreases input, 2nat,
    {
        let ghost tokens = input.deep_view();
        let len = input.len();
        let mut properties: Vec<Property> = Vec::new();
        let mut position: usize = 0;
        while position < len
            invariant
                position <= len,
                len == input.len(),
                tokens == input.deep_view(),
                inline_table_from(tokens, 0) == prepend(
                    properties.deep_view(),
                    inline_table_from(tokens, position as int),
                ),
            decreases len - position,
        {
            let ghost before = properties.deep_view();
            let property = match Property::parse(input, position) {
                Ok(property) => property,
                Err(error) => {
                    return Err(error);
                },
            };
            let after = position + 3;
            let ghost rest = if after < len {
                inline_table_from(tokens, after + 1)
            } else {
                Ok(Seq::empty())
            };
            proof {
                lemma_prepend_push(before, property.deep_view(), rest);
            }
            properties.push(property);
            assert(properties.deep_view() =~= before.push(property.deep_view()));
            if after >= len {
                position = len;
            } else {
                if input[after].is_punct(',') {
                    position = after + 1;
                } else {
                    return Err(
                        ParseError {
                            kind: ErrorKind::SyntaxError(Expected::Comma),
                            position: after,
                        },
                    );
                }
            }
        }
        let table = InlineTable(properties);
        proof {
            lemma_inline_table_view(&table);
        }
        Ok(table)
    }

    /// Places the inline table, the value of the property `name`, under the
    /// aggregate reached by `ancestors`.
    pub fn into_child_inline_table(self, name: String, ancestors: Vec<String>) -> (child:
        ChildInlineTable)
        ensures
            child.table == self,
            child.name == name,
            child.ancestors == ancestors,
    {
        ChildInlineTable { table: self, ancestors, name }
    }
}

/// An inline table together with the name of the property that holds it and
/// the ancestor chain of the aggregate that holds that property.
#[derive(Debug, PartialEq, Eq)]
pub struct ChildInlineTable {
    pub table: InlineTable,
    pub ancestors: Vec<String>,
    pub name: String,
}

impl ChildInlineTable {
    /// The ancestor chain of the inline table itself.
    pub open spec fn chain(&self) -> Seq<Seq<char>> {
        self.ancestors.deep_view().push(self.name@)
    }

    /// The property that holds the inline table.
    pub open spec fn property(&self) -> PropertyView {
        PropertyView { name: self.name@, value: ValueView::InlineTable(self.table.deep_view()) }
    }

    /// An inline table by itself writes nothing: its declaration and its
    /// default are written by [`ChildInlineTablePrelude`] and
    /// [`ChildInlineTableDefault`].
    pub fn to_tokens(&self, tokens: &mut Vec<Token>)
        ensures
            final(tokens).deep_view() == old(tokens).deep_view(),
    {
    }
}

/// Written as tokens: the struct declared for the inline table, after the
/// structs of the inline tables inside it.
#[derive(Debug, PartialEq, Eq)]
pub struct ChildInlineTablePrelude(pub ChildInlineTable);

impl std::ops::Deref for ChildInlineTablePrelude {
    type Target = ChildInlineTable;

    /// The inline table, its name and its ancestor chain.
    fn deref(&self) -> (inner: &ChildInlineTable)
        ensures
            *inner == self.0,
    {
        &self.0
    }
}

impl ChildInlineTablePrelude {
    /// The declarations that the inline table calls for.
    pub open spec fn declarations(&self) -> Seq<Declaration> {
        value_declarations(self.0.ancestors.deep_view(), self.0.property())
    }

    /// Appends to `tokens` the declarations of the inline tables among the
    /// properties, each with those nested in it, in the order of the
    /// properties; then `pub struct Name { fields }` for the table itself.
    pub fn to_tokens(&self, tokens: &mut Vec<Token>)
        ensures
            final(tokens).deep_view() == old(tokens).deep_view() + declarations_tokens(
                self.declarations(),
            ),
        decreases self.0.table.deep_view(), 1nat,
    {
        let chain = extend_chain(&self.0.ancestors, self.0.name.as_str());
        proof {
            lemma_inline_table_view(&self.0.table);
        }
        write_declarations(&chain, &self.0.table.0, true, tokens);
    }
}

/// Appends to `tokens` the declarations that the aggregate reached by
/// `chain`, which holds `properties`, calls for: those of the inline tables
/// among the properties, each with those nested in it, in the order of the
/// properties; then the struct of the aggregate itself, with one field for
/// each property, `pub` where `public` says so.
pub(crate) fn write_declarations(
    chain: &Vec<String>,
    properties: &Vec<Property>,
    public: bool,
    tokens: &mut Vec<Token>,
)
    ensures
        final(tokens).deep_view() == old(tokens).deep_view() + declarations_tokens(
            nested_declarations(
                chain.deep_view(),
                properties.deep_view(),
                properties.len() as nat,
            ).push(aggregate_declaration(public, chain.deep_view(), properties.deep_view())),
        ),
    decreases properties.deep_view(), 0nat,
{
    let ghost before = tokens.deep_view();
    let ghost views = properties.deep_view();
    let count = properties.len();
    let mut i: usize = 0;
    while i < count
        invariant
            i <= count,
            count == properties.len(),
            views == properties.deep_view(),
            tokens.deep_view() == before + declarations_tokens(
                nested_declarations(chain.deep_view(), views, i as nat),
            ),
        decreases count - i,
    {
        let property = &properties[i];
        let ghost so_far = nested_declarations(chain.deep_view(), views, i as nat);
        let ghost more = value_declarations(chain.deep_view(), views[i as int]);
        if let Value::InlineTable(inline_table) = &property.1 {
            let child = ChildInlineTablePrelude(
                inline_table.clone().into_child_inline_table(
                    property.0.clone(),
                    copy_chain(chain),
                ),
            );
            child.to_tokens(tokens);
        }
        proof {
            lemma_declarations_tokens_add(so_far, more);
        }
        i += 1;
    }
    let mut fields: Vec<Token> = Vec::new();
    let ghost all_fields = fields_of(chain.deep_view(), views);
    let mut i: usize = 0;
    while i < count
        invariant
            i <= count,
            count == properties.len(),
            views == properties.deep_view(),
            all_fields == fields_of(chain.deep_view(), views),
            fields.deep_view() == fields_tokens(all_fields, i as nat),
        decreases count - i,
    {
        if i > 0 {
            push_token(&mut fields, Token::punct(','));
        }
        let field = ChildProperty { ancestors: copy_chain(chain), property: properties[i].clone() };
        field.to_tokens(&mut fields);
        i += 1;
    }
    let struct_name = resolve_name(chain);
    if public {
        push_token(tokens, Token::ident("pub"));
    }
    push_token(tokens, Token::ident("struct"));
    push_token(tokens, Token::ident(struct_name.as_str()));
    push_token(tokens, Token::group(Delimiter::Brace, fields));
    proof {
        let nested = nested_declarations(chain.deep_view(), views, count as nat);
        let own = aggregate_declaration(public, chain.deep_view(), views);
        lemma_declarations_tokens_push(nested, own);
    }
}

/// Written as tokens: the struct expression that builds the inline table's
/// default.
#[derive(Debug, PartialEq, Eq)]
pub struct ChildInlineTableDefault(pub ChildInlineTable);

impl std::ops::Deref for ChildInlineTableDefault {
    type Target = ChildInlineTable;

    /// The inline table, its name and its ancestor chain.
    fn deref(&self) -> (inner: &ChildInlineTable)
        ensures
            *inner == self.0,
    {
        &self.0
    }
}

impl ChildInlineTableDefault {
    /// The struct expression that builds the inline table's default.
    pub open spec fn constructor(&self) -> Constructor {
        constructor_of(self.0.chain(), self.0.table.deep_view())
    }

    /// Appends `Name { name : default , ... }` to `tokens`, with one entry
    /// for each property, in the order of the properties.
    pub fn to_tokens(&self, tokens: &mut Vec<Token>)
        ensures
            final(tokens).deep_view() == old(tokens).deep_view() + constructor_tokens(
                self.constructor(),
            ),
        decreases self.0.table.deep_view(), 1nat,
    {
        let chain = extend_chain(&self.0.ancestors, self.0.name.as_str());
        proof {
            lemma_inline_table_view(&self.0.table);
        }
        write_constructor(&chain, &self.0.table.0, tokens);
    }
}

/// Appends to `tokens` the struct expression that builds the default of the
/// aggregate reached by `chain`, which holds `properties`:
/// `Name { name : default , ... }`, with one entry for each property, in the
/// order of the properties.
pub(crate) fn write_constructor(
    chain: &Vec<String>,
    properties: &Vec<Property>,
    tokens: &mut Vec<Token>,
)
    ensures
        final(tokens).deep_view() == old(tokens).deep_view() + constructor_tokens(
            constructor_of(chain.deep_view(), properties.deep_view()),
        ),
    decreases properties.deep_view(), 0nat,
{
    let ghost views = properties.deep_view();
    proof {
        lemma_entries_of(chain.deep_view(), views, views.len());
    }
    let ghost all_entries = entries_of(chain.deep_view(), views, views.len());
    let count = properties.len();
    let mut entries: Vec<Token> = Vec::new();
    let mut i: usize = 0;
    while i < count
        invariant
            i <= count,
            count == properties.len(),
            views == properties.deep_view(),
            all_entries.len() == count,
            forall|k: int|
                0 <= k < count ==> #[trigger] all_entries[k] == entry_of(
                    chain.deep_view(),
                    views[k],
                ),
            entries.deep_view() == entries_tokens(all_entries, i as nat),
        decreases count - i,
    {
        let property = &properties[i];
        if i > 0 {
            push_token(&mut entries, Token::punct(','));
        }
        let ghost separated = entries.deep_view();
        let name = property.0.clone();
        push_token(&mut entries, Token::ident(name.as_str()));
        push_token(&mut entries, Token::punct(':'));
        let child_value = ChildValue {
            value: property.1.clone(),
            property_name: name,
            ancestors: copy_chain(chain),
        };
        child_value.to_tokens(&mut entries);
        proof {
            let entry = all_entries[i as int];
            assert(entries.deep_view() =~= separated + entry_tokens(entry));
        }
        i += 1;
    }
    let struct_name = resolve_name(chain);
    push_token(tokens, Token::ident(struct_name.as_str()));
    push_token(tokens, Token::group(Delimiter::Brace, entries));
}

} // verus!
