use crate::error::{ErrorKind, Expected, ParseError};
use crate::generated::{
    declarations_tokens, entry_tokens, field_tokens, item_declarations, item_entry, item_field,
};
use crate::grammar::{item_at, item_width};
use crate::lexeme::Lexeme;
use crate::property::{
    ChildProperty, ChildPropertyDefault, ChildPropertyPrelude, Property, PropertyView,
};
use crate::table::{ChildTable, ChildTableDefault, ChildTablePrelude, Table, TableView};
use crate::token::Token;
use vstd::prelude::*;

verus! {

/// One top-level entry of a schema.
#[derive(Debug, PartialEq, Eq)]
pub enum Item {
    Table(Table),
    Property(Property),
}

/// The mathematical value of an [`Item`].
pub enum ItemView {
    Table(TableView),
    Property(PropertyView),
}

impl DeepView for Item {
    type V = ItemView;

    open spec fn deep_view(&self) -> ItemView {
        match self {
            Item::Table(table) => ItemView::Table(table.deep_view()),
            Item::Property(property) => ItemView::Property(property.deep_view()),
        }
    }
}

impl Clone for Item {
    fn clone(&self) -> (copy: Item)
        ensures
            copy.deep_view() == self.deep_view(),
    {
        match self {
            Item::Table(table) => Item::Table(table.clone()),
            Item::Property(property) => Item::Property(property.clone()),
        }
    }
}

impl Item {
    /// Reads the item that starts at `position`: a table where a group in
    /// square brackets stands, a property and `;` where a name stands.
    /// Returns the item with the position after it.
    pub fn parse(input: &Vec<Lexeme>, position: usize) -> (result: Result<
        (Item, usize),
        ParseError,
    >)
        ensures
            match result {
                Ok((item, next)) => {
                    &&& item_at(input.deep_view(), position as int) == Ok::<ItemView, ParseError>(
                        item.deep_view(),
                    )
                    &&& next == position + item_width(item.deep_view())
                    &&& next <= input.len()
                },
                Err(error) => item_at(input.deep_view(), position as int) == Err::<
                    ItemView,
                    ParseError,
                >(error),
            },
    {
        let len = input.len();
        if position >= len {
            return Err(ParseError { kind: ErrorKind::SyntaxError(Expected::Item), position });
        }
        if input[position].name().is_some() {
            let property = match Property::parse(input, position) {
                Ok(property) => property,
                Err(error) => {
                    return Err(error);
                },
            };
            let after = position + 3;
            if after >= len {
                return Err(
                    ParseError {
                        kind: ErrorKind::SyntaxError(Expected::Semicolon),
                        position: after,
                    },
                );
            }
            if !input[after].is_punct(';') {
                return Err(
                    ParseError {
                        kind: ErrorKind::SyntaxError(Expected::Semicolon),
                        position: after,
                    },
                );
            }
            Ok((Item::Property(property), after + 1))
        } else {
            match Table::parse(input, position) {
                Ok((table, next)) => Ok((Item::Table(table), next)),
                Err(error) => Err(error),
            }
        }
    }

    /// Places the item under the aggregate reached by `ancestors`.
    pub fn into_child_item(self, ancestors: Vec<String>) -> (child: ChildItem)
        ensures
            child == match self {
                Item::Table(table) => ChildItem::Table((ChildTable { table, ancestors })),
                Item::Property(property) => ChildItem::Property(
                    (ChildProperty { ancestors, property }),
                ),
            },
    {
        match self {
            Item::Table(table) => ChildItem::Table(table.into_child_table(ancestors)),
            Item::Property(property) => ChildItem::Property(
                property.into_child_property(ancestors),
            ),
        }
    }
}

/// An item together with the ancestor chain of the aggregate that holds it.
/// Written as tokens it is the field that holds the item.
#[derive(Debug, PartialEq, Eq)]
pub enum ChildItem {
    Table(ChildTable),
    Property(ChildProperty),
}

impl ChildItem {
    /// The ancestor chain of the aggregate that holds the item.
    pub open spec fn ancestors(&self) -> Seq<Seq<char>> {
        match self {
            ChildItem::Table(table) => table.ancestors.deep_view(),
            ChildItem::Property(property) => property.ancestors.deep_view(),
        }
    }

    /// The item itself.
    pub open spec fn item(&self) -> ItemView {
        match self {
            ChildItem::Table(table) => ItemView::Table(table.table.deep_view()),
            ChildItem::Property(property) => ItemView::Property(property.property.deep_view()),
        }
    }

    /// Appends the declaration of the field that holds the item to `tokens`.
    pub fn to_tokens(&self, tokens: &mut Vec<Token>)
        ensures
            final(tokens).deep_view() == old(tokens).deep_view() + field_tokens(
                item_field(self.ancestors(), self.item()),
            ),
    {
        match self {
            ChildItem::Table(table) => table.to_tokens(tokens),
            ChildItem::Property(property) => property.to_tokens(tokens),
        }
    }

    /// The item as the source of its struct declarations.
    pub fn into_item_prelude(self) -> (prelude: ChildItemPrelude)
        ensures
            prelude == match self {
                ChildItem::Table(table) => ChildItemPrelude::Table(ChildTablePrelude(table)),
                ChildItem::Property(property) => ChildItemPrelude::Property(
                    ChildPropertyPrelude(property),
                ),
            },
    {
        match self {
            ChildItem::Table(table) => ChildItemPrelude::Table(ChildTablePrelude(table)),
            ChildItem::Property(property) => ChildItemPrelude::Property(
                ChildPropertyPrelude(property),
            ),
        }
    }

    /// The item as the source of its default.
    pub fn into_item_default(self) -> (default: ChildItemDefault)
        ensures
            default == match self {
                ChildItem::Table(table) => ChildItemDefault::Table(ChildTableDefault(table)),
                ChildItem::Property(property) => ChildItemDefault::Property(
                    ChildPropertyDefault(property),
                ),
            },
    {
        match self {
            ChildItem::Table(table) => ChildItemDefault::Table(ChildTableDefault(table)),
            ChildItem::Property(property) => ChildItemDefault::Property(
                ChildPropertyDefault(property),
            ),
        }
    }
}

/// Written as tokens: the struct declarations that the item calls for.
#[derive(Debug, PartialEq, Eq)]
pub enum ChildItemPrelude {
    Table(ChildTablePrelude),
    Property(ChildPropertyPrelude),
}

impl ChildItemPrelude {
    /// The item and the chain of the aggregate that holds it.
    pub open spec fn child(&self) -> ChildItem {
        match self {
            ChildItemPrelude::Table(table) => ChildItem::Table(table.0),
            ChildItemPrelude::Property(property) => ChildItem::Property(property.0),
        }
    }

    /// Appends to `tokens` the struct declarations that the item calls for:
    /// for a table its inline tables' and its own, for a property those of
    /// its inline table, if it holds one.
    pub fn to_tokens(&self, tokens: &mut Vec<Token>)
        ensures
            final(tokens).deep_view() == old(tokens).deep_view() + declarations_tokens(
                item_declarations(self.child().ancestors(), self.child().item()),
            ),
    {
        match self {
            ChildItemPrelude::Table(table) => table.to_tokens(tokens),
            ChildItemPrelude::Property(property) => property.to_tokens(tokens),
        }
    }
}

/// Written as tokens: the entry that gives the item's field its default.
#[derive(Debug, PartialEq, Eq)]
pub enum ChildItemDefault {
    Table(ChildTableDefault),
    Property(ChildPropertyDefault),
}

impl ChildItemDefault {
    /// The item and the chain of the aggregate that holds it.
    pub open spec fn child(&self) -> ChildItem {
        match self {
            ChildItemDefault::Table(table) => ChildItem::Table(table.0),
            ChildItemDefault::Property(property) => ChildItem::Property(property.0),
        }
    }

    /// Appends `name : default` for the item's field to `tokens`.
    pub fn to_tokens(&self, tokens: &mut Vec<Token>)
        ensures
            final(tokens).deep_view() == old(tokens).deep_view() + entry_tokens(
                item_entry(self.child().ancestors(), self.child().item()),
            ),
    {
        match self {
            ChildItemDefault::Table(table) => table.to_tokens(tokens),
            ChildItemDefault::Property(property) => property.to_tokens(tokens),
        }
    }
}

} // verus!
