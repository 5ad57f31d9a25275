//! The kinds of record the service keeps, and the names under which the
//! database and the clients know them.

use vstd::prelude::*;

verus! {

/// A kind of record. Each kind lives in a table of its own.
#[derive(Clone, Copy, Debug, PartialEq, Eq, Structural)]
pub enum Entity {
    Product,
    Unit,
    UnitConversion,
    Place,
    Space,
    StockItem,
}

impl Entity {
    /// The name of the table that holds records of this kind.
    pub open spec fn table_name(self) -> Seq<char> {
        match self {
            Entity::Product => "products"@,
            Entity::Unit => "units"@,
            Entity::UnitConversion => "unit_conversions"@,
            Entity::Place => "places"@,
            Entity::Space => "spaces"@,
            Entity::StockItem => "stock_items"@,
        }
    }

    /// What a record of this kind is called in a message to a client.
    pub open spec fn label_text(self) -> Seq<char> {
        match self {
            Entity::Product => "product"@,
            Entity::Unit => "unit"@,
            Entity::UnitConversion => "unit conversion"@,
            Entity::Place => "place"@,
            Entity::Space => "space"@,
            Entity::StockItem => "stock item"@,
        }
    }

    /// The columns that a new record supplies, in the order in which their
    /// values are bound. The `id` column is never among them: the database
    /// assigns it.
    pub open spec fn column_names(self) -> Seq<Seq<char>> {
        match self {
            Entity::Product => seq![
                "name"@,
                "description"@,
                "parent_product_id"@,
                "purchase_unit_id"@,
                "stock_unit_id"@,
                "purchase_to_stock_factor"@,
            ],
            Entity::Unit => seq!["singular"@, "plural"@],
            Entity::UnitConversion => seq!["from_unit_id"@, "to_unit_id"@, "factor"@],
            Entity::Place => seq!["name"@, "description"@],
            Entity::Space => seq!["name"@, "description"@],
            Entity::StockItem => seq!["product_id"@, "space_id"@, "stock_quantity"@],
        }
    }

    /// The name of the table that holds records of this kind.
    pub fn table(self) -> (name: &'static str)
        ensures
            name@ == self.table_name(),
    {
        match self {
            Entity::Product => "products",
            Entity::Unit => "units",
            Entity::UnitConversion => "unit_conversions",
            Entity::Place => "places",
            Entity::Space => "spaces",
            Entity::StockItem => "stock_items",
        }
    }

    /// What a record of this kind is called in a message to a client.
    pub fn label(self) -> (name: &'static str)
        ensures
            name@ == self.label_text(),
    {
        match self {
            Entity::Product => "product",
            Entity::Unit => "unit",
            Entity::UnitConversion => "unit conversion",
            Entity::Place => "place",
            Entity::Space => "space",
            Entity::StockItem => "stock item",
        }
    }

    /// The columns that a new record supplies, in binding order.
    pub fn columns(self) -> (names: Vec<&'static str>)
        ensures
            texts(names@) == self.column_names(),
    {
        let mut names: Vec<&'static str> = Vec::new();
        match self {
            Entity::Product => {
                names.push("name");
                names.push("description");
                names.push("parent_product_id");
                names.push("purchase_unit_id");
                names.push("stock_unit_id");
                names.push("purchase_to_stock_factor");
            },
            Entity::Unit => {
                names.push("singular");
                names.push("plural");
            },
            Entity::UnitConversion => {
                names.push("from_unit_id");
                names.push("to_unit_id");
                names.push("factor");
            },
            Entity::Place | Entity::Space => {
                names.push("name");
                names.push("description");
            },
            Entity::StockItem => {
                names.push("product_id");
                names.push("space_id");
                names.push("stock_quantity");
            },
        }
        assert(texts(names@) =~= self.column_names());
        names
    }
}

/// Each kind of record has a table of its own.
pub proof fn lemma_tables_distinct(e1: Entity, e2: Entity)
    requires
        e1.table_name() == e2.table_name(),
    ensures
        e1 == e2,
{
    reveal_strlit("products");
    reveal_strlit("units");
    reveal_strlit("unit_conversions");
    reveal_strlit("places");
    reveal_strlit("spaces");
    reveal_strlit("stock_items");
    assert("products"@.len() == 8);
    assert("units"@.len() == 5);
    assert("unit_conversions"@.len() == 16);
    assert("places"@.len() == 6 && "places"@[0] == 'p');
    assert("spaces"@.len() == 6 && "spaces"@[0] == 's');
    assert("stock_items"@.len() == 11);
}

/// Each kind of record has a label of its own.
pub proof fn lemma_labels_distinct(e1: Entity, e2: Entity)
    requires
        e1.label_text() == e2.label_text(),
    ensures
        e1 == e2,
{
    reveal_strlit("product");
    reveal_strlit("unit");
    reveal_strlit("unit conversion");
    reveal_strlit("place");
    reveal_strlit("space");
    reveal_strlit("stock item");
    assert("product"@.len() == 7);
    assert("unit"@.len() == 4);
    assert("unit conversion"@.len() == 15);
    assert("place"@.len() == 5 && "place"@[0] == 'p');
    assert("space"@.len() == 5 && "space"@[0] == 's');
    assert("stock item"@.len() == 10);
}

/// The characters of each string slice of `items`, in the same order.
pub open spec fn texts(items: Seq<&'static str>) -> Seq<Seq<char>> {
    Seq::new(items.len(), |i: int| items[i]@)
}

} // verus!
