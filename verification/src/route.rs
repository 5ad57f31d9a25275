//! Where each operation is served: its HTTP method and path.

use vstd::prelude::*;
use crate::entity::Entity;

verus! {

/// What a client can do with records of one kind.
#[derive(Clone, Copy, Debug, PartialEq, Eq, Structural)]
pub enum Operation {
    /// Read every record.
    FetchAll,
    /// Read the record with a given id.
    FetchOne,
    /// Store a new record.
    Create,
    /// Remove the record with a given id.
    Delete,
}

/// An HTTP method.
#[derive(Clone, Copy, Debug, PartialEq, Eq, Structural)]
pub enum Method {
    Get,
    Post,
    Delete,
}

impl Operation {
    /// The HTTP method under which this operation is served.
    pub open spec fn method_of(self) -> Method {
        match self {
            Operation::FetchAll => Method::Get,
            Operation::FetchOne => Method::Get,
            Operation::Create => Method::Post,
            Operation::Delete => Method::Delete,
        }
    }

    /// Whether the path of this operation ends in the id of a record.
    pub open spec fn takes_id(self) -> bool {
        self == Operation::FetchOne || self == Operation::Delete
    }

    /// The HTTP method under which this operation is served.
    pub fn method(self) -> (m: Method)
        ensures
            m == self.method_of(),
    {
        match self {
            Operation::FetchAll => Method::Get,
            Operation::FetchOne => Method::Get,
            Operation::Create => Method::Post,
            Operation::Delete => Method::Delete,
        }
    }
}

/// The last segment of a path that names one record: it stands for the id.
pub const ID_SEGMENT: &'static str = "/:id";

/// Whether `path` ends in the segment that stands for an id.
pub open spec fn ends_in_id(path: Seq<char>) -> bool {
    path.len() >= ID_SEGMENT@.len() && path.subrange(
        path.len() - ID_SEGMENT@.len(),
        path.len() as int,
    ) == ID_SEGMENT@
}

/// The path under which `operation` on `entity` is served. A segment `:id`
/// stands for the id of a record.
///
/// Reading goes by the plural of the kind everywhere. Storing a place, a
/// space or a stock item, and removing a stock item, go by the singular.
pub open spec fn path_text(entity: Entity, operation: Operation) -> Seq<char> {
    match (entity, operation) {
        (Entity::Product, Operation::FetchAll) => "/products"@,
        (Entity::Product, Operation::FetchOne) => "/products/:id"@,
        (Entity::Product, Operation::Create) => "/products"@,
        (Entity::Product, Operation::Delete) => "/products/:id"@,
        (Entity::Unit, Operation::FetchAll) => "/units"@,
        (Entity::Unit, Operation::FetchOne) => "/units/:id"@,
        (Entity::Unit, Operation::Create) => "/units"@,
        (Entity::Unit, Operation::Delete) => "/units/:id"@,
        (Entity::UnitConversion, Operation::FetchAll) => "/unit_conversions"@,
        (Entity::UnitConversion, Operation::FetchOne) => "/unit_conversions/:id"@,
        (Entity::UnitConversion, Operation::Create) => "/unit_conversions"@,
        (Entity::UnitConversion, Operation::Delete) => "/unit_conversions/:id"@,
        (Entity::Place, Operation::FetchAll) => "/places"@,
        (Entity::Place, Operation::FetchOne) => "/places/:id"@,
        (Entity::Place, Operation::Create) => "/place"@,
        (Entity::Place, Operation::Delete) => "/places/:id"@,
        (Entity::Space, Operation::FetchAll) => "/spaces"@,
        (Entity::Space, Operation::FetchOne) => "/spaces/:id"@,
        (Entity::Space, Operation::Create) => "/space"@,
        (Entity::Space, Operation::Delete) => "/spaces/:id"@,
        (Entity::StockItem, Operation::FetchAll) => "/stock_items"@,
        (Entity::StockItem, Operation::FetchOne) => "/stock_items/:id"@,
        (Entity::StockItem, Operation::Create) => "/stock_item"@,
        (Entity::StockItem, Operation::Delete) => "/stock_item/:id"@,
    }
}

/// The path under which `operation` on `entity` is served.
pub fn path(entity: Entity, operation: Operation) -> (p: &'static str)
    ensures
        p@ == path_text(entity, operation),
{
    match (entity, operation) {
        (Entity::Product, Operation::FetchAll) => "/products",
        (Entity::Product, Operation::FetchOne) => "/products/:id",
        (Entity::Product, Operation::Create) => "/products",
        (Entity::Product, Operation::Delete) => "/products/:id",
        (Entity::Unit, Operation::FetchAll) => "/units",
        (Entity::Unit, Operation::FetchOne) => "/units/:id",
        (Entity::Unit, Operation::Create) => "/units",
        (Entity::Unit, Operation::Delete) => "/units/:id",
        (Entity::UnitConversion, Operation::FetchAll) => "/unit_conversions",
        (Entity::UnitConversion, Operation::FetchOne) => "/unit_conversions/:id",
        (Entity::UnitConversion, Operation::Create) => "/unit_conversions",
        (Entity::UnitConversion, Operation::Delete) => "/unit_conversions/:id",
        (Entity::Place, Operation::FetchAll) => "/places",
        (Entity::Place, Operation::FetchOne) => "/places/:id",
        (Entity::Place, Operation::Create) => "/place",
        (Entity::Place, Operation::Delete) => "/places/:id",
        (Entity::Space, Operation::FetchAll) => "/spaces",
        (Entity::Space, Operation::FetchOne) => "/spaces/:id",
        (Entity::Space, Operation::Create) => "/space",
        (Entity::Space, Operation::Delete) => "/spaces/:id",
        (Entity::StockItem, Operation::FetchAll) => "/stock_items",
        (Entity::StockItem, Operation::FetchOne) => "/stock_items/:id",
        (Entity::StockItem, Operation::Create) => "/stock_item",
        (Entity::StockItem, Operation::Delete) => "/stock_item/:id",
    }
}

/// Makes the characters of every path known to the solver.
proof fn reveal_paths()
    ensures
        "/products"@ == seq!['/', 'p', 'r', 'o', 'd', 'u', 'c', 't', 's'],
        "/units"@ == seq!['/', 'u', 'n', 'i', 't', 's'],
        "/unit_conversions"@ == seq![
            '/', 'u', 'n', 'i', 't', '_', 'c', 'o', 'n', 'v', 'e', 'r', 's', 'i', 'o', 'n', 's',
        ],
        "/places"@ == seq!['/', 'p', 'l', 'a', 'c', 'e', 's'],
        "/place"@ == seq!['/', 'p', 'l', 'a', 'c', 'e'],
        "/spaces"@ == seq!['/', 's', 'p', 'a', 'c', 'e', 's'],
        "/space"@ == seq!['/', 's', 'p', 'a', 'c', 'e'],
        "/stock_items"@ == seq!['/', 's', 't', 'o', 'c', 'k', '_', 'i', 't', 'e', 'm', 's'],
        "/stock_item"@ == seq!['/', 's', 't', 'o', 'c', 'k', '_', 'i', 't', 'e', 'm'],
        "/products/:id"@ == "/products"@ + ID_SEGMENT@,
        "/units/:id"@ == "/units"@ + ID_SEGMENT@,
        "/unit_conversions/:id"@ == "/unit_conversions"@ + ID_SEGMENT@,
        "/places/:id"@ == "/places"@ + ID_SEGMENT@,
        "/spaces/:id"@ == "/spaces"@ + ID_SEGMENT@,
        "/stock_items/:id"@ == "/stock_items"@ + ID_SEGMENT@,
        "/stock_item/:id"@ == "/stock_item"@ + ID_SEGMENT@,
        ID_SEGMENT@ == seq!['/', ':', 'i', 'd'],
{
    reveal_strlit("/products");
    reveal_strlit("/products/:id");
    reveal_strlit("/units");
    reveal_strlit("/units/:id");
    reveal_strlit("/unit_conversions");
    reveal_strlit("/unit_conversions/:id");
    reveal_strlit("/places");
    reveal_strlit("/places/:id");
    reveal_strlit("/place");
    reveal_strlit("/spaces");
    reveal_strlit("/spaces/:id");
    reveal_strlit("/space");
    reveal_strlit("/stock_items");
    reveal_strlit("/stock_items/:id");
    reveal_strlit("/stock_item");
    reveal_strlit("/stock_item/:id");
    reveal_strlit("/:id");
    assert("/products"@ =~= seq!['/', 'p', 'r', 'o', 'd', 'u', 'c', 't', 's']);
    assert("/units"@ =~= seq!['/', 'u', 'n', 'i', 't', 's']);
    assert("/unit_conversions"@ =~= seq![
        '/', 'u', 'n', 'i', 't', '_', 'c', 'o', 'n', 'v', 'e', 'r', 's', 'i', 'o', 'n', 's',
    ]);
    assert("/places"@ =~= seq!['/', 'p', 'l', 'a', 'c', 'e', 's']);
    assert("/place"@ =~= seq!['/', 'p', 'l', 'a', 'c', 'e']);
    assert("/spaces"@ =~= seq!['/', 's', 'p', 'a', 'c', 'e', 's']);
    assert("/space"@ =~= seq!['/', 's', 'p', 'a', 'c', 'e']);
    assert("/stock_items"@ =~= seq!['/', 's', 't', 'o', 'c', 'k', '_', 'i', 't', 'e', 'm', 's']);
    assert("/stock_item"@ =~= seq!['/', 's', 't', 'o', 'c', 'k', '_', 'i', 't', 'e', 'm']);
    assert("/products/:id"@ =~= "/products"@ + ID_SEGMENT@);
    assert("/units/:id"@ =~= "/units"@ + ID_SEGMENT@);
    assert("/unit_conversions/:id"@ =~= "/unit_conversions"@ + ID_SEGMENT@);
    assert("/places/:id"@ =~= "/places"@ + ID_SEGMENT@);
    assert("/spaces/:id"@ =~= "/spaces"@ + ID_SEGMENT@);
    assert("/stock_items/:id"@ =~= "/stock_items"@ + ID_SEGMENT@);
    assert("/stock_item/:id"@ =~= "/stock_item"@ + ID_SEGMENT@);
    assert(ID_SEGMENT@ =~= seq!['/', ':', 'i', 'd']);
}

/// No two operations are served under the same method and path: a request
/// that matches one route matches no other.
pub proof fn lemma_routes_distinct(e1: Entity, o1: Operation, e2: Entity, o2: Operation)
    requires
        o1.method_of() == o2.method_of(),
        path_text(e1, o1) == path_text(e2, o2),
    ensures
        e1 == e2,
        o1 == o2,
{
    reveal_paths();
    let p1 = path_text(e1, o1);
    let p2 = path_text(e2, o2);
    assert(p1.len() == p2.len());
    assert(p1[1] == p2[1]);
    assert(p1[3] == p2[3]);
    assert(p1[p1.len() - 4] == p2[p2.len() - 4]);
}

/// A path ends in the segment that stands for an id exactly where the
/// operation is about one record.
pub proof fn lemma_path_names_id(entity: Entity, operation: Operation)
    ensures
        operation.takes_id() <==> ends_in_id(path_text(entity, operation)),
{
    reveal_paths();
    let p = path_text(entity, operation);
    if operation.takes_id() {
        assert(p.subrange(p.len() - 4, p.len() as int) =~= ID_SEGMENT@);
    } else {
        let tail = p.subrange(p.len() - 4, p.len() as int);
        assert(tail[0] == p[p.len() - 4]);
    }
}

} // verus!
