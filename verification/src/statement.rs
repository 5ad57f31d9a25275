//! The SQL statement behind each operation of the service, and the values
//! bound to its placeholders.
//!
//! Every operation is one statement on one table. A statement never holds a
//! client's value in its text: values travel beside it, one for each
//! placeholder `$1`, `$2`, ... in that order.

use vstd::prelude::*;
use vstd::string::StringExecFns;
use crate::decimal::{lemma_natural_text_injective, natural_text, push_natural};
use crate::entity::{texts, Entity};
use crate::record::{Place, Product, Real, Space, StockItem, Unit, UnitConversion};
use crate::route::Operation;

verus! {

/// A value bound to a placeholder. The variant fixes the type that the
/// database is told, also where the value itself is absent.
#[derive(Clone, Debug, PartialEq)]
pub enum SqlValue {
    Int(Option<i32>),
    Text(Option<String>),
    Real(Option<Real>),
}

/// A bound value as contracts see it: text by its characters.
pub enum SqlValueView {
    Int(Option<i32>),
    Text(Option<Seq<char>>),
    Real(Option<Real>),
}

/// The characters of an optional string.
pub open spec fn optional_text(s: Option<String>) -> Option<Seq<char>> {
    match s {
        Some(t) => Some(t@),
        None => None,
    }
}

impl View for SqlValue {
    type V = SqlValueView;

    open spec fn view(&self) -> SqlValueView {
        match *self {
            SqlValue::Int(i) => SqlValueView::Int(i),
            SqlValue::Text(s) => SqlValueView::Text(optional_text(s)),
            SqlValue::Real(r) => SqlValueView::Real(r),
        }
    }
}

/// A statement ready to be sent: its text and the values for its
/// placeholders, the first for `$1`.
#[derive(Clone, Debug, PartialEq)]
pub struct Statement {
    pub text: String,
    pub params: Vec<SqlValue>,
}

/// A statement as contracts see it.
pub struct StatementView {
    pub text: Seq<char>,
    pub params: Seq<SqlValueView>,
}

impl View for Statement {
    type V = StatementView;

    open spec fn view(&self) -> StatementView {
        StatementView { text: self.text@, params: self.params@.map_values(|v: SqlValue| v@) }
    }
}

/// The items of `items` in order, with a comma and a space between each two.
pub open spec fn comma_separated(items: Seq<Seq<char>>) -> Seq<char>
    decreases items.len(),
{
    if items.len() == 0 {
        Seq::empty()
    } else if items.len() == 1 {
        items[0]
    } else {
        comma_separated(items.drop_last()) + ", "@ + items.last()
    }
}

/// The placeholder for the `k`-th bound value, counted from one.
pub open spec fn placeholder(k: nat) -> Seq<char> {
    "$"@ + natural_text(k)
}

/// The placeholders `$1` to `$count`.
pub open spec fn placeholders(count: nat) -> Seq<Seq<char>> {
    Seq::new(count, |i: int| placeholder((i + 1) as nat))
}

/// Each bound value has a placeholder of its own: two positions never share
/// one.
pub proof fn lemma_placeholders_distinct(i: nat, j: nat)
    requires
        placeholder(i) == placeholder(j),
    ensures
        i == j,
{
    let x = natural_text(i);
    let y = natural_text(j);
    let px = "$"@ + x;
    let py = "$"@ + y;
    assert(px == py);
    assert(x =~= px.subrange("$"@.len() as int, px.len() as int));
    assert(y =~= py.subrange("$"@.len() as int, py.len() as int));
    lemma_natural_text_injective(i, j);
}

/// The statement that reads every record of a table.
pub open spec fn select_all_text(table: Seq<char>) -> Seq<char> {
    "SELECT * FROM "@ + table
}

/// The statement that reads the record whose id is bound to `$1`.
pub open spec fn select_one_text(table: Seq<char>) -> Seq<char> {
    "SELECT * FROM "@ + table + " WHERE id = $1"@
}

/// The statement that removes the record whose id is bound to `$1` and
/// hands that id back if there was such a record.
pub open spec fn delete_text(table: Seq<char>) -> Seq<char> {
    "\nDELETE FROM "@ + table + "\nWHERE id = $1\nRETURNING id"@
}

/// The statement that stores a new record, one placeholder for each of
/// `columns`, and hands back the id that the database gave it.
pub open spec fn insert_text(table: Seq<char>, columns: Seq<Seq<char>>) -> Seq<char> {
    "\nINSERT INTO "@ + table + " ("@ + comma_separated(columns) + ")\nVALUES ("@
        + comma_separated(placeholders(columns.len())) + ")\nRETURNING id"@
}

/// The text of the one statement behind `operation` on records of `entity`.
pub open spec fn statement_text(entity: Entity, operation: Operation) -> Seq<char> {
    match operation {
        Operation::FetchAll => select_all_text(entity.table_name()),
        Operation::FetchOne => select_one_text(entity.table_name()),
        Operation::Create => insert_text(entity.table_name(), entity.column_names()),
        Operation::Delete => delete_text(entity.table_name()),
    }
}

/// The fixed words with which the statement behind `operation` begins.
spec fn opening(operation: Operation) -> Seq<char> {
    match operation {
        Operation::FetchAll => "SELECT * FROM "@,
        Operation::FetchOne => "SELECT * FROM "@,
        Operation::Create => "\nINSERT INTO "@,
        Operation::Delete => "\nDELETE FROM "@,
    }
}

/// What follows the table's name in the statement behind `operation`.
spec fn closing(entity: Entity, operation: Operation) -> Seq<char> {
    match operation {
        Operation::FetchAll => Seq::empty(),
        Operation::FetchOne => " WHERE id = $1"@,
        Operation::Create => " ("@ + comma_separated(entity.column_names()) + ")\nVALUES ("@
            + comma_separated(placeholders(entity.column_names().len())) + ")\nRETURNING id"@,
        Operation::Delete => "\nWHERE id = $1\nRETURNING id"@,
    }
}

/// Every statement is its opening words, the table's name, and the rest.
proof fn lemma_statement_parts(entity: Entity, operation: Operation)
    ensures
        statement_text(entity, operation) == opening(operation) + entity.table_name() + closing(
            entity,
            operation,
        ),
{
    assert(statement_text(entity, operation) =~= opening(operation) + entity.table_name()
        + closing(entity, operation));
}

/// The opening words tell reading, storing and removing apart.
proof fn lemma_opening_shape(operation: Operation)
    ensures
        opening(operation).len() >= 13,
        (operation == Operation::FetchAll || operation == Operation::FetchOne) <==> opening(
            operation,
        )[0] == 'S',
        operation == Operation::Create <==> opening(operation)[1] == 'I',
        operation == Operation::Delete <==> opening(operation)[1] == 'D',
{
    reveal_strlit("SELECT * FROM ");
    reveal_strlit("\nINSERT INTO ");
    reveal_strlit("\nDELETE FROM ");
}

/// Three characters of a table's name tell the tables apart.
proof fn lemma_table_shape(e1: Entity, e2: Entity)
    requires
        e1.table_name()[0] == e2.table_name()[0],
        e1.table_name()[1] == e2.table_name()[1],
        e1.table_name()[4] == e2.table_name()[4],
    ensures
        e1 == e2,
{
    reveal_strlit("products");
    reveal_strlit("units");
    reveal_strlit("unit_conversions");
    reveal_strlit("places");
    reveal_strlit("spaces");
    reveal_strlit("stock_items");
    assert("products"@[0] == 'p' && "products"@[1] == 'r');
    assert("units"@[0] == 'u' && "units"@[4] == 's');
    assert("unit_conversions"@[0] == 'u' && "unit_conversions"@[4] == '_');
    assert("places"@[0] == 'p' && "places"@[1] == 'l');
    assert("spaces"@[0] == 's' && "spaces"@[1] == 'p');
    assert("stock_items"@[0] == 's' && "stock_items"@[1] == 't');
}

/// No table's name is shorter than five characters.
proof fn lemma_table_length(entity: Entity)
    ensures
        entity.table_name().len() >= 5,
{
    reveal_strlit("products");
    reveal_strlit("units");
    reveal_strlit("unit_conversions");
    reveal_strlit("places");
    reveal_strlit("spaces");
    reveal_strlit("stock_items");
    assert("products"@.len() == 8);
    assert("units"@.len() == 5);
    assert("unit_conversions"@.len() == 16);
    assert("places"@.len() == 6);
    assert("spaces"@.len() == 6);
    assert("stock_items"@.len() == 11);
}

/// Each operation on each kind of record has a statement of its own: from
/// the text alone one can tell the kind and the operation.
pub proof fn lemma_statements_distinct(e1: Entity, o1: Operation, e2: Entity, o2: Operation)
    requires
        statement_text(e1, o1) == statement_text(e2, o2),
    ensures
        e1 == e2,
        o1 == o2,
{
    let text = statement_text(e1, o1);
    let (h1, n1, r1) = (opening(o1), e1.table_name(), closing(e1, o1));
    let (h2, n2, r2) = (opening(o2), e2.table_name(), closing(e2, o2));
    lemma_statement_parts(e1, o1);
    lemma_statement_parts(e2, o2);
    lemma_opening_shape(o1);
    lemma_opening_shape(o2);
    lemma_table_length(e1);
    lemma_table_length(e2);
    assert(text == h1 + n1 + r1 && text == h2 + n2 + r2);
    // The opening words agree, so both read, both store or both remove.
    assert(text[0] == h1[0] && text[0] == h2[0]);
    assert(text[1] == h1[1] && text[1] == h2[1]);
    assert(h1 == h2);
    // The table's name follows at the same place on both sides.
    let at = h1.len() as int;
    assert(text[at] == n1[0] && text[at] == n2[0]);
    assert(text[at + 1] == n1[1] && text[at + 1] == n2[1]);
    assert(text[at + 4] == n1[4] && text[at + 4] == n2[4]);
    lemma_table_shape(e1, e2);
    // With the same table, reading all and reading one differ in length.
    assert(r1.len() == r2.len()) by {
        assert(text.len() == h1.len() + n1.len() + r1.len());
        assert(text.len() == h2.len() + n2.len() + r2.len());
    }
    if o1 != o2 {
        reveal_strlit(" WHERE id = $1");
    }
}

/// Appends the names of `items`, separated by commas.
fn push_comma_separated(out: &mut String, items: &Vec<&'static str>)
    ensures
        final(out)@ == old(out)@ + comma_separated(texts(items@)),
{
    let ghost all = texts(items@);
    let mut i: usize = 0;
    while i < items.len()
        invariant
            i <= items.len(),
            all == texts(items@),
            out@ == old(out)@ + comma_separated(all.take(i as int)),
        decreases items.len() - i,
    {
        if i > 0 {
            out.append(", ");
        }
        out.append(items[i]);
        proof {
            let next = all.take(i + 1);
            assert(next.drop_last() =~= all.take(i as int));
            assert(next.last() == items@[i as int]@);
            assert(out@ =~= old(out)@ + comma_separated(next));
        }
        i += 1;
    }
    assert(all.take(i as int) =~= all);
}

/// Appends the placeholders `$1` to `$count`, separated by commas.
fn push_placeholders(out: &mut String, count: u32)
    ensures
        final(out)@ == old(out)@ + comma_separated(placeholders(count as nat)),
{
    let ghost all = placeholders(count as nat);
    let mut i: u32 = 0;
    while i < count
        invariant
            i <= count,
            all == placeholders(count as nat),
            out@ == old(out)@ + comma_separated(all.take(i as int)),
        decreases count - i,
    {
        if i > 0 {
            out.append(", ");
        }
        out.append("$");
        push_natural(out, i + 1);
        proof {
            let next = all.take(i + 1);
            assert(next.drop_last() =~= all.take(i as int));
            assert(next.last() == placeholder((i + 1) as nat));
            assert(out@ =~= old(out)@ + comma_separated(next));
        }
        i += 1;
    }
    assert(all.take(i as int) =~= all);
}

/// The statement behind "fetch all": every record of `entity`, nothing
/// bound.
pub fn select_all(entity: Entity) -> (s: Statement)
    ensures
        s@.text == statement_text(entity, Operation::FetchAll),
        s@.params == Seq::<SqlValueView>::empty(),
{
    let mut text = String::new();
    text.append("SELECT * FROM ");
    text.append(entity.table());
    let s = Statement { text, params: Vec::new() };
    assert(s@.text =~= select_all_text(entity.table_name()));
    assert(s@.params =~= Seq::<SqlValueView>::empty());
    s
}

/// The statement behind "fetch by id": the record of `entity` whose id is
/// `id`, which is the one value bound.
pub fn select_one(entity: Entity, id: i32) -> (s: Statement)
    ensures
        s@.text == statement_text(entity, Operation::FetchOne),
        s@.params == seq![SqlValueView::Int(Some(id))],
{
    let mut text = String::new();
    text.append("SELECT * FROM ");
    text.append(entity.table());
    text.append(" WHERE id = $1");
    let mut params: Vec<SqlValue> = Vec::new();
    params.push(SqlValue::Int(Some(id)));
    let s = Statement { text, params };
    assert(s@.text =~= select_one_text(entity.table_name()));
    assert(s@.params =~= seq![SqlValueView::Int(Some(id))]);
    s
}

/// The statement behind "delete with id": removes the record of `entity`
/// whose id is `id`, which is the one value bound.
pub fn delete_one(entity: Entity, id: i32) -> (s: Statement)
    ensures
        s@.text == statement_text(entity, Operation::Delete),
        s@.params == seq![SqlValueView::Int(Some(id))],
{
    let mut text = String::new();
    text.append("\nDELETE FROM ");
    text.append(entity.table());
    text.append("\nWHERE id = $1\nRETURNING id");
    let mut params: Vec<SqlValue> = Vec::new();
    params.push(SqlValue::Int(Some(id)));
    let s = Statement { text, params };
    assert(s@.text =~= delete_text(entity.table_name()));
    assert(s@.params =~= seq![SqlValueView::Int(Some(id))]);
    s
}

/// The text of the statement that stores a new record of `entity`.
pub fn insert_into(entity: Entity) -> (text: String)
    ensures
        text@ == statement_text(entity, Operation::Create),
{
    let columns = entity.columns();
    assert(columns@.len() == texts(columns@).len());
    assert(entity.column_names().len() <= 6);
    let mut text = String::new();
    text.append("\nINSERT INTO ");
    text.append(entity.table());
    text.append(" (");
    push_comma_separated(&mut text, &columns);
    text.append(")\nVALUES (");
    push_placeholders(&mut text, columns.len() as u32);
    text.append(")\nRETURNING id");
    assert(text@ =~= insert_text(entity.table_name(), entity.column_names()));
    text
}

/// A required text column's value.
fn text_value(s: &String) -> (v: SqlValue)
    ensures
        v@ == SqlValueView::Text(Some(s@)),
{
    SqlValue::Text(Some(s.clone()))
}

/// An optional text column's value.
fn optional_text_value(s: &Option<String>) -> (v: SqlValue)
    ensures
        v@ == SqlValueView::Text(optional_text(*s)),
{
    match s {
        Some(t) => SqlValue::Text(Some(t.clone())),
        None => SqlValue::Text(None),
    }
}

/// The statement behind "create product": stores `product` under a new id.
/// The id that `product` itself carries is not sent.
pub fn new_product(product: &Product) -> (s: Statement)
    ensures
        s@.text == statement_text(Entity::Product, Operation::Create),
        s@.params == seq![
            SqlValueView::Text(Some(product.name@)),
            SqlValueView::Text(optional_text(product.description)),
            SqlValueView::Int(product.parent_product_id),
            SqlValueView::Int(product.purchase_unit_id),
            SqlValueView::Int(product.stock_unit_id),
            SqlValueView::Real(product.purchase_to_stock_factor),
        ],
        s@.params.len() == Entity::Product.column_names().len(),
{
    let mut params: Vec<SqlValue> = Vec::new();
    params.push(text_value(&product.name));
    params.push(optional_text_value(&product.description));
    params.push(SqlValue::Int(product.parent_product_id));
    params.push(SqlValue::Int(product.purchase_unit_id));
    params.push(SqlValue::Int(product.stock_unit_id));
    params.push(SqlValue::Real(product.purchase_to_stock_factor));
    let s = Statement { text: insert_into(Entity::Product), params };
    assert(s@.params =~= seq![
        SqlValueView::Text(Some(product.name@)),
        SqlValueView::Text(optional_text(product.description)),
        SqlValueView::Int(product.parent_product_id),
        SqlValueView::Int(product.purchase_unit_id),
        SqlValueView::Int(product.stock_unit_id),
        SqlValueView::Real(product.purchase_to_stock_factor),
    ]);
    s
}

/// The statement behind "create unit": stores `unit` under a new id.
pub fn new_unit(unit: &Unit) -> (s: Statement)
    ensures
        s@.text == statement_text(Entity::Unit, Operation::Create),
        s@.params == seq![
            SqlValueView::Text(Some(unit.singular@)),
            SqlValueView::Text(optional_text(unit.plural)),
        ],
        s@.params.len() == Entity::Unit.column_names().len(),
{
    let mut params: Vec<SqlValue> = Vec::new();
    params.push(text_value(&unit.singular));
    params.push(optional_text_value(&unit.plural));
    let s = Statement { text: insert_into(Entity::Unit), params };
    assert(s@.params =~= seq![
        SqlValueView::Text(Some(unit.singular@)),
        SqlValueView::Text(optional_text(unit.plural)),
    ]);
    s
}

/// The statement behind "create unit conversion": stores `conversion` under
/// a new id.
pub fn new_unit_conversion(conversion: &UnitConversion) -> (s: Statement)
    ensures
        s@.text == statement_text(Entity::UnitConversion, Operation::Create),
        s@.params == seq![
            SqlValueView::Int(Some(conversion.from_unit_id)),
            SqlValueView::Int(Some(conversion.to_unit_id)),
            SqlValueView::Real(conversion.factor),
        ],
        s@.params.len() == Entity::UnitConversion.column_names().len(),
{
    let mut params: Vec<SqlValue> = Vec::new();
    params.push(SqlValue::Int(Some(conversion.from_unit_id)));
    params.push(SqlValue::Int(Some(conversion.to_unit_id)));
    params.push(SqlValue::Real(conversion.factor));
    let s = Statement { text: insert_into(Entity::UnitConversion), params };
    assert(s@.params =~= seq![
        SqlValueView::Int(Some(conversion.from_unit_id)),
        SqlValueView::Int(Some(conversion.to_unit_id)),
        SqlValueView::Real(conversion.factor),
    ]);
    s
}

/// The statement behind "create place": stores `place` under a new id.
pub fn new_place(place: &Place) -> (s: Statement)
    ensures
        s@.text == statement_text(Entity::Place, Operation::Create),
        s@.params == seq![
            SqlValueView::Text(Some(place.name@)),
            SqlValueView::Text(optional_text(place.description)),
        ],
        s@.params.len() == Entity::Place.column_names().len(),
{
    let mut params: Vec<SqlValue> = Vec::new();
    params.push(text_value(&place.name));
    params.push(optional_text_value(&place.description));
    let s = Statement { text: insert_into(Entity::Place), params };
    assert(s@.params =~= seq![
        SqlValueView::Text(Some(place.name@)),
        SqlValueView::Text(optional_text(place.description)),
    ]);
    s
}

/// The statement behind "create space": stores `space` under a new id.
pub fn new_space(space: &Space) -> (s: Statement)
    ensures
        s@.text == statement_text(Entity::Space, Operation::Create),
        s@.params == seq![
            SqlValueView::Text(Some(space.name@)),
            SqlValueView::Text(optional_text(space.description)),
        ],
        s@.params.len() == Entity::Space.column_names().len(),
{
    let mut params: Vec<SqlValue> = Vec::new();
    params.push(text_value(&space.name));
    params.push(optional_text_value(&space.description));
    let s = Statement { text: insert_into(Entity::Space), params };
    assert(s@.params =~= seq![
        SqlValueView::Text(Some(space.name@)),
        SqlValueView::Text(optional_text(space.description)),
    ]);
    s
}

/// The statement behind "create stock item": stores `item` under a new id.
/// Its best-by date is not among the columns sent, so the database's
/// default stands.
pub fn new_stock_item(item: &StockItem) -> (s: Statement)
    ensures
        s@.text == statement_text(Entity::StockItem, Operation::Create),
        s@.params == seq![
            SqlValueView::Int(Some(item.product_id)),
            SqlValueView::Int(Some(item.space_id)),
            SqlValueView::Real(Some(item.stock_quantity)),
        ],
        s@.params.len() == Entity::StockItem.column_names().len(),
{
    let mut params: Vec<SqlValue> = Vec::new();
    params.push(SqlValue::Int(Some(item.product_id)));
    params.push(SqlValue::Int(Some(item.space_id)));
    params.push(SqlValue::Real(Some(item.stock_quantity)));
    let s = Statement { text: insert_into(Entity::StockItem), params };
    assert(s@.params =~= seq![
        SqlValueView::Int(Some(item.product_id)),
        SqlValueView::Int(Some(item.space_id)),
        SqlValueView::Real(Some(item.stock_quantity)),
    ]);
    s
}

} // verus!
