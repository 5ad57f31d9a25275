//! The shape of each record, as it is stored and as clients send it.

use vstd::prelude::*;

verus! {

/// A calendar date without a time zone, as `chrono` holds it. The library
/// carries such a value and never looks inside.
#[verifier::external_type_specification]
#[verifier::external_body]
pub struct ExNaiveDate(chrono::NaiveDate);

/// A date and time of day without a time zone, as `chrono` holds it. The
/// library carries such a value and never looks inside.
#[verifier::external_type_specification]
#[verifier::external_body]
pub struct ExNaiveDateTime(chrono::NaiveDateTime);

/// A single-precision number, held by its IEEE 754 bit pattern. The library
/// stores and forwards such numbers and never computes with them.
#[derive(Clone, Copy, Debug, PartialEq, Eq, Structural)]
pub struct Real {
    pub bits: u32,
}

impl Real {
    /// The number whose bit pattern is `bits`.
    pub fn from_bits(bits: u32) -> (r: Real)
        ensures
            r.bits == bits,
    {
        Real { bits }
    }

    /// The bit pattern of this number.
    pub fn to_bits(self) -> (bits: u32)
        ensures
            bits == self.bits,
    {
        self.bits
    }
}

/// Something that is bought, held in stock and used up.
#[derive(Clone, Debug, PartialEq)]
pub struct Product {
    /// The id of the product
    pub id: i64,
    /// The name of the product
    pub name: String,
    /// A description for the product
    pub description: Option<String>,
    /// The product's parent product id
    pub parent_product_id: Option<i32>,
    /// The unit in which the product is counted when it is bought
    pub purchase_unit_id: Option<i32>,
    /// The unit in which the product is counted in stock
    pub stock_unit_id: Option<i32>,
    /// How many stock units one purchase unit makes: 12 where a carton of
    /// eggs is bought and single eggs are stocked
    pub purchase_to_stock_factor: Option<Real>,
}

/// A part of a place where stock is kept: a shelf, a drawer.
#[derive(Clone, Debug, PartialEq)]
pub struct Space {
    /// The id of the space
    pub id: i64,
    /// The name of the space
    pub name: String,
    /// A description for the space
    pub description: Option<String>,
}

/// A place that holds spaces, or that stock comes from.
#[derive(Clone, Debug, PartialEq)]
pub struct Place {
    /// The id of the place
    pub id: i64,
    /// The name of the place
    pub name: String,
    /// A description for the place
    pub description: Option<String>,
}

/// A unit of measure.
#[derive(Clone, Debug, PartialEq)]
pub struct Unit {
    /// The id of the unit
    pub id: i64,
    /// The singular form of the unit: gram
    pub singular: String,
    /// The plural form of the unit, if it has one: grams
    pub plural: Option<String>,
}

/// How much of one unit makes one of another.
#[derive(Clone, Debug, PartialEq)]
pub struct UnitConversion {
    /// The id of the unit conversion
    pub id: i64,
    /// The id of the unit to convert from
    pub from_unit_id: i32,
    /// The id of the unit to convert to
    pub to_unit_id: i32,
    /// The factor from unit to unit
    pub factor: Option<Real>,
}

/// A quantity of one product in one space.
#[derive(Clone, Debug, PartialEq)]
pub struct StockItem {
    pub id: i64,
    pub product_id: i32,
    pub space_id: i32,
    pub stock_quantity: Real,
    pub best_by_date: Option<chrono::NaiveDate>,
}

/// A piece of an interface description, as `poem_openapi` holds it: a
/// schema written out in place, or a reference to one by name. The library
/// hands such a value on and never looks inside.
#[verifier::external_type_specification]
#[verifier::external_body]
pub struct ExMetaSchemaRef(poem_openapi::registry::MetaSchemaRef);

/// The schema that `poem_openapi::registry::MetaSchema::new_with_format`
/// makes for a JSON type and a format, written out in place.
pub uninterp spec fn inline_schema(ty: Seq<char>, format: Seq<char>) -> poem_openapi::registry::MetaSchemaRef;

/// Calls `poem_openapi::registry::MetaSchema::new_with_format`, which fills
/// in the JSON type and the format and leaves every other field of the
/// schema at its empty default, and boxes the result as an inline schema.
/// Nothing is claimed of the schema but that it is the one this call makes
/// for these two strings.
#[verifier::external_body]
fn inline_schema_of(ty: &'static str, format: &'static str) -> (schema:
    poem_openapi::registry::MetaSchemaRef)
    ensures
        schema == inline_schema(ty@, format@),
{
    poem_openapi::registry::MetaSchemaRef::Inline(
        Box::new(poem_openapi::registry::MetaSchema::new_with_format(ty, format)),
    )
}

/// What a stock entry records.
#[derive(Clone, Copy, Debug, PartialEq, Eq, Structural)]
pub enum EntryType {
    Purchase,
    Transfer,
    Consume,
    Expire,
}

impl EntryType {
    /// The name of this type in the database and in the interface
    /// description.
    pub open spec fn name_text() -> Seq<char> {
        "entry_type"@
    }

    /// The name of this type in the database and in the interface
    /// description.
    pub fn name() -> (name: &'static str)
        ensures
            name@ == Self::name_text(),
    {
        "entry_type"
    }

    /// How an entry type appears in the interface description: inline, as
    /// a string with the format `trim`.
    pub fn schema_ref() -> (schema: poem_openapi::registry::MetaSchemaRef)
        ensures
            schema == inline_schema("string"@, "trim"@),
    {
        inline_schema_of("string", "trim")
    }

    /// The value itself: an entry type has no inner representation.
    pub fn as_raw_value(&self) -> (raw: Option<&EntryType>)
        ensures
            raw == Some(self),
    {
        Some(self)
    }
}

/// One movement of stock: a purchase, a transfer, a use or a loss.
#[derive(Debug, PartialEq)]
pub struct StockEntry {
    pub id: i64,
    pub entry_timestamp: chrono::NaiveDateTime,
    pub entry_type: EntryType,
    pub stock_quantity: Real,
    pub stock_item_i32: Option<i32>,
    pub product_id: Option<i32>,
    pub place_id: Option<i32>,
    pub to_space_id: Option<i32>,
    pub price: Option<Real>,
    pub memo: Option<String>,
}

} // verus!
