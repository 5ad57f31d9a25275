use ukis::entity::Entity;
use ukis::record::{Place, Product, Real, Space, StockItem, Unit, UnitConversion};
use ukis::statement::{
    delete_one, insert_into, new_place, new_product, new_space, new_stock_item, new_unit,
    new_unit_conversion, select_all, select_one, SqlValue,
};

const ALL: [Entity; 6] = [
    Entity::Product,
    Entity::Unit,
    Entity::UnitConversion,
    Entity::Place,
    Entity::Space,
    Entity::StockItem,
];

fn number(x: f32) -> Real {
    Real::from_bits(x.to_bits())
}

fn text(s: &str) -> SqlValue {
    SqlValue::Text(Some(String::from(s)))
}

#[test]
fn select_all_reads_the_whole_table() {
    let s = select_all(Entity::Product);
    assert_eq!(s.text, "SELECT * FROM products");
    assert!(s.params.is_empty());
}

#[test]
fn select_all_for_every_kind() {
    let expected = [
        "SELECT * FROM products",
        "SELECT * FROM units",
        "SELECT * FROM unit_conversions",
        "SELECT * FROM places",
        "SELECT * FROM spaces",
        "SELECT * FROM stock_items",
    ];
    for (entity, text) in ALL.iter().zip(expected) {
        let s = select_all(*entity);
        assert_eq!(s.text, text);
        assert_eq!(s.params, vec![]);
    }
}

#[test]
fn select_one_binds_the_id() {
    let s = select_one(Entity::UnitConversion, 7);
    assert_eq!(s.text, "SELECT * FROM unit_conversions WHERE id = $1");
    assert_eq!(s.params, vec![SqlValue::Int(Some(7))]);
}

#[test]
fn select_one_for_every_kind() {
    let expected = [
        "SELECT * FROM products WHERE id = $1",
        "SELECT * FROM units WHERE id = $1",
        "SELECT * FROM unit_conversions WHERE id = $1",
        "SELECT * FROM places WHERE id = $1",
        "SELECT * FROM spaces WHERE id = $1",
        "SELECT * FROM stock_items WHERE id = $1",
    ];
    for (entity, text) in ALL.iter().zip(expected) {
        let s = select_one(*entity, 12);
        assert_eq!(s.text, text);
        assert_eq!(s.params, vec![SqlValue::Int(Some(12))]);
    }
}

#[test]
fn delete_one_binds_the_id() {
    let s = delete_one(Entity::StockItem, -3);
    assert_eq!(s.text, "\nDELETE FROM stock_items\nWHERE id = $1\nRETURNING id");
    assert_eq!(s.params, vec![SqlValue::Int(Some(-3))]);
}

#[test]
fn delete_one_for_every_kind() {
    let expected = [
        "\nDELETE FROM products\nWHERE id = $1\nRETURNING id",
        "\nDELETE FROM units\nWHERE id = $1\nRETURNING id",
        "\nDELETE FROM unit_conversions\nWHERE id = $1\nRETURNING id",
        "\nDELETE FROM places\nWHERE id = $1\nRETURNING id",
        "\nDELETE FROM spaces\nWHERE id = $1\nRETURNING id",
        "\nDELETE FROM stock_items\nWHERE id = $1\nRETURNING id",
    ];
    for (entity, text) in ALL.iter().zip(expected) {
        let s = delete_one(*entity, i32::MAX);
        assert_eq!(s.text, text);
        assert_eq!(s.params, vec![SqlValue::Int(Some(i32::MAX))]);
    }
}

#[test]
fn the_id_never_enters_the_text() {
    for entity in ALL {
        assert_eq!(select_one(entity, 1).text, select_one(entity, -987_654).text);
        assert_eq!(delete_one(entity, 1).text, delete_one(entity, -987_654).text);
    }
}

#[test]
fn insert_text_for_every_kind() {
    let expected = [
        "\nINSERT INTO products (name, description, parent_product_id, purchase_unit_id, stock_unit_id, purchase_to_stock_factor)\nVALUES ($1, $2, $3, $4, $5, $6)\nRETURNING id",
        "\nINSERT INTO units (singular, plural)\nVALUES ($1, $2)\nRETURNING id",
        "\nINSERT INTO unit_conversions (from_unit_id, to_unit_id, factor)\nVALUES ($1, $2, $3)\nRETURNING id",
        "\nINSERT INTO places (name, description)\nVALUES ($1, $2)\nRETURNING id",
        "\nINSERT INTO spaces (name, description)\nVALUES ($1, $2)\nRETURNING id",
        "\nINSERT INTO stock_items (product_id, space_id, stock_quantity)\nVALUES ($1, $2, $3)\nRETURNING id",
    ];
    for (entity, text) in ALL.iter().zip(expected) {
        assert_eq!(insert_into(*entity), text);
    }
}

#[test]
fn one_placeholder_for_each_column() {
    for entity in ALL {
        let text = insert_into(entity);
        let columns = entity.columns().len();
        assert_eq!(text.matches('$').count(), columns);
        for k in 1..=columns {
            assert!(text.contains(&format!("${}", k)));
        }
        assert!(!text.contains(&format!("${}", columns + 1)));
    }
}

#[test]
fn new_product_binds_six_values_in_column_order() {
    let product = Product {
        id: 0,
        name: String::from("eggs"),
        description: None,
        parent_product_id: Some(4),
        purchase_unit_id: Some(2),
        stock_unit_id: Some(3),
        purchase_to_stock_factor: Some(number(12.0)),
    };
    let s = new_product(&product);
    assert_eq!(s.text, insert_into(Entity::Product));
    assert_eq!(
        s.params,
        vec![
            text("eggs"),
            SqlValue::Text(None),
            SqlValue::Int(Some(4)),
            SqlValue::Int(Some(2)),
            SqlValue::Int(Some(3)),
            SqlValue::Real(Some(Real::from_bits(0x4140_0000))),
        ]
    );
}

#[test]
fn new_product_keeps_absent_values_typed() {
    let product = Product {
        id: 99,
        name: String::new(),
        description: Some(String::from("free range")),
        parent_product_id: None,
        purchase_unit_id: None,
        stock_unit_id: None,
        purchase_to_stock_factor: None,
    };
    let s = new_product(&product);
    assert_eq!(
        s.params,
        vec![
            text(""),
            text("free range"),
            SqlValue::Int(None),
            SqlValue::Int(None),
            SqlValue::Int(None),
            SqlValue::Real(None),
        ]
    );
}

#[test]
fn new_product_does_not_send_the_id() {
    let mut product = Product {
        id: 1,
        name: String::from("milk"),
        description: None,
        parent_product_id: None,
        purchase_unit_id: None,
        stock_unit_id: None,
        purchase_to_stock_factor: None,
    };
    let first = new_product(&product);
    product.id = 2;
    assert_eq!(new_product(&product), first);
}

#[test]
fn new_unit_binds_singular_then_plural() {
    let unit = Unit { id: 0, singular: String::from("gram"), plural: Some(String::from("grams")) };
    let s = new_unit(&unit);
    assert_eq!(s.text, "\nINSERT INTO units (singular, plural)\nVALUES ($1, $2)\nRETURNING id");
    assert_eq!(s.params, vec![text("gram"), text("grams")]);

    let unit = Unit { id: 0, singular: String::from("each"), plural: None };
    assert_eq!(new_unit(&unit).params, vec![text("each"), SqlValue::Text(None)]);
}

#[test]
fn new_unit_conversion_binds_from_to_factor() {
    let conversion =
        UnitConversion { id: 0, from_unit_id: 5, to_unit_id: 6, factor: Some(number(1000.0)) };
    let s = new_unit_conversion(&conversion);
    assert_eq!(
        s.text,
        "\nINSERT INTO unit_conversions (from_unit_id, to_unit_id, factor)\nVALUES ($1, $2, $3)\nRETURNING id"
    );
    assert_eq!(
        s.params,
        vec![SqlValue::Int(Some(5)), SqlValue::Int(Some(6)), SqlValue::Real(Some(number(1000.0)))]
    );

    let conversion = UnitConversion { id: 0, from_unit_id: 6, to_unit_id: 5, factor: None };
    assert_eq!(
        new_unit_conversion(&conversion).params,
        vec![SqlValue::Int(Some(6)), SqlValue::Int(Some(5)), SqlValue::Real(None)]
    );
}

#[test]
fn new_place_binds_name_then_description() {
    let place =
        Place { id: 0, name: String::from("market"), description: Some(String::from("Saturdays")) };
    let s = new_place(&place);
    assert_eq!(s.text, "\nINSERT INTO places (name, description)\nVALUES ($1, $2)\nRETURNING id");
    assert_eq!(s.params, vec![text("market"), text("Saturdays")]);
}

#[test]
fn new_space_binds_name_then_description() {
    let space = Space { id: 0, name: String::from("pantry"), description: None };
    let s = new_space(&space);
    assert_eq!(s.text, "\nINSERT INTO spaces (name, description)\nVALUES ($1, $2)\nRETURNING id");
    assert_eq!(s.params, vec![text("pantry"), SqlValue::Text(None)]);
}

#[test]
fn new_stock_item_leaves_the_best_by_date_out() {
    let date = chrono::NaiveDate::from_ymd_opt(2030, 1, 31);
    assert!(date.is_some());
    let item = StockItem {
        id: 0,
        product_id: 8,
        space_id: 9,
        stock_quantity: number(2.5),
        best_by_date: date,
    };
    let s = new_stock_item(&item);
    assert_eq!(
        s.text,
        "\nINSERT INTO stock_items (product_id, space_id, stock_quantity)\nVALUES ($1, $2, $3)\nRETURNING id"
    );
    assert_eq!(
        s.params,
        vec![SqlValue::Int(Some(8)), SqlValue::Int(Some(9)), SqlValue::Real(Some(number(2.5)))]
    );
    let undated = StockItem { best_by_date: None, ..item.clone() };
    assert_eq!(new_stock_item(&undated), s);
    assert_eq!(item.best_by_date, date);
}

#[test]
fn text_with_quotes_is_bound_and_not_spliced() {
    let place = Place {
        id: 0,
        name: String::from("'); DROP TABLE places; --"),
        description: None,
    };
    let s = new_place(&place);
    assert_eq!(s.text, insert_into(Entity::Place));
    assert_eq!(s.params[0], text("'); DROP TABLE places; --"));
}

#[test]
fn values_are_as_many_as_columns() {
    let product = Product {
        id: 0,
        name: String::from("a"),
        description: None,
        parent_product_id: None,
        purchase_unit_id: None,
        stock_unit_id: None,
        purchase_to_stock_factor: None,
    };
    assert_eq!(new_product(&product).params.len(), Entity::Product.columns().len());
    let unit = Unit { id: 0, singular: String::from("a"), plural: None };
    assert_eq!(new_unit(&unit).params.len(), Entity::Unit.columns().len());
    let conversion = UnitConversion { id: 0, from_unit_id: 1, to_unit_id: 2, factor: None };
    assert_eq!(
        new_unit_conversion(&conversion).params.len(),
        Entity::UnitConversion.columns().len()
    );
    let place = Place { id: 0, name: String::from("a"), description: None };
    assert_eq!(new_place(&place).params.len(), Entity::Place.columns().len());
    let space = Space { id: 0, name: String::from("a"), description: None };
    assert_eq!(new_space(&space).params.len(), Entity::Space.columns().len());
    let item = StockItem {
        id: 0,
        product_id: 1,
        space_id: 2,
        stock_quantity: number(0.0),
        best_by_date: None,
    };
    assert_eq!(new_stock_item(&item).params.len(), Entity::StockItem.columns().len());
}

#[test]
fn every_operation_has_a_statement_of_its_own() {
    let mut texts = Vec::new();
    for entity in ALL {
        texts.push(select_all(entity).text);
        texts.push(select_one(entity, 1).text);
        texts.push(insert_into(entity));
        texts.push(delete_one(entity, 1).text);
    }
    assert_eq!(texts.len(), 24);
    for (i, a) in texts.iter().enumerate() {
        for (j, b) in texts.iter().enumerate() {
            assert_eq!(a == b, i == j);
        }
    }
}
