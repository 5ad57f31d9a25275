use ukis::entity::Entity;
use ukis::response::{
    not_found_message, DeleteResponse, GetResponse, STATUS_NOT_FOUND, STATUS_OK,
};

#[test]
fn not_found_message_for_every_kind() {
    assert_eq!(not_found_message(Entity::Product, 5), "No product with id '5' found.");
    assert_eq!(not_found_message(Entity::Unit, 5), "No unit with id '5' found.");
    assert_eq!(
        not_found_message(Entity::UnitConversion, 5),
        "No unit conversion with id '5' found."
    );
    assert_eq!(not_found_message(Entity::Place, 5), "No place with id '5' found.");
    assert_eq!(not_found_message(Entity::Space, 5), "No space with id '5' found.");
    assert_eq!(not_found_message(Entity::StockItem, 5), "No stock item with id '5' found.");
}

#[test]
fn not_found_message_names_any_id() {
    assert_eq!(not_found_message(Entity::Place, 0), "No place with id '0' found.");
    assert_eq!(not_found_message(Entity::Place, -17), "No place with id '-17' found.");
    assert_eq!(
        not_found_message(Entity::Place, i32::MAX),
        "No place with id '2147483647' found."
    );
    assert_eq!(
        not_found_message(Entity::Place, i32::MIN),
        "No place with id '-2147483648' found."
    );
}

#[test]
fn not_found_message_is_what_the_formatter_writes() {
    for id in [0, 1, -1, 42, 1000, -1000, i32::MAX, i32::MIN] {
        assert_eq!(
            not_found_message(Entity::StockItem, id),
            format!("No stock item with id '{}' found.", id)
        );
    }
}

#[test]
fn status_codes() {
    assert_eq!(STATUS_OK, 200);
    assert_eq!(STATUS_NOT_FOUND, 404);
}

#[test]
fn a_found_row_is_sent_back_as_it_is() {
    let reply = GetResponse::from_row(Entity::Unit, 3, Some(String::from("gram")));
    assert_eq!(reply, GetResponse::Success(String::from("gram")));
    assert_eq!(reply.status(), 200);
}

#[test]
fn a_missing_row_gives_the_message() {
    let reply: GetResponse<String> = GetResponse::from_row(Entity::Unit, 3, None);
    assert_eq!(reply, GetResponse::NotFound(String::from("No unit with id '3' found.")));
    assert_eq!(reply.status(), 404);
}

#[test]
fn a_found_row_is_not_looked_into() {
    let reply = GetResponse::from_row(Entity::Product, 1, Some(vec![9u8, 8, 7]));
    assert_eq!(reply, GetResponse::Success(vec![9u8, 8, 7]));
    let reply = GetResponse::from_row(Entity::Product, 1, Some(()));
    assert_eq!(reply, GetResponse::Success(()));
}

#[test]
fn a_removal_is_confirmed_with_the_id_asked_for() {
    let reply = DeleteResponse::from_row(Entity::Space, 11, Some(11));
    assert_eq!(reply, DeleteResponse::Success(11));
    assert_eq!(reply.status(), 200);
    let reply = DeleteResponse::from_row(Entity::Space, 11, Some(-5));
    assert_eq!(reply, DeleteResponse::Success(11));
}

#[test]
fn nothing_removed_gives_the_message() {
    let reply = DeleteResponse::from_row(Entity::UnitConversion, 11, None);
    assert_eq!(
        reply,
        DeleteResponse::NotFound(String::from("No unit conversion with id '11' found."))
    );
    assert_eq!(reply.status(), 404);
}

#[test]
fn messages_tell_ids_apart() {
    let ids = [0, 1, -1, 10, 11, 101, 110, i32::MAX, i32::MIN];
    for a in ids {
        for b in ids {
            let same = not_found_message(Entity::Product, a) == not_found_message(Entity::Product, b);
            assert_eq!(same, a == b);
        }
    }
}
