//! The reply owed to a client for each outcome of a statement.

use vstd::prelude::*;
use vstd::string::StringExecFns;
use crate::decimal::{integer_text, lemma_integer_text_injective, push_integer};
use crate::entity::Entity;

verus! {

/// The HTTP status of a reply that carries what was asked for.
pub const STATUS_OK: u16 = 200;

/// The HTTP status of a reply that says no such record exists.
pub const STATUS_NOT_FOUND: u16 = 404;

/// The message for a client that asked for the record of `entity` with id
/// `id` when there is none.
pub open spec fn not_found_text(entity: Entity, id: int) -> Seq<char> {
    "No "@ + entity.label_text() + " with id '"@ + integer_text(id) + "' found."@
}

/// The message for a client that asked for the record of `entity` with id
/// `id` when there is none.
pub fn not_found_message(entity: Entity, id: i32) -> (message: String)
    ensures
        message@ == not_found_text(entity, id as int),
{
    let mut message = String::new();
    message.append("No ");
    message.append(entity.label());
    message.append(" with id '");
    push_integer(&mut message, id);
    message.append("' found.");
    assert(message@ =~= not_found_text(entity, id as int));
    message
}

/// The message names the id: for one kind of record, two ids never share a
/// message.
pub proof fn lemma_not_found_text_names_id(entity: Entity, a: int, b: int)
    requires
        not_found_text(entity, a) == not_found_text(entity, b),
    ensures
        a == b,
{
    let head = "No "@ + entity.label_text() + " with id '"@;
    let tail = "' found."@;
    let x = integer_text(a);
    let y = integer_text(b);
    let ta = head + x + tail;
    let tb = head + y + tail;
    assert(ta == tb);
    assert(x.len() == y.len()) by {
        assert(ta.len() == head.len() + x.len() + tail.len());
        assert(tb.len() == head.len() + y.len() + tail.len());
    }
    assert(x =~= ta.subrange(head.len() as int, (head.len() + x.len()) as int));
    assert(y =~= tb.subrange(head.len() as int, (head.len() + y.len()) as int));
    lemma_integer_text_injective(a, b);
}

/// The reply to "fetch by id".
#[derive(Clone, Debug, PartialEq)]
pub enum GetResponse<T> {
    /// The record, sent as JSON.
    Success(T),
    /// A message in plain text.
    NotFound(String),
}

impl<T> GetResponse<T> {
    /// The HTTP status that goes with this reply.
    pub open spec fn status_code(self) -> u16 {
        match self {
            GetResponse::Success(_) => STATUS_OK,
            GetResponse::NotFound(_) => STATUS_NOT_FOUND,
        }
    }

    /// The HTTP status that goes with this reply.
    pub fn status(&self) -> (code: u16)
        ensures
            code == self.status_code(),
    {
        match self {
            GetResponse::Success(_) => STATUS_OK,
            GetResponse::NotFound(_) => STATUS_NOT_FOUND,
        }
    }

    /// The reply to a client that asked for the record of `entity` with id
    /// `id`, where `row` is what the database found: the record itself, or
    /// the message that there is none.
    pub fn from_row(entity: Entity, id: i32, row: Option<T>) -> (reply: Self)
        ensures
            match row {
                Some(record) => reply == GetResponse::Success(record),
                None => reply matches GetResponse::NotFound(message) && message@
                    == not_found_text(entity, id as int),
            },
            reply.status_code() == (if row is Some {
                STATUS_OK
            } else {
                STATUS_NOT_FOUND
            }),
    {
        match row {
            Some(record) => GetResponse::Success(record),
            None => GetResponse::NotFound(not_found_message(entity, id)),
        }
    }
}

/// The reply to "delete with id".
#[derive(Clone, Debug, PartialEq)]
pub enum DeleteResponse {
    /// The id of the record that was removed, sent as JSON.
    Success(i32),
    /// A message in plain text.
    NotFound(String),
}

impl DeleteResponse {
    /// The HTTP status that goes with this reply.
    pub open spec fn status_code(self) -> u16 {
        match self {
            DeleteResponse::Success(_) => STATUS_OK,
            DeleteResponse::NotFound(_) => STATUS_NOT_FOUND,
        }
    }

    /// The HTTP status that goes with this reply.
    pub fn status(&self) -> (code: u16)
        ensures
            code == self.status_code(),
    {
        match self {
            DeleteResponse::Success(_) => STATUS_OK,
            DeleteResponse::NotFound(_) => STATUS_NOT_FOUND,
        }
    }

    /// The reply to a client that asked to remove the record of `entity`
    /// with id `id`, where `row` is what the statement returned: the id of
    /// the removed record, or nothing if there was none. A removal is
    /// confirmed with the id that the client sent.
    pub fn from_row(entity: Entity, id: i32, row: Option<i32>) -> (reply: Self)
        ensures
            match row {
                Some(_) => reply == DeleteResponse::Success(id),
                None => reply matches DeleteResponse::NotFound(message) && message@
                    == not_found_text(entity, id as int),
            },
            reply.status_code() == (if row is Some {
                STATUS_OK
            } else {
                STATUS_NOT_FOUND
            }),
    {
        match row {
            Some(_) => DeleteResponse::Success(id),
            None => DeleteResponse::NotFound(not_found_message(entity, id)),
        }
    }
}

} // verus!
