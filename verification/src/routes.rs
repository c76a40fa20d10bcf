//! The answer to each request on a store, as a status code and a body.
//!
//! Nothing here sends or receives anything. The functions take the store
//! and the number that a request carries, and say what is to be answered.

use crate::models::{Number, Numbers};
use crate::store::{create_outcome, get_outcome, store_after_create};
use vstd::prelude::*;

verus! {

/// Status of an answer that carries what was asked for.
pub const STATUS_OK: u16 = 200;

/// Status of an answer to a request that stored a new entry.
pub const STATUS_CREATED: u16 = 201;

/// Status of an answer to a request for a number that is not stored.
pub const STATUS_NOT_FOUND: u16 = 404;

/// Status of an answer to a request to store a number that is stored
/// already.
pub const STATUS_CONFLICT: u16 = 409;

/// What an answer carries.
#[derive(Debug)]
pub enum Body {
    /// All entries of a store.
    Numbers(Numbers),
    /// One entry.
    Number(Number),
    /// A plain message.
    Text(String),
}

/// An answer: its status code and what it carries.
#[derive(Debug)]
pub struct Response {
    pub status: u16,
    pub body: Body,
}

impl Response {
    /// This answer carries the plain message `text`.
    pub open spec fn says(&self, text: Seq<char>) -> bool {
        self.body matches Body::Text(message) && message@ == text
    }

    /// This answer carries the one entry `entry`.
    pub open spec fn holds_entry(&self, entry: (usize, Seq<char>)) -> bool {
        self.body matches Body::Number(number) && number@ == entry
    }

    /// This answer carries exactly the entries `entries`.
    pub open spec fn holds_entries(&self, entries: Map<usize, Seq<char>>) -> bool {
        self.body matches Body::Numbers(numbers) && numbers@ == entries
    }
}

/// Answers a request for all entries: always `200`, with a copy of them.
pub fn list_numbers(db: &Numbers) -> (response: Response)
    ensures
        response.status == STATUS_OK,
        response.holds_entries(db@),
{
    Response { status: STATUS_OK, body: Body::Numbers(db.list()) }
}

/// Answers a request for the entry of `number`: `200` with the entry
/// where it is stored, else `404` with the message `Not found`.
pub fn get_number(db: &Numbers, number: usize) -> (response: Response)
    ensures
        match get_outcome(db@, number) {
            Ok(entry) => response.status == STATUS_OK && response.holds_entry(entry),
            Err(_) => response.status == STATUS_NOT_FOUND && response.says("Not found"@),
        },
{
    match db.get(number) {
        Ok(entry) => Response { status: STATUS_OK, body: Body::Number(entry) },
        Err(_) => Response { status: STATUS_NOT_FOUND, body: Body::Text("Not found".to_owned()) },
    }
}

/// Answers a request to store `number`: `201` with the new entry where
/// the number was not stored, else `409` with the message
/// `Number already exists`, the store left as it was.
pub fn save_number(db: &mut Numbers, number: usize) -> (response: Response)
    ensures
        final(db)@ == store_after_create(old(db)@, number),
        match create_outcome(old(db)@, number) {
            Ok(entry) => response.status == STATUS_CREATED && response.holds_entry(entry),
            Err(_) => {
                &&& response.status == STATUS_CONFLICT
                &&& response.says("Number already exists"@)
                &&& *final(db) == *old(db)
            },
        },
        old(db).wf() ==> final(db).wf(),
{
    match db.create(number) {
        Ok(entry) => Response { status: STATUS_CREATED, body: Body::Number(entry) },
        Err(_) => Response {
            status: STATUS_CONFLICT,
            body: Body::Text("Number already exists".to_owned()),
        },
    }
}

} // verus!
