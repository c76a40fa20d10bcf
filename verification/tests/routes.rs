use number_types::routes::{get_number, list_numbers, save_number, Body, Response};
use number_types::routes::{STATUS_CONFLICT, STATUS_CREATED, STATUS_NOT_FOUND, STATUS_OK};
use number_types::{Number, Numbers};

fn store_with_one() -> Numbers {
    let mut numbers_db = Numbers::new();
    numbers_db.numbers.insert(1, "1".to_string());
    numbers_db
}

fn entry_of(response: Response) -> Number {
    match response.body {
        Body::Number(entry) => entry,
        other => panic!("an entry was expected, not {:?}", other),
    }
}

fn text_of(response: Response) -> String {
    match response.body {
        Body::Text(text) => text,
        other => panic!("a message was expected, not {:?}", other),
    }
}

fn listing_of(response: Response) -> Numbers {
    match response.body {
        Body::Numbers(numbers) => numbers,
        other => panic!("a listing was expected, not {:?}", other),
    }
}

#[test]
fn status_codes() {
    assert_eq!(STATUS_OK, 200);
    assert_eq!(STATUS_CREATED, 201);
    assert_eq!(STATUS_NOT_FOUND, 404);
    assert_eq!(STATUS_CONFLICT, 409);
}

#[test]
fn test_get_number() {
    let numbers_db = store_with_one();
    let resp = get_number(&numbers_db, 1);
    assert_eq!(resp.status, 200);
    let response = entry_of(resp);
    assert_eq!(response.number, 1);
    assert_eq!(response.result, "1");
}

#[test]
fn test_list_numbers() {
    let numbers_db = store_with_one();
    let resp = list_numbers(&numbers_db);
    assert_eq!(resp.status, 200);
    let response = listing_of(resp);
    assert_eq!(response.numbers.len(), 1);
    assert_eq!(response.numbers.get(&1), Some(&"1".to_string()));
}

#[test]
fn test_save_number() {
    let mut numbers_db = store_with_one();
    let resp = save_number(&mut numbers_db, 2);
    assert_eq!(resp.status, 201);
    let response = entry_of(resp);
    assert_eq!(response.number, 2);
    assert_eq!(response.result, "2");
    assert_eq!(numbers_db.numbers.len(), 2);
    assert_eq!(numbers_db.numbers.get(&2), Some(&"2".to_string()));
}

#[test]
fn test_save_number_conflict() {
    let mut numbers_db = store_with_one();
    let resp = save_number(&mut numbers_db, 1);
    assert_eq!(resp.status, 409);
    assert_eq!(text_of(resp), "Number already exists");
    assert_eq!(numbers_db.numbers.len(), 1);
    assert_eq!(numbers_db.numbers.get(&1), Some(&"1".to_string()));
}

#[test]
fn test_get_number_not_found() {
    let numbers_db = store_with_one();
    let resp = get_number(&numbers_db, 2);
    assert_eq!(resp.status, 404);
    assert_eq!(text_of(resp), "Not found");
}

#[test]
fn list_numbers_of_an_empty_store() {
    let numbers_db = Numbers::new();
    let resp = list_numbers(&numbers_db);
    assert_eq!(resp.status, 200);
    assert!(listing_of(resp).numbers.is_empty());
}

#[test]
fn save_number_answers_with_the_label() {
    let mut numbers_db = Numbers::new();
    let three = entry_of(save_number(&mut numbers_db, 3));
    assert_eq!((three.number, three.result.as_str()), (3, "Type 1"));
    let fifteen = entry_of(save_number(&mut numbers_db, 15));
    assert_eq!((fifteen.number, fifteen.result.as_str()), (15, "Type 3"));
    let ten = entry_of(save_number(&mut numbers_db, 10));
    assert_eq!((ten.number, ten.result.as_str()), (10, "Type 2"));
    let seven = entry_of(save_number(&mut numbers_db, 7));
    assert_eq!((seven.number, seven.result.as_str()), (7, "7"));
}

#[test]
fn save_then_get_then_save_again() {
    let mut numbers_db = Numbers::new();
    assert_eq!(get_number(&numbers_db, 30).status, 404);
    assert_eq!(save_number(&mut numbers_db, 30).status, 201);
    let found = get_number(&numbers_db, 30);
    assert_eq!(found.status, 200);
    assert_eq!(entry_of(found).result, "Type 3");
    assert_eq!(save_number(&mut numbers_db, 30).status, 409);
    let found = get_number(&numbers_db, 30);
    assert_eq!(found.status, 200);
    assert_eq!(entry_of(found).result, "Type 3");
}

#[test]
fn a_listing_is_a_copy() {
    let mut numbers_db = store_with_one();
    let listing = listing_of(list_numbers(&numbers_db));
    assert_eq!(save_number(&mut numbers_db, 2).status, 201);
    assert_eq!(listing.numbers.len(), 1);
    assert_eq!(listing_of(list_numbers(&numbers_db)).numbers.len(), 2);
}
