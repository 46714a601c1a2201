use rwebapi::common::{CommonError, ErrorKind, ResultPaging};
use rwebapi::store::{listing, outcome, StoreFault};

#[test]
fn every_kind_has_its_code() {
    assert_eq!(ErrorKind::NotFound.code(), 404);
    assert_eq!(ErrorKind::Conflict.code(), 409);
    assert_eq!(ErrorKind::AuthFailure.code(), 403);
    assert_eq!(ErrorKind::ConnectionFailure.code(), 500);
    assert_eq!(ErrorKind::StoreFailure.code(), 500);
    assert_eq!(ErrorKind::InternalFailure.code(), 500);
}

#[test]
fn an_error_carries_its_message_and_the_code_of_its_kind() {
    let e = CommonError::new(ErrorKind::Conflict, "taken".to_string());
    assert_eq!(e, CommonError { message: "taken".to_string(), code: 409 });
    assert_eq!(e.clone(), e);
}

#[test]
fn every_fault_has_its_kind() {
    assert_eq!(StoreFault::Connection("down".to_string()).kind(), ErrorKind::ConnectionFailure);
    assert_eq!(StoreFault::NotFound.kind(), ErrorKind::NotFound);
    assert_eq!(StoreFault::UniqueViolation("users_email_key".to_string()).kind(), ErrorKind::Conflict);
    assert_eq!(StoreFault::Other("disk".to_string()).kind(), ErrorKind::StoreFailure);
}

#[test]
fn a_fault_becomes_an_error_with_the_store_s_words() {
    assert_eq!(
        StoreFault::Connection("down".to_string()).into_error(),
        CommonError { message: "down".to_string(), code: 500 }
    );
    assert_eq!(
        StoreFault::UniqueViolation("users_email_key".to_string()).into_error(),
        CommonError { message: "users_email_key".to_string(), code: 409 }
    );
    assert_eq!(
        StoreFault::Other("disk".to_string()).into_error(),
        CommonError { message: "disk".to_string(), code: 500 }
    );
    assert_eq!(StoreFault::NotFound.into_error().code, 404);
}

#[test]
fn an_outcome_keeps_the_value_or_classifies_the_fault() {
    assert_eq!(outcome(Ok(7)), Ok(7));
    assert_eq!(outcome::<i64>(Err(StoreFault::NotFound)).unwrap_err().code, 404);
    assert_eq!(outcome::<i64>(Err(StoreFault::Other("disk".to_string()))).unwrap_err().code, 500);
}

#[test]
fn a_listing_needs_both_queries() {
    let paging: ResultPaging<u8> = listing(Ok(9), Ok(vec![1, 2])).unwrap();
    assert_eq!(paging.total, 9);
    assert_eq!(paging.items, vec![1, 2]);
}

#[test]
fn a_listing_reports_the_count_s_failure_first() {
    let count = CommonError { message: "count".to_string(), code: 500 };
    let page = CommonError { message: "page".to_string(), code: 404 };
    assert_eq!(listing::<u8>(Err(count.clone()), Err(page.clone())).unwrap_err(), count);
    assert_eq!(listing::<u8>(Err(count.clone()), Ok(vec![1])).unwrap_err(), count);
    assert_eq!(listing::<u8>(Ok(1), Err(page.clone())).unwrap_err(), page);
}
