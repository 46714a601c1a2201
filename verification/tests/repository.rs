use rwebapi::common::{PageQuery, ResultPaging};
use rwebapi::users::repo::UserRepo;
use rwebapi::users::table::UserTable;
use rwebapi::users::{User, UserUpdate};

fn day(d: u32) -> chrono::NaiveDateTime {
    chrono::NaiveDate::from_ymd_opt(2021, 3, d).unwrap().and_hms_opt(8, 30, 0).unwrap()
}

fn user(id: &str, email: &str) -> User {
    User {
        id: id.to_string(),
        first_name: format!("first of {}", id),
        last_name: format!("last of {}", id),
        email: email.to_string(),
        password: format!("digest of {}", id),
        created_by: "admin".to_string(),
        updated_by: "admin".to_string(),
        created_at: day(1),
        updated_at: day(1),
    }
}

fn patch(email: &str) -> UserUpdate {
    UserUpdate {
        first_name: "Grace".to_string(),
        last_name: "Hopper".to_string(),
        email: email.to_string(),
        updated_by: "editor".to_string(),
        updated_at: day(9),
    }
}

fn table_of(n: usize) -> UserTable {
    let mut table = UserTable::new();
    for i in 0..n {
        table.create(&user(&format!("u-{}", i), &format!("u{}@example.org", i))).unwrap();
    }
    table
}

fn ids(paging: &ResultPaging<User>) -> Vec<String> {
    paging.items.iter().map(|u| u.id.clone()).collect()
}

#[test]
fn a_new_table_lists_nothing() {
    let table = UserTable::new();
    let paging = table.get_all(&PageQuery { limit: 10, offset: 0 }).unwrap();
    assert_eq!(paging.total, 0);
    assert!(paging.items.is_empty());
}

#[test]
fn get_all_returns_the_page_and_the_full_count() {
    let table = table_of(5);
    let paging = table.get_all(&PageQuery { limit: 2, offset: 1 }).unwrap();
    assert_eq!(paging.total, 5);
    assert_eq!(ids(&paging), vec!["u-1", "u-2"]);
    assert_eq!(paging.items[0], user("u-1", "u1@example.org"));
}

#[test]
fn get_all_never_returns_more_than_the_limit() {
    let table = table_of(5);
    for limit in 0..8 {
        for offset in 0..8 {
            let paging = table.get_all(&PageQuery { limit, offset }).unwrap();
            assert_eq!(paging.total, 5);
            assert!(paging.items.len() as i64 <= limit);
            let rest = if offset < 5 { 5 - offset } else { 0 };
            assert_eq!(paging.items.len() as i64, if limit < rest { limit } else { rest });
        }
    }
}

#[test]
fn get_all_stops_at_the_last_row() {
    let table = table_of(5);
    let paging = table.get_all(&PageQuery { limit: 10, offset: 3 }).unwrap();
    assert_eq!(ids(&paging), vec!["u-3", "u-4"]);
    let beyond = table.get_all(&PageQuery { limit: 10, offset: 5 }).unwrap();
    assert!(beyond.items.is_empty());
    assert_eq!(beyond.total, 5);
    let far = table.get_all(&PageQuery { limit: i64::MAX, offset: i64::MAX }).unwrap();
    assert!(far.items.is_empty());
    let all = table.get_all(&PageQuery { limit: i64::MAX, offset: 0 }).unwrap();
    assert_eq!(all.items.len(), 5);
}

#[test]
fn get_all_with_limit_zero_still_counts() {
    let table = table_of(3);
    let paging = table.get_all(&PageQuery { limit: 0, offset: 0 }).unwrap();
    assert_eq!(paging.total, 3);
    assert!(paging.items.is_empty());
}

#[test]
fn get_all_refuses_negative_numbers() {
    let table = table_of(3);
    assert_eq!(table.get_all(&PageQuery { limit: -1, offset: 0 }).unwrap_err().code, 500);
    assert_eq!(table.get_all(&PageQuery { limit: 1, offset: -1 }).unwrap_err().code, 500);
}

#[test]
fn find_of_an_unknown_id_is_not_found() {
    let table = table_of(3);
    assert_eq!(table.find("u-3").unwrap_err().code, 404);
    assert_eq!(table.find("").unwrap_err().code, 404);
    assert_eq!(UserTable::new().find("u-0").unwrap_err().code, 404);
}

#[test]
fn find_by_email_of_an_unknown_email_is_not_found() {
    let table = table_of(3);
    assert_eq!(table.find_by_email("u3@example.org").unwrap_err().code, 404);
    assert_eq!(table.find_by_email("u-1").unwrap_err().code, 404);
}

#[test]
fn find_matches_the_whole_key() {
    let table = table_of(3);
    assert_eq!(table.find("u-").unwrap_err().code, 404);
    assert_eq!(table.find("u-11").unwrap_err().code, 404);
    assert_eq!(table.find("U-1").unwrap_err().code, 404);
}

#[test]
fn create_then_find_returns_the_created_user() {
    let mut table = table_of(2);
    let grace = user("u-9", "grace@example.org");
    let echoed = table.create(&grace).unwrap();
    assert_eq!(echoed, grace);
    assert_eq!(table.find("u-9").unwrap(), grace);
    assert_eq!(table.find_by_email("grace@example.org").unwrap(), grace);
    assert_eq!(table.find("u-0").unwrap(), user("u-0", "u0@example.org"));
}

#[test]
fn create_refuses_a_taken_id() {
    let mut table = table_of(2);
    let e = table.create(&user("u-1", "fresh@example.org")).unwrap_err();
    assert_eq!(e.code, 409);
    assert_eq!(table.get_all(&PageQuery { limit: 10, offset: 0 }).unwrap().total, 2);
    assert_eq!(table.find_by_email("fresh@example.org").unwrap_err().code, 404);
}

#[test]
fn create_refuses_a_taken_email() {
    let mut table = table_of(2);
    let e = table.create(&user("u-7", "u1@example.org")).unwrap_err();
    assert_eq!(e.code, 409);
    assert_eq!(table.find("u-7").unwrap_err().code, 404);
    assert_eq!(table.find_by_email("u1@example.org").unwrap().id, "u-1");
}

#[test]
fn update_then_find_shows_the_patched_fields_and_keeps_the_others() {
    let mut table = table_of(3);
    let returned = table.update("u-1", &patch("grace@example.org")).unwrap();
    let found = table.find("u-1").unwrap();
    assert_eq!(returned, found);
    assert_eq!(found.first_name, "Grace");
    assert_eq!(found.last_name, "Hopper");
    assert_eq!(found.email, "grace@example.org");
    assert_eq!(found.updated_by, "editor");
    assert_eq!(found.updated_at, day(9));
    assert_eq!(found.id, "u-1");
    assert_eq!(found.password, "digest of u-1");
    assert_eq!(found.created_by, "admin");
    assert_eq!(found.created_at, day(1));
    assert_eq!(table.find("u-0").unwrap(), user("u-0", "u0@example.org"));
    assert_eq!(table.find("u-2").unwrap(), user("u-2", "u2@example.org"));
    assert_eq!(table.find_by_email("u1@example.org").unwrap_err().code, 404);
    assert_eq!(table.find_by_email("grace@example.org").unwrap().id, "u-1");
}

#[test]
fn update_keeps_the_place_in_the_listing() {
    let mut table = table_of(3);
    table.update("u-1", &patch("grace@example.org")).unwrap();
    let paging = table.get_all(&PageQuery { limit: 10, offset: 0 }).unwrap();
    assert_eq!(ids(&paging), vec!["u-0", "u-1", "u-2"]);
}

#[test]
fn update_of_an_unknown_id_is_not_found() {
    let mut table = table_of(3);
    assert_eq!(table.update("u-3", &patch("grace@example.org")).unwrap_err().code, 404);
    assert_eq!(table.find_by_email("grace@example.org").unwrap_err().code, 404);
    assert_eq!(table.update("u-3", &patch("u0@example.org")).unwrap_err().code, 404);
}

#[test]
fn update_refuses_the_email_of_another_user() {
    let mut table = table_of(3);
    assert_eq!(table.update("u-1", &patch("u2@example.org")).unwrap_err().code, 409);
    assert_eq!(table.find("u-1").unwrap(), user("u-1", "u1@example.org"));
}

#[test]
fn update_may_keep_the_email() {
    let mut table = table_of(3);
    let found = table.update("u-1", &patch("u1@example.org")).unwrap();
    assert_eq!(found.email, "u1@example.org");
    assert_eq!(found.first_name, "Grace");
}

#[test]
fn delete_then_find_is_not_found() {
    let mut table = table_of(3);
    assert_eq!(table.delete("u-1"), Ok(()));
    assert_eq!(table.find("u-1").unwrap_err().code, 404);
    assert_eq!(table.find_by_email("u1@example.org").unwrap_err().code, 404);
    let paging = table.get_all(&PageQuery { limit: 10, offset: 0 }).unwrap();
    assert_eq!(paging.total, 2);
    assert_eq!(ids(&paging), vec!["u-0", "u-2"]);
}

#[test]
fn delete_of_an_unknown_id_succeeds_and_changes_nothing() {
    let mut table = table_of(3);
    assert_eq!(table.delete("u-3"), Ok(()));
    assert_eq!(table.delete("u-3"), Ok(()));
    assert_eq!(table.get_all(&PageQuery { limit: 10, offset: 0 }).unwrap().total, 3);
    assert_eq!(UserTable::new().delete("u-0"), Ok(()));
}

#[test]
fn a_deleted_key_may_be_stored_again() {
    let mut table = table_of(2);
    table.delete("u-0").unwrap();
    table.create(&user("u-0", "u0@example.org")).unwrap();
    let paging = table.get_all(&PageQuery { limit: 10, offset: 0 }).unwrap();
    assert_eq!(ids(&paging), vec!["u-1", "u-0"]);
}

#[test]
fn a_copy_of_a_user_equals_it() {
    let u = user("u-1", "u1@example.org");
    assert_eq!(u.clone(), u);
    let p = patch("grace@example.org");
    assert_eq!(p.clone(), p);
}

#[test]
fn list_returns_the_page_for_two_numbers() {
    let table = table_of(5);
    let paging = table.list(2, 1).unwrap();
    assert_eq!(paging.total, 5);
    assert_eq!(ids(&paging), vec!["u-1", "u-2"]);
    assert!(table.list(0, 0).unwrap().items.is_empty());
    assert_eq!(table.list(0, 0).unwrap().total, 5);
    assert_eq!(table.list(-1, 0).unwrap_err().code, 500);
    assert_eq!(table.list(1, -1).unwrap_err().code, 500);
}

#[test]
fn get_all_is_list_of_the_limit_and_the_offset() {
    let table = table_of(5);
    for limit in -1..7 {
        for offset in -1..7 {
            let by_params = table.get_all(&PageQuery { limit, offset });
            let by_numbers = table.list(limit, offset);
            match (by_params, by_numbers) {
                (Ok(a), Ok(b)) => {
                    assert_eq!(a.total, b.total);
                    assert_eq!(a.items, b.items);
                }
                (Err(a), Err(b)) => assert_eq!(a.code, b.code),
                _ => panic!("the two listings disagree"),
            }
        }
    }
}

#[test]
fn a_refused_update_changes_nothing() {
    let mut table = table_of(3);
    assert!(table.update("u-1", &patch("u2@example.org")).is_err());
    assert!(table.update("u-9", &patch("grace@example.org")).is_err());
    for i in 0..3 {
        let id = format!("u-{}", i);
        assert_eq!(table.find(&id).unwrap(), user(&id, &format!("u{}@example.org", i)));
    }
}
