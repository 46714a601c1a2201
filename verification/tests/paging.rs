use rwebapi::common::{PageQuery, QueryParams};

struct FirstTen;

impl QueryParams for FirstTen {
    fn spec_limit(&self) -> i64 {
        10
    }

    fn spec_offset(&self) -> i64 {
        0
    }

    fn limit(&self) -> i64 {
        10
    }

    fn offset(&self) -> i64 {
        0
    }
}

#[test]
fn page_query_hands_out_its_numbers() {
    let q = PageQuery { limit: 5, offset: 7 };
    assert_eq!(q.limit(), 5);
    assert_eq!(q.offset(), 7);
}

#[test]
fn a_caller_may_bring_its_own_query() {
    assert_eq!(FirstTen.limit(), 10);
    assert_eq!(FirstTen.offset(), 0);
}
