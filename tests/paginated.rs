use paddle_rust_sdk::entities::Pagination;
use paddle_rust_sdk::error::SignatureError;
use paddle_rust_sdk::paginated::{gather_page, Paginated};
use paddle_rust_sdk::response::{Meta, SuccessResponse};
use paddle_rust_sdk::Error;
use serde_json::Value;

fn page(items: Vec<u32>, has_more: bool, next: &str) -> SuccessResponse<Vec<u32>> {
    SuccessResponse {
        data: items,
        meta: Meta {
            request_id: "req".to_string(),
            pagination: Some(Pagination {
                per_page: 2,
                next: next.to_string(),
                has_more,
                estimated_total: 5,
            }),
        },
    }
}

const BASE: &str = "https://api.example.com";

fn initial_query() -> Value {
    serde_json::from_str("{\"per_page\":\"2\"}").unwrap()
}

fn transport_error() -> Error {
    Error::PaddleSignature(SignatureError::Empty)
}

#[test]
fn drains_k_pages_then_stays_exhausted() {
    let mut cursor: Paginated<Vec<u32>> = Paginated::new(BASE, "/customers", Ok(initial_query()));
    let pages = vec![
        page(vec![1, 2], true, "https://api.example.com/customers?after=ctm_2&per_page=2"),
        page(vec![3, 4], true, "https://api.example.com/customers?after=ctm_4&per_page=2"),
        page(vec![5], false, "https://api.example.com/customers?after=ctm_5&per_page=2"),
    ];
    let mut requests = 0;
    let mut received = Vec::new();
    for p in pages {
        assert!(cursor.begin().unwrap());
        requests += 1;
        let got = cursor.complete(Ok(p)).unwrap().unwrap();
        received.push(got.data);
    }
    assert_eq!(requests, 3);
    assert_eq!(received, vec![vec![1, 2], vec![3, 4], vec![5]]);
    for _ in 0..3 {
        assert!(!cursor.begin().unwrap());
    }
    assert!(cursor.query().is_none());
}

#[test]
fn next_link_sets_path_and_query() {
    let mut cursor: Paginated<Vec<u32>> = Paginated::new(BASE, "/customers", Ok(initial_query()));
    assert_eq!(cursor.path(), "/customers");
    assert!(cursor.begin().unwrap());
    cursor
        .complete(Ok(page(vec![1], true, "https://api.example.com/v2/customers?after=ctm_9&per_page=2")))
        .unwrap();
    assert_eq!(cursor.path(), "/v2/customers");
    let q = cursor.query().unwrap();
    assert_eq!(q["after"], Value::String("ctm_9".to_string()));
    assert_eq!(q["per_page"], Value::String("2".to_string()));
}

#[test]
fn next_link_without_query_gives_empty_object() {
    let mut cursor: Paginated<Vec<u32>> = Paginated::new(BASE, "/a", Ok(initial_query()));
    assert!(cursor.begin().unwrap());
    cursor.complete(Ok(page(vec![], true, "https://api.example.com/b"))).unwrap();
    assert_eq!(cursor.path(), "/b");
    assert_eq!(cursor.query().unwrap(), &Value::Object(serde_json::Map::new()));
}

#[test]
fn page_without_pagination_is_the_last() {
    let mut cursor: Paginated<Vec<u32>> = Paginated::new(BASE, "/a", Ok(initial_query()));
    assert!(cursor.begin().unwrap());
    let mut p = page(vec![7], true, "https://api.example.com/b");
    p.meta.pagination = None;
    assert_eq!(cursor.complete(Ok(p)).unwrap().unwrap().data, vec![7]);
    assert!(!cursor.begin().unwrap());
}

#[test]
fn failed_request_is_retried_with_the_same_query() {
    let mut cursor: Paginated<Vec<u32>> = Paginated::new(BASE, "/customers", Ok(initial_query()));
    assert!(cursor.begin().unwrap());
    cursor
        .complete(Ok(page(vec![1], true, "https://api.example.com/customers?after=ctm_1")))
        .unwrap();
    let before = cursor.query().cloned();
    assert!(cursor.begin().unwrap());
    assert!(cursor.complete(Err(transport_error())).is_err());
    assert!(cursor.begin().unwrap());
    assert_eq!(cursor.path(), "/customers");
    assert_eq!(cursor.query().cloned(), before);
    assert_eq!(before.unwrap()["after"], Value::String("ctm_1".to_string()));
}

#[test]
fn unreadable_next_link_leaves_the_cursor_in_place() {
    let mut cursor: Paginated<Vec<u32>> = Paginated::new(BASE, "/customers", Ok(initial_query()));
    assert!(cursor.begin().unwrap());
    let r = cursor.complete(Ok(page(vec![1], true, "http://[::1/customers")));
    assert!(matches!(r, Err(Error::Url(_))));
    assert_eq!(cursor.path(), "/customers");
    assert_eq!(cursor.query().cloned(), Some(initial_query()));
    assert!(cursor.begin().unwrap());
}

#[test]
fn construction_error_is_reported_once_on_first_begin() {
    let err = serde_json::from_str::<Value>("{").unwrap_err();
    let mut cursor: Paginated<Vec<u32>> = Paginated::new(BASE, "/customers", Err(err));
    assert!(matches!(cursor.begin(), Err(Error::JsonError(_))));
    assert!(!cursor.begin().unwrap());
}

#[test]
fn gathering_pages_keeps_every_item_in_order() {
    let mut items: Vec<u32> = Vec::new();
    let pages = vec![vec![1, 2], vec![], vec![3, 4, 5]];
    let total: usize = pages.iter().map(|p| p.len()).sum();
    for p in pages {
        gather_page(&mut items, p);
    }
    assert_eq!(items.len(), total);
    assert_eq!(items, vec![1, 2, 3, 4, 5]);
}

#[test]
fn relative_next_link_is_resolved_against_the_request_url() {
    let mut cursor: Paginated<Vec<u32>> = Paginated::new(BASE, "/customers", Ok(initial_query()));
    assert!(cursor.begin().unwrap());
    cursor.complete(Ok(page(vec![1], true, "?after=ctm_3"))).unwrap();
    assert_eq!(cursor.path(), "/customers");
    assert_eq!(cursor.query().unwrap()["after"], Value::String("ctm_3".to_string()));
    assert!(cursor.begin().unwrap());
    cursor.complete(Ok(page(vec![2], true, "/v2/customers?after=ctm_4"))).unwrap();
    assert_eq!(cursor.path(), "/v2/customers");
    assert_eq!(cursor.query().unwrap()["after"], Value::String("ctm_4".to_string()));
}
