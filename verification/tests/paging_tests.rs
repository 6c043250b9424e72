use notion::paging::{Paging, PagingCursor};
use notion::query::QueryParams;

#[test]
fn both_parameters_render_in_fixed_order() {
    let paging = Paging {
        start_cursor: Some(PagingCursor::new("foo".to_string())),
        page_size: Some(10),
    };
    assert_eq!(paging.to_query_string(), "start_cursor=foo&page_size=10");
}

#[test]
fn default_paging_renders_empty() {
    assert_eq!(Paging::default().to_query_string(), "");
}

#[test]
fn cursor_alone() {
    let paging = Paging {
        start_cursor: Some(PagingCursor::new("abc123".to_string())),
        page_size: None,
    };
    assert_eq!(paging.to_query_string(), "start_cursor=abc123");
}

#[test]
fn page_size_alone_and_boundaries() {
    for (n, text) in [
        (0u8, "page_size=0"),
        (7, "page_size=7"),
        (10, "page_size=10"),
        (99, "page_size=99"),
        (100, "page_size=100"),
        (255, "page_size=255"),
    ] {
        let paging = Paging {
            start_cursor: None,
            page_size: Some(n),
        };
        assert_eq!(paging.to_query_string(), text);
    }
}

#[test]
fn cursor_is_replayed_verbatim() {
    let cursor = PagingCursor::new("Opaque+Token==".to_string());
    assert_eq!(cursor.as_str(), "Opaque+Token==");
}
