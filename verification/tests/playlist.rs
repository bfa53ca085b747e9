use yt_uploads::api::MyApi;
use yt_uploads::playlist::{ContentDetails, Item, ItemsList, PageInfo};
use yt_uploads::server::greeting;

fn item(id: &str, etag: &str, video_id: &str, published_at: &str) -> Item {
    Item {
        details: ContentDetails {
            published_at: String::from(published_at),
            video_id: String::from(video_id),
        },
        id: String::from(id),
        etag: String::from(etag),
    }
}

#[test]
fn page_keeps_items_in_order() {
    let page = ItemsList {
        items: vec![
            item("a", "e1", "v1", "2020-01-01T00:00:00Z"),
            item("b", "e2", "v2", "2020-01-02T00:00:00Z"),
        ],
        next_page_token: Some(String::from("CAUQAA")),
        page_info: PageInfo { results_per_page: 50, total_results: 2 },
    };
    assert_eq!(page.items.len(), 2);
    assert_eq!(page.items[0].id, "a");
    assert_eq!(page.items[0].details.video_id, "v1");
    assert_eq!(page.items[1].etag, "e2");
    assert_eq!(page.items[1].details.published_at, "2020-01-02T00:00:00Z");
    assert_eq!(page.page_info.results_per_page, 50);
    assert_eq!(page.page_info.total_results, 2);
}

#[test]
fn next_page_token_asks_for_the_following_page() {
    let api = MyApi::new(String::from("KEY"));
    let page = ItemsList {
        items: vec![item("a", "e1", "v1", "2020-01-01T00:00:00Z")],
        next_page_token: Some(String::from("CAUQAA")),
        page_info: PageInfo { results_per_page: 1, total_results: 7 },
    };
    assert_eq!(
        api.items_url("UUabc", page.next_page_token.as_deref()),
        "https://www.googleapis.com/youtube/v3/playlistItems?key=KEY&part=contentDetails&maxResults=50&playlistId=UUabc&pageToken=CAUQAA"
    );
}

#[test]
fn last_page_has_no_token() {
    let api = MyApi::new(String::from("KEY"));
    let page = ItemsList {
        items: Vec::new(),
        next_page_token: None,
        page_info: PageInfo { results_per_page: 50, total_results: 0 },
    };
    assert!(page.items.is_empty());
    assert_eq!(api.items_url("UUabc", page.next_page_token.as_deref()), api.items_url("UUabc", None));
}

#[test]
fn page_debug_text_names_every_field() {
    let page = ItemsList {
        items: vec![item("a", "e1", "v1", "2020-01-01T00:00:00Z")],
        next_page_token: None,
        page_info: PageInfo { results_per_page: 50, total_results: 1 },
    };
    assert_eq!(
        format!("{:?}", page),
        "ItemsList { items: [Item { details: ContentDetails { published_at: \"2020-01-01T00:00:00Z\", video_id: \"v1\" }, id: \"a\", etag: \"e1\" }], next_page_token: None, page_info: PageInfo { results_per_page: 50, total_results: 1 } }"
    );
}

#[test]
fn page_info_pretty_debug_text() {
    let info = PageInfo { results_per_page: 50, total_results: 123 };
    assert_eq!(
        format!("{:#?}", info),
        "PageInfo {\n    results_per_page: 50,\n    total_results: 123,\n}"
    );
}

#[test]
fn greeting_is_hello_world() {
    assert_eq!(greeting(), "Hello world");
}
