use rusddit::filter::{PageError, filter_out_text_posts};
use rusddit::post::{Post, RawListingPage};

fn entry(name: Option<&str>, selftext: Option<&str>) -> Post {
    Post {
        name: name.map(|s| s.to_string()),
        title: None,
        subreddit: None,
        selftext: selftext.map(|s| s.to_string()),
    }
}

#[test]
fn cursor_is_identifier_of_last_declared_entry() {
    let page = RawListingPage {
        dist: Some(3),
        children: vec![
            entry(Some("t3_a"), Some("one")),
            entry(Some("t3_b"), None),
            entry(Some("t3_c"), Some("three")),
        ],
    };
    let (_, cursor) = filter_out_text_posts(&page).unwrap();
    assert_eq!(cursor, "t3_c");
}

#[test]
fn cursor_uses_declared_count_not_length() {
    let page = RawListingPage {
        dist: Some(2),
        children: vec![
            entry(Some("t3_a"), None),
            entry(Some("t3_b"), None),
            entry(Some("t3_c"), None),
        ],
    };
    let (_, cursor) = filter_out_text_posts(&page).unwrap();
    assert_eq!(cursor, "t3_b");
}

#[test]
fn keeps_exactly_the_nonempty_text_posts() {
    let page = RawListingPage {
        dist: Some(4),
        children: vec![
            entry(Some("t3_a"), Some("body a")),
            entry(Some("t3_b"), None),
            entry(Some("t3_c"), Some("")),
            entry(Some("t3_d"), Some("body d")),
        ],
    };
    let (posts, _) = filter_out_text_posts(&page).unwrap();
    let names: Vec<&str> = posts.iter().map(|p| p.name.as_deref().unwrap()).collect();
    assert_eq!(names, vec!["t3_a", "t3_d"]);
}

#[test]
fn order_of_kept_posts_is_preserved() {
    let page = RawListingPage {
        dist: Some(3),
        children: vec![
            entry(Some("t3_z"), Some("z")),
            entry(Some("t3_y"), Some("y")),
            entry(Some("t3_x"), Some("x")),
        ],
    };
    let (posts, _) = filter_out_text_posts(&page).unwrap();
    let names: Vec<&str> = posts.iter().map(|p| p.name.as_deref().unwrap()).collect();
    assert_eq!(names, vec!["t3_z", "t3_y", "t3_x"]);
}

#[test]
fn absent_count_is_rejected() {
    let page = RawListingPage { dist: None, children: vec![entry(Some("t3_a"), None)] };
    assert!(matches!(filter_out_text_posts(&page), Err(PageError::CursorOutOfRange)));
}

#[test]
fn zero_count_is_rejected() {
    let page = RawListingPage { dist: Some(0), children: vec![] };
    assert!(matches!(filter_out_text_posts(&page), Err(PageError::CursorOutOfRange)));
}

#[test]
fn negative_count_is_rejected() {
    let page = RawListingPage { dist: Some(-5), children: vec![entry(Some("t3_a"), None)] };
    assert!(matches!(filter_out_text_posts(&page), Err(PageError::CursorOutOfRange)));
}

#[test]
fn count_beyond_entries_is_rejected() {
    let page = RawListingPage { dist: Some(2), children: vec![entry(Some("t3_a"), None)] };
    assert!(matches!(filter_out_text_posts(&page), Err(PageError::CursorOutOfRange)));
}

#[test]
fn unnamed_cursor_entry_is_rejected() {
    let page = RawListingPage {
        dist: Some(2),
        children: vec![entry(Some("t3_a"), Some("kept")), entry(None, Some("kept too"))],
    };
    assert!(matches!(filter_out_text_posts(&page), Err(PageError::MissingIdentifier)));
}
