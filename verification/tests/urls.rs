use rusddit::url::{SortMode, comments_url, listing_url};

#[test]
fn front_page_url_omits_separator() {
    let url = listing_url("", false, SortMode::Hot, "");
    assert_eq!(url, "https://reddit.com/hot.json?limit=100");
}

#[test]
fn subreddit_url_has_one_separator() {
    let url = listing_url("r/rust", false, SortMode::Hot, "");
    assert_eq!(url, "https://reddit.com/r/rust/hot.json?limit=100");
}

#[test]
fn paginated_url_appends_cursor() {
    let url = listing_url("r/rust", true, SortMode::Best, "t3_abc");
    assert_eq!(url, "https://reddit.com/r/rust/best.json?limit=100&after=t3_abc");
}

#[test]
fn sort_mode_names_all_segments() {
    assert_eq!(listing_url("", false, SortMode::Best, ""), "https://reddit.com/best.json?limit=100");
    assert_eq!(
        listing_url("", false, SortMode::Controversial, ""),
        "https://reddit.com/controversial.json?limit=100"
    );
}

#[test]
fn comments_url_strips_type_prefix() {
    let url = comments_url("t3_xyz9", SortMode::Best).unwrap();
    assert_eq!(url, "https://reddit.com/comments/xyz9/best.json");
}

#[test]
fn comments_url_rejects_short_identifier() {
    assert!(comments_url("t3", SortMode::Hot).is_none());
    assert!(comments_url("", SortMode::Hot).is_none());
}

#[test]
fn comments_url_of_bare_prefix_is_empty_suffix() {
    let url = comments_url("t3_", SortMode::Hot).unwrap();
    assert_eq!(url, "https://reddit.com/comments//hot.json");
}
