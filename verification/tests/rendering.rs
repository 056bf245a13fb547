use rusddit::app::App;
use rusddit::post::{Comment, Post};
use rusddit::render::{comments_text, detail_body, detail_subreddit, detail_title, listing_body, post_line};

fn post(title: Option<&str>, subreddit: Option<&str>, selftext: Option<&str>) -> Post {
    Post {
        name: Some("t3_x".to_string()),
        title: title.map(|s| s.to_string()),
        subreddit: subreddit.map(|s| s.to_string()),
        selftext: selftext.map(|s| s.to_string()),
    }
}

#[test]
fn post_line_joins_subreddit_and_title() {
    let p = post(Some("a title"), Some("r/rust"), None);
    assert_eq!(post_line(&p), "r/rusta title");
    let bare = post(None, None, None);
    assert_eq!(post_line(&bare), "");
}

#[test]
fn listing_body_shows_text_or_placeholder() {
    assert_eq!(listing_body(&post(None, None, Some("hello"))), "hello");
    assert_eq!(listing_body(&post(None, None, Some(""))), "Not a text post");
    assert_eq!(listing_body(&post(None, None, None)), "Not a text post");
}

#[test]
fn detail_texts_fall_back_to_placeholders() {
    let p = post(None, None, None);
    assert_eq!(detail_title(&p), "Post");
    assert_eq!(detail_subreddit(&p), "Post");
    assert_eq!(detail_body(&p), "Not a text post");
    let q = post(Some("t"), Some("r/a"), Some(""));
    assert_eq!(detail_title(&q), "t");
    assert_eq!(detail_subreddit(&q), "r/a");
    assert_eq!(detail_body(&q), "");
}

#[test]
fn comments_text_joins_author_and_body_lines() {
    let cs = vec![
        Comment { author: Some("alice".to_string()), body: Some("first".to_string()) },
        Comment { author: None, body: Some("second".to_string()) },
        Comment { author: Some("bob".to_string()), body: None },
    ];
    assert_eq!(comments_text(&cs), "u/alice | first\nu/ | second\nu/bob | \n");
    assert_eq!(comments_text(&Vec::new()), "");
}

#[test]
fn refresh_items_builds_one_line_per_post() {
    let mut app = App::new(String::new());
    app.posts = vec![
        post(Some("one"), Some("r/a"), Some("x")),
        post(Some("two"), None, None),
    ];
    app.refresh_items();
    assert_eq!(app.items.items.len(), 2);
    assert_eq!(app.items.items[0], ("r/aone".to_string(), 0));
    assert_eq!(app.items.items[1], ("two".to_string(), 1));
    assert_eq!(app.items.state.selected(), Some(0));
}
