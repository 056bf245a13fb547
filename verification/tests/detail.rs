use rusddit::app::{Action, App, Key};
use rusddit::filter::filter_out_text_posts;
use rusddit::post::{Post, RawListingPage};

fn entry(name: Option<&str>, body: &str) -> Post {
    Post {
        name: name.map(|s| s.to_string()),
        title: Some("t".to_string()),
        subreddit: Some("r/x".to_string()),
        selftext: Some(body.to_string()),
    }
}

fn detail_app(names: Vec<Option<&str>>) -> App {
    let mut app = App::new(String::new());
    let n = names.len() as i64;
    let page = RawListingPage {
        dist: Some(n),
        children: names.iter().map(|nm| entry(*nm, "body")).collect(),
    };
    let (posts, cursor) = filter_out_text_posts(&page).unwrap();
    app.apply_listing(posts, cursor, true);
    app.refresh_items();
    app.next();
    assert_eq!(app.index, 1);
    app
}

#[test]
fn down_in_detail_refetches_comments_for_new_selection() {
    let mut app = detail_app(vec![Some("t3_aa"), Some("t3_bb")]);
    let act = app.step(Key::Down);
    assert_eq!(app.items.state.selected(), Some(1));
    match act {
        Action::FetchComments { url } => {
            assert_eq!(url, "https://reddit.com/comments/bb/best.json");
        }
        other => panic!("expected a comment fetch, got {:?}", other),
    }
}

#[test]
fn down_past_end_in_detail_asks_for_page_then_comments() {
    let mut app = detail_app(vec![Some("t3_aa")]);
    let act = app.step(Key::Down);
    match act {
        Action::FetchListing { url, reset_selection, then_comments } => {
            assert_eq!(url, "https://reddit.com/hot.json?limit=100&after=t3_aa");
            assert!(reset_selection);
            assert!(then_comments);
        }
        other => panic!("expected a listing fetch, got {:?}", other),
    }
}

#[test]
fn up_in_detail_wraps_and_refetches_comments() {
    let mut app = detail_app(vec![Some("t3_aa"), Some("t3_bb")]);
    assert_eq!(app.items.state.selected(), Some(0));
    let act = app.step(Key::Up);
    assert_eq!(app.items.state.selected(), Some(1));
    match act {
        Action::FetchComments { url } => {
            assert_eq!(url, "https://reddit.com/comments/bb/best.json");
        }
        other => panic!("expected a comment fetch, got {:?}", other),
    }
}

#[test]
fn unnamed_selection_triggers_no_comment_fetch() {
    let mut app = detail_app(vec![None, Some("t3_bb")]);
    assert_eq!(app.items.state.selected(), Some(0));
    let act = app.step(Key::Char('h'));
    assert!(matches!(act, Action::Idle));
}

#[test]
fn short_identifier_triggers_no_comment_fetch() {
    let mut app = detail_app(vec![Some("t3"), Some("t3_bb")]);
    let act = app.step(Key::Char('b'));
    assert!(matches!(act, Action::Idle));
}

#[test]
fn scroll_keys_follow_the_focused_pane() {
    let mut app = detail_app(vec![Some("t3_aa")]);
    app.step(Key::Char('k'));
    app.step(Key::Char('k'));
    assert_eq!(app.post_scroll, 2);
    assert_eq!(app.comment_scroll, 0);
    app.step(Key::Char('j'));
    assert_eq!(app.post_scroll, 1);

    app.step(Key::Tab);
    assert_eq!(app.current_focus, 1);
    app.step(Key::Char('k'));
    assert_eq!(app.comment_scroll, 1);
    assert_eq!(app.post_scroll, 1);
    app.step(Key::Char('j'));
    app.step(Key::Char('j'));
    assert_eq!(app.comment_scroll, 0);
}
