use omaro::action::Action;
use omaro::app::{App, CoreConfig};
use omaro::data::Post;
use omaro::display::{Popup, Screen, MIN_HEIGHT, MIN_WIDTH};
use omaro::modes::Mode;

fn post(id: &str) -> Post {
    Post {
        short_id: id.to_string(),
        created_at: 0,
        created_offset: 0,
        title: String::new(),
        url: String::new(),
        score: 0,
        comment_count: 0,
        submitter_user: String::new(),
        tags: Vec::new(),
        short_id_url: String::new(),
        comments_url: String::new(),
        is_read: false,
        comments: Vec::new(),
    }
}

fn app() -> App {
    App::new(CoreConfig {
        default_mode: Mode::Hottest(1),
        opening_comments_marks_posts_read: true,
        previewing_comments_marks_posts_read: true,
    })
}

#[test]
fn screen_follows_the_state() {
    let mut app = app();
    assert_eq!(app.screen(80, 24), Screen::Loading);
    assert_eq!(app.screen(MIN_WIDTH, MIN_HEIGHT), Screen::Loading);
    assert_eq!(app.screen(59, 24), Screen::TooSmall);
    assert_eq!(app.screen(80, 19), Screen::TooSmall);

    app.handle_action(Action::LoadPosts(Vec::new()));
    assert_eq!(app.screen(80, 24), Screen::NoResults);

    app.handle_action(Action::LoadPosts(vec![post("a")]));
    assert_eq!(app.screen(80, 24), Screen::Posts);
    assert_eq!(app.screen(10, 10), Screen::TooSmall);

    app.is_loading = true;
    assert_eq!(app.screen(80, 24), Screen::Loading);
}

#[test]
fn popup_follows_the_state() {
    let mut app = app();
    app.handle_action(Action::LoadPosts(vec![post("a"), post("b")]));
    assert!(app.popup_in_bounds());
    assert_eq!(app.popup(), Popup::Nothing);

    app.show_details_popup = true;
    app.posts_list_state.selected = Some(1);
    assert_eq!(app.popup(), Popup::Details(1));

    app.show_keybinds_popup = true;
    assert_eq!(app.popup(), Popup::Keybinds);

    app.show_keybinds_popup = false;
    app.posts_list_state.selected = None;
    assert_eq!(app.popup(), Popup::Nothing);

    app.posts_list_state.selected = Some(2);
    assert!(!app.popup_in_bounds());
    app.show_keybinds_popup = true;
    assert!(app.popup_in_bounds());
}
