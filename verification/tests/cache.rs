use omaro::cache::PageCache;
use omaro::data::Post;
use omaro::modes::Mode;

fn post(id: &str) -> Post {
    Post {
        short_id: id.to_string(),
        created_at: 1_700_000_000,
        created_offset: 0,
        title: format!("Title of {id}"),
        url: format!("https://example.com/{id}"),
        score: 1,
        comment_count: 0,
        submitter_user: "user".to_string(),
        tags: vec!["tag".to_string()],
        short_id_url: format!("https://lobste.rs/s/{id}"),
        comments_url: format!("https://lobste.rs/s/{id}/title"),
        is_read: false,
        comments: Vec::new(),
    }
}

fn ids(posts: &[Post]) -> Vec<&str> {
    posts.iter().map(|p| p.short_id.as_str()).collect()
}

#[test]
fn new_cache_is_empty() {
    let cache = PageCache::new();
    assert!(cache.posts.is_empty());
    assert!(cache.pages.is_empty());
}

#[test]
fn load_unseen_page_finds_no_data() {
    let mut cache = PageCache::new();
    cache.posts = vec![post("a"), post("b")];

    assert!(!cache.load_page(0, 1));
    assert!(cache.posts.is_empty());
    assert_eq!(cache.pages.len(), 2);
    assert_eq!(ids(&cache.pages[0]), ["a", "b"]);
    assert!(cache.pages[1].is_empty());
}

#[test]
fn load_page_fills_the_gap_with_empty_pages() {
    let mut cache = PageCache::new();
    cache.posts = vec![post("a")];

    assert!(!cache.load_page(0, 4));
    assert_eq!(cache.pages.len(), 5);
    assert_eq!(ids(&cache.pages[0]), ["a"]);
    assert!(cache.pages[1..].iter().all(|p| p.is_empty()));
}

#[test]
fn reloading_a_page_returns_the_stored_list() {
    let mut cache = PageCache::new();
    cache.posts = vec![post("a"), post("b")];

    // Page 1 was never seen
    assert!(!cache.load_page(0, 1));
    // Its listing arrives
    cache.posts = vec![post("c"), post("d"), post("e")];
    // It is left for page 0 ...
    assert!(cache.load_page(1, 0));
    assert_eq!(ids(&cache.posts), ["a", "b"]);
    // ... and comes back unchanged
    assert!(cache.load_page(0, 1));
    assert_eq!(ids(&cache.posts), ["c", "d", "e"]);
    assert!(cache.pages[1].is_empty());
    assert_eq!(ids(&cache.pages[0]), ["a", "b"]);
}

#[test]
fn load_page_onto_itself_changes_nothing() {
    let mut cache = PageCache::new();
    cache.posts = vec![post("a")];
    assert!(cache.load_page(0, 0));
    assert_eq!(ids(&cache.posts), ["a"]);
    assert_eq!(cache.pages.len(), 1);
    assert!(cache.pages[0].is_empty());
}

#[test]
fn store_then_load_mode_round_trip() {
    let mode = Mode::Hottest(1);
    let mut cache = PageCache::new();
    cache.posts = vec![post("a"), post("b")];

    cache.store_mode(&mode);
    assert!(cache.posts.is_empty());
    assert!(cache.pages.is_empty());

    assert!(cache.load_mode(&mode));
    assert_eq!(ids(&cache.posts), ["a", "b"]);
    assert_eq!(cache.pages.len(), 1);
    assert!(cache.pages[0].is_empty());
}

#[test]
fn store_then_load_mode_round_trip_with_empty_list() {
    let mode = Mode::Newest(1);
    let mut cache = PageCache::new();

    cache.store_mode(&mode);
    assert!(!cache.load_mode(&mode));
    assert!(cache.posts.is_empty());
    assert_eq!(cache.pages.len(), 1);
}

#[test]
fn store_then_load_mode_round_trip_on_a_later_page() {
    let mode = Mode::Active(3);
    let mut cache = PageCache::new();
    cache.posts = vec![post("first")];
    assert!(!cache.load_page(0, 1));
    cache.posts = vec![post("second")];
    assert!(!cache.load_page(1, 2));
    cache.posts = vec![post("third-a"), post("third-b")];

    cache.store_mode(&mode);
    assert!(cache.load_mode(&mode));
    assert_eq!(ids(&cache.posts), ["third-a", "third-b"]);
    assert_eq!(ids(&cache.pages[0]), ["first"]);
    assert_eq!(ids(&cache.pages[1]), ["second"]);
    assert!(cache.pages[2].is_empty());
}

#[test]
fn store_mode_on_a_page_without_slot_fills_the_gap() {
    let mode = Mode::Active(3);
    let mut cache = PageCache::new();
    cache.posts = vec![post("x")];

    cache.store_mode(&mode);
    assert!(cache.load_mode(&mode));
    assert_eq!(ids(&cache.posts), ["x"]);
    assert_eq!(cache.pages.len(), 3);
}

#[test]
fn load_mode_that_was_never_stored_changes_nothing() {
    let mut cache = PageCache::new();
    cache.posts = vec![post("a")];
    cache.pages = vec![Vec::new(), vec![post("b")]];

    assert!(!cache.load_mode(&Mode::Newest(1)));
    assert_eq!(ids(&cache.posts), ["a"]);
    assert_eq!(cache.pages.len(), 2);
    assert_eq!(ids(&cache.pages[1]), ["b"]);
}

#[test]
fn modes_are_stored_apart() {
    let hottest = Mode::Hottest(1);
    let newest = Mode::Newest(1);
    let mut cache = PageCache::new();

    cache.posts = vec![post("h1"), post("h2")];
    cache.store_mode(&hottest);
    assert!(!cache.load_mode(&newest));

    cache.posts = vec![post("n1")];
    cache.store_mode(&newest);
    assert!(cache.load_mode(&hottest));
    assert_eq!(ids(&cache.posts), ["h1", "h2"]);

    cache.store_mode(&hottest);
    assert!(cache.load_mode(&newest));
    assert_eq!(ids(&cache.posts), ["n1"]);
}

#[test]
fn load_mode_takes_the_page_of_the_mode() {
    // Stored while on page 2; taken up again on page 1
    let mut cache = PageCache::new();
    cache.posts = vec![post("first")];
    assert!(!cache.load_page(0, 1));
    cache.posts = vec![post("second")];
    cache.store_mode(&Mode::Hottest(2));

    assert!(cache.load_mode(&Mode::Hottest(1)));
    assert_eq!(ids(&cache.posts), ["first"]);
    assert_eq!(ids(&cache.pages[1]), ["second"]);
}

#[test]
fn load_mode_leaves_the_current_pages_under_the_name() {
    let mode = Mode::Hottest(1);
    let mut cache = PageCache::new();
    cache.posts = vec![post("a")];
    cache.store_mode(&mode);

    // Pages that are current when the mode is taken up go under its name
    cache.pages = vec![vec![post("left")]];
    assert!(cache.load_mode(&mode));
    assert_eq!(ids(&cache.posts), ["a"]);

    cache.posts = Vec::new();
    cache.pages = Vec::new();
    assert!(cache.load_mode(&mode));
    assert_eq!(ids(&cache.posts), ["left"]);
}
