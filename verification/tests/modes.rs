use omaro::modes::{Mode, ModeError, STARTING_PAGE};

#[test]
fn mode_page_limits() {
    let start = STARTING_PAGE - 1;
    let get_page = |m: &Mode| m.get_page() as u8;

    let mut mode = Mode::default();
    assert_eq!(get_page(&mode), start);

    assert!(!mode.prev_page());
    assert_eq!(get_page(&mode), start);

    let mut page = start;
    for _ in 1..u8::MAX {
        page += 1;
        assert!(mode.next_page());
        assert_eq!(get_page(&mode), page);
    }

    assert!(!mode.next_page());
    assert_eq!(get_page(&mode), u8::MAX - 1);
}

#[test]
fn changing_mode_resets_page() {
    let mut mode = Mode::default();
    assert!(matches!(mode, Mode::Hottest(STARTING_PAGE)));
    assert!(mode.next_page());

    mode.next_mode();
    assert_eq!(mode, Mode::Newest(STARTING_PAGE));
    assert!(mode.next_page());

    mode.next_mode();
    assert_eq!(mode, Mode::Active(STARTING_PAGE));
    assert!(mode.next_page());

    mode.next_mode();
    assert_eq!(mode, Mode::default());
    assert!(mode.next_page());

    mode.prev_mode();
    assert_eq!(mode, Mode::Active(STARTING_PAGE));
    assert!(mode.next_page());

    mode.prev_mode();
    assert_eq!(mode, Mode::Newest(STARTING_PAGE));
    assert!(mode.next_page());

    mode.prev_mode();
    assert_eq!(mode, Mode::default());
    assert!(mode.next_page());
}

#[test]
fn cycling_forward_three_times_returns() {
    for start in [Mode::Hottest(7), Mode::Newest(1), Mode::Active(255)] {
        let mut mode = start;
        mode.next_mode();
        assert_eq!(mode.get_page(), 0);
        mode.next_mode();
        assert_eq!(mode.get_page(), 0);
        mode.next_mode();
        assert_eq!(mode, start.with_page(STARTING_PAGE));
    }
}

#[test]
fn next_then_previous_page_restores() {
    for page in 1..u8::MAX {
        let mut mode = Mode::Active(page);
        assert!(mode.next_page());
        assert_eq!(mode, Mode::Active(page + 1));
        assert!(mode.prev_page());
        assert_eq!(mode, Mode::Active(page));
    }
    let mut last = Mode::Newest(u8::MAX);
    assert!(!last.next_page());
    assert_eq!(last, Mode::Newest(u8::MAX));
}

#[test]
fn urls_name_the_listing_and_the_page() {
    assert_eq!(Mode::Hottest(1).get_url(), "https://lobste.rs/page/1.json");
    assert_eq!(Mode::Newest(12).get_url(), "https://lobste.rs/newest/page/12.json");
    assert_eq!(Mode::Active(255).get_url(), "https://lobste.rs/active/page/255.json");
}

#[test]
fn names_and_parsing() {
    assert_eq!(Mode::Hottest(3).name(), "Hottest");
    assert_eq!(Mode::Newest(3).name(), "Newest");
    assert_eq!(Mode::Active(3).name(), "Active");

    assert_eq!(Mode::from_lowered("newest"), Ok(Mode::Newest(STARTING_PAGE)));
    assert_eq!(Mode::from_lowered("hottest"), Ok(Mode::Hottest(STARTING_PAGE)));
    assert_eq!(Mode::from_lowered("active"), Ok(Mode::Active(STARTING_PAGE)));
    assert_eq!(Mode::from_lowered("Newest"), Err(ModeError::NotAMode));
    assert_eq!(Mode::from_lowered(""), Err(ModeError::NotAMode));
}

#[test]
fn parsing_ignores_case() {
    assert_eq!(Mode::from_str("Newest"), Ok(Mode::Newest(STARTING_PAGE)));
    assert_eq!(Mode::from_str("HOTTEST"), Ok(Mode::Hottest(STARTING_PAGE)));
    assert_eq!(Mode::from_str("aCtIvE"), Ok(Mode::Active(STARTING_PAGE)));
    assert_eq!(Mode::from_str("active"), Ok(Mode::Active(STARTING_PAGE)));
    assert_eq!(Mode::from_str("actives"), Err(ModeError::NotAMode));
    assert_eq!(Mode::from_str(" newest"), Err(ModeError::NotAMode));
    assert_eq!(Mode::from_str(""), Err(ModeError::NotAMode));
}
