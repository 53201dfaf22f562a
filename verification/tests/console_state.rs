use megagame::console::{Action, App, AppReturn, AppState, IoEvent};

fn db() -> sea_orm::DatabaseConnection {
    sea_orm::DatabaseConnection::Disconnected
}

fn with_books(n: usize, selected: Option<usize>) -> AppState {
    AppState::Initialized {
        duration: 1,
        counter_sleep: 0,
        counter_tick: 0,
        db: db(),
        books: (0..n as i32).collect(),
        selected_book: selected,
    }
}

fn selected(s: &AppState) -> Option<usize> {
    match s {
        AppState::Initialized { selected_book, .. } => *selected_book,
        AppState::Init => panic!("not initialized"),
    }
}

#[test]
fn state_before_initialization_has_nothing() {
    let mut s = AppState::default();
    assert!(!s.is_initialized());
    assert_eq!(s.count_sleep(), None);
    assert_eq!(s.count_tick(), None);
    assert_eq!(s.duration(), None);
    assert!(s.books().is_none());
    s.incr_tick();
    s.incr_sleep();
    s.increment_delay();
    s.next_book();
    assert!(matches!(s, AppState::Init));
}

#[test]
fn initialized_state_starts_at_one_second() {
    let mut s = AppState::initialized(db());
    assert!(s.is_initialized());
    assert_eq!(s.duration(), Some(1));
    assert_eq!(s.count_sleep(), Some(0));
    assert_eq!(s.count_tick(), Some(0));
    assert_eq!(s.books().map(|b| b.len()), Some(0));
    s.incr_sleep();
    s.incr_tick();
    s.incr_tick();
    assert_eq!(s.count_sleep(), Some(1));
    assert_eq!(s.count_tick(), Some(2));
}

#[test]
fn delay_stays_between_one_and_ten_seconds() {
    let mut s = AppState::initialized(db());
    s.decrement_delay();
    assert_eq!(s.duration(), Some(1));
    for _ in 0..20 {
        s.increment_delay();
    }
    assert_eq!(s.duration(), Some(10));
    s.decrement_delay();
    assert_eq!(s.duration(), Some(9));
}

#[test]
fn next_book_cycles_through_the_books() {
    let mut s = with_books(3, None);
    s.next_book();
    assert_eq!(selected(&s), Some(1));
    s.next_book();
    assert_eq!(selected(&s), Some(2));
    s.next_book();
    assert_eq!(selected(&s), Some(0));
}

#[test]
fn previous_book_cycles_backwards() {
    let mut s = with_books(3, Some(0));
    s.previous_book();
    assert_eq!(selected(&s), Some(2));
    s.previous_book();
    assert_eq!(selected(&s), Some(1));
}

#[test]
fn next_then_previous_gives_back_the_selection() {
    for start in 0..4 {
        let mut s = with_books(4, Some(start));
        s.next_book();
        s.previous_book();
        assert_eq!(selected(&s), Some(start));
    }
}

#[test]
fn previous_book_without_books_wraps_past_the_start() {
    let mut s = with_books(0, None);
    s.previous_book();
    assert_eq!(selected(&s), Some(usize::MAX));
    let mut s = with_books(0, None);
    s.next_book();
    assert_eq!(selected(&s), Some(0));
}

#[test]
fn app_quits_refreshes_and_moves() {
    let mut app = App::new();
    assert_eq!(app.actions().actions, vec![Action::Quit]);
    assert!(!app.is_loading());
    assert!(matches!(app.state(), AppState::Init));
    let out = app.do_action(Some(Action::Quit));
    assert_eq!(out.app_return, AppReturn::Exit);
    app.initialized(db());
    assert_eq!(app.actions().actions, vec![Action::Quit, Action::Refresh, Action::PreviousBook, Action::NextBook]);
    let out = app.do_action(Some(Action::Refresh));
    assert_eq!(out.app_return, AppReturn::Continue);
    assert_eq!(out.dispatch, Some(IoEvent::GetBooks));
    assert!(app.is_loading());
    app.dispatch_sent(true);
    assert!(app.is_loading());
    app.loaded();
    assert!(!app.is_loading());
    app.dispatch(IoEvent::GetBooks);
    app.dispatch_sent(false);
    assert!(!app.is_loading());
    let out = app.do_action(None);
    assert_eq!(out.app_return, AppReturn::Continue);
    assert_eq!(out.dispatch, None);
    assert_eq!(app.update_on_tick(), AppReturn::Continue);
    app.slept();
    assert_eq!(app.state().count_tick(), Some(1));
    assert_eq!(app.state().count_sleep(), Some(1));
    app.state_mut().increment_delay();
    assert_eq!(app.state().duration(), Some(2));
    let out = app.do_action(Some(Action::NextBook));
    assert_eq!(out.app_return, AppReturn::Continue);
    assert_eq!(selected(app.state()), Some(0));
}
