//! The state of the bot's console: counters, a refresh delay, and a list of
//! books with a selection that cycles through it.
use vstd::prelude::*;

verus! {

/// The connection to the game's database that the console keeps.
#[verifier::external_type_specification]
#[verifier::external_body]
pub struct ExDatabaseConnection(sea_orm::DatabaseConnection);

/// What the console loop does after handling an input.
#[derive(Clone, Copy, Debug, PartialEq, Eq, Structural)]
pub enum AppReturn {
    Exit,
    Continue,
}

/// The console's state: nothing before initialization; afterwards, the
/// refresh delay in whole seconds, two counters, the database connection,
/// the books and the selected one.
pub enum AppState {
    Init,
    Initialized {
        duration: u64,
        counter_sleep: u32,
        counter_tick: u64,
        db: sea_orm::DatabaseConnection,
        books: Vec<i32>,
        selected_book: Option<usize>,
    },
}

/// The delay that `increment_delay` and `decrement_delay` keep: `secs`
/// brought into 1..=10.
pub open spec fn clamp_delay(secs: int) -> u64 {
    if secs < 1 {
        1
    } else if secs > 10 {
        10
    } else {
        secs as u64
    }
}

/// The selection after moving to the next book: one past the current one
/// (the first when none is selected), wrapping to the first past the end.
/// Positions are counted as `i32`, as the console does.
pub open spec fn next_book_position(selected: Option<usize>, len: usize) -> usize {
    let pos = (selected.unwrap_or(0) as i32) + 1;
    if pos >= (len as i32) {
        0
    } else {
        pos as usize
    }
}

/// The selection after moving to the previous book: one before the current
/// one (the first when none is selected), wrapping to the last before the
/// start. Positions are counted as `i32`, as the console does.
pub open spec fn previous_book_position(selected: Option<usize>, len: usize) -> usize {
    let pos = (selected.unwrap_or(0) as i32) - 1;
    if pos < 0 {
        (((len as i32) - 1) as i32) as usize
    } else {
        pos as usize
    }
}

/// The state after moving to the next book: only the selection moves.
pub open spec fn after_next_book(s: AppState) -> AppState {
    match s {
        AppState::Init => AppState::Init,
        AppState::Initialized { duration, counter_sleep, counter_tick, db, books, selected_book } =>
            AppState::Initialized {
            duration,
            counter_sleep,
            counter_tick,
            db,
            books,
            selected_book: Some(next_book_position(selected_book, books.len())),
        },
    }
}

/// The state after moving to the previous book: only the selection moves.
pub open spec fn after_previous_book(s: AppState) -> AppState {
    match s {
        AppState::Init => AppState::Init,
        AppState::Initialized { duration, counter_sleep, counter_tick, db, books, selected_book } =>
            AppState::Initialized {
            duration,
            counter_sleep,
            counter_tick,
            db,
            books,
            selected_book: Some(previous_book_position(selected_book, books.len())),
        },
    }
}

/// The state after one more tick: only the tick counter goes up.
pub open spec fn after_tick(s: AppState) -> AppState {
    match s {
        AppState::Init => AppState::Init,
        AppState::Initialized { duration, counter_sleep, counter_tick, db, books, selected_book } =>
            AppState::Initialized {
            duration,
            counter_sleep,
            counter_tick: (counter_tick + 1) as u64,
            db,
            books,
            selected_book,
        },
    }
}

/// The state after one more sleep: only the sleep counter goes up.
pub open spec fn after_sleep(s: AppState) -> AppState {
    match s {
        AppState::Init => AppState::Init,
        AppState::Initialized { duration, counter_sleep, counter_tick, db, books, selected_book } =>
            AppState::Initialized {
            duration,
            counter_sleep: (counter_sleep + 1) as u32,
            counter_tick,
            db,
            books,
            selected_book,
        },
    }
}

impl AppState {
    pub open spec fn is_init(&self) -> bool {
        self is Init
    }

    /// The state right after initialization: a delay of one second, both
    /// counters at zero, no books and no selection.
    pub fn initialized(db: sea_orm::DatabaseConnection) -> (r: Self)
        ensures
            r matches AppState::Initialized {
                duration,
                counter_sleep,
                counter_tick,
                db: d,
                books,
                selected_book,
            } && duration == 1 && counter_sleep == 0 && counter_tick == 0 && d == db
                && books@.len() == 0 && selected_book is None,
    {
        AppState::Initialized {
            duration: 1,
            counter_sleep: 0,
            counter_tick: 0,
            db,
            books: Vec::new(),
            selected_book: None,
        }
    }

    pub fn is_initialized(&self) -> (r: bool)
        ensures
            r == (self is Initialized),
    {
        match self {
            AppState::Initialized { .. } => true,
            AppState::Init => false,
        }
    }

    /// Counts one more sleep of the console loop.
    pub fn incr_sleep(&mut self)
        requires
            *old(self) matches AppState::Initialized { counter_sleep, .. } ==> counter_sleep
                < u32::MAX,
        ensures
            match *old(self) {
                AppState::Init => *final(self) == AppState::Init,
                AppState::Initialized {
                    duration,
                    counter_sleep,
                    counter_tick,
                    db,
                    books,
                    selected_book,
                } => *final(self) == (AppState::Initialized {
                    duration,
                    counter_sleep: (counter_sleep + 1) as u32,
                    counter_tick,
                    db,
                    books,
                    selected_book,
                }),
            },
    {
        if let AppState::Initialized { counter_sleep, .. } = self {
            *counter_sleep = *counter_sleep + 1;
        }
    }

    /// Counts one more tick of the console loop.
    pub fn incr_tick(&mut self)
        requires
            *old(self) matches AppState::Initialized { counter_tick, .. } ==> counter_tick
                < u64::MAX,
        ensures
            match *old(self) {
                AppState::Init => *final(self) == AppState::Init,
                AppState::Initialized {
                    duration,
                    counter_sleep,
                    counter_tick,
                    db,
                    books,
                    selected_book,
                } => *final(self) == (AppState::Initialized {
                    duration,
                    counter_sleep,
                    counter_tick: (counter_tick + 1) as u64,
                    db,
                    books,
                    selected_book,
                }),
            },
    {
        if let AppState::Initialized { counter_tick, .. } = self {
            *counter_tick = *counter_tick + 1;
        }
    }

    pub fn count_sleep(&self) -> (r: Option<u32>)
        ensures
            r == (match *self {
                AppState::Initialized { counter_sleep, .. } => Some(counter_sleep),
                AppState::Init => None,
            }),
    {
        if let AppState::Initialized { counter_sleep, .. } = self {
            Some(*counter_sleep)
        } else {
            None
        }
    }

    pub fn count_tick(&self) -> (r: Option<u64>)
        ensures
            r == (match *self {
                AppState::Initialized { counter_tick, .. } => Some(counter_tick),
                AppState::Init => None,
            }),
    {
        if let AppState::Initialized { counter_tick, .. } = self {
            Some(*counter_tick)
        } else {
            None
        }
    }

    /// The refresh delay, in whole seconds.
    pub fn duration(&self) -> (r: Option<u64>)
        ensures
            r == (match *self {
                AppState::Initialized { duration, .. } => Some(duration),
                AppState::Init => None,
            }),
    {
        if let AppState::Initialized { duration, .. } = self {
            Some(*duration)
        } else {
            None
        }
    }

    /// Lengthens the refresh delay by a second, within 1..=10 seconds.
    pub fn increment_delay(&mut self)
        requires
            *old(self) matches AppState::Initialized { duration, .. } ==> duration < u64::MAX,
        ensures
            match *old(self) {
                AppState::Init => *final(self) == AppState::Init,
                AppState::Initialized {
                    duration,
                    counter_sleep,
                    counter_tick,
                    db,
                    books,
                    selected_book,
                } => *final(self) == (AppState::Initialized {
                    duration: clamp_delay(duration + 1),
                    counter_sleep,
                    counter_tick,
                    db,
                    books,
                    selected_book,
                }),
            },
    {
        if let AppState::Initialized { duration, .. } = self {
            let secs = *duration + 1;
            *duration = if secs < 1 {
                1
            } else if secs > 10 {
                10
            } else {
                secs
            };
        }
    }

    /// Shortens the refresh delay by a second, within 1..=10 seconds.
    pub fn decrement_delay(&mut self)
        requires
            *old(self) matches AppState::Initialized { duration, .. } ==> duration > 0,
        ensures
            match *old(self) {
                AppState::Init => *final(self) == AppState::Init,
                AppState::Initialized {
                    duration,
                    counter_sleep,
                    counter_tick,
                    db,
                    books,
                    selected_book,
                } => *final(self) == (AppState::Initialized {
                    duration: clamp_delay(duration - 1),
                    counter_sleep,
                    counter_tick,
                    db,
                    books,
                    selected_book,
                }),
            },
    {
        if let AppState::Initialized { duration, .. } = self {
            let secs = *duration - 1;
            *duration = if secs < 1 {
                1
            } else if secs > 10 {
                10
            } else {
                secs
            };
        }
    }

    pub fn books(&self) -> (r: Option<&Vec<i32>>)
        ensures
            match *self {
                AppState::Initialized { books, .. } => r is Some && r->0@ == books@,
                AppState::Init => r is None,
            },
    {
        if let AppState::Initialized { books, .. } = self {
            Some(books)
        } else {
            None
        }
    }

    /// Selects the next book, wrapping to the first.
    pub fn next_book(&mut self)
        requires
            *old(self) matches AppState::Initialized { selected_book, .. } ==> (
            selected_book.unwrap_or(0) as i32) < i32::MAX,
        ensures
            match *old(self) {
                AppState::Init => *final(self) == AppState::Init,
                AppState::Initialized {
                    duration,
                    counter_sleep,
                    counter_tick,
                    db,
                    books,
                    selected_book,
                } => *final(self) == (AppState::Initialized {
                    duration,
                    counter_sleep,
                    counter_tick,
                    db,
                    books,
                    selected_book: Some(next_book_position(selected_book, books.len())),
                }),
            },
    {
        if let AppState::Initialized { selected_book, books, .. } = self {
            let current: usize = match *selected_book {
                Some(p) => p,
                None => 0,
            };
            let mut new_pos: i32 = current as i32 + 1;
            if new_pos >= books.len() as i32 {
                new_pos = 0;
            }
            *selected_book = Some(new_pos as usize);
        }
    }

    /// Selects the previous book, wrapping to the last.
    pub fn previous_book(&mut self)
        requires
            *old(self) matches AppState::Initialized { selected_book, books, .. } ==> (
            selected_book.unwrap_or(0) as i32) > i32::MIN && ((selected_book.unwrap_or(0) as i32)
                - 1 < 0 ==> (books.len() as i32) > i32::MIN),
        ensures
            match *old(self) {
                AppState::Init => *final(self) == AppState::Init,
                AppState::Initialized {
                    duration,
                    counter_sleep,
                    counter_tick,
                    db,
                    books,
                    selected_book,
                } => *final(self) == (AppState::Initialized {
                    duration,
                    counter_sleep,
                    counter_tick,
                    db,
                    books,
                    selected_book: Some(previous_book_position(selected_book, books.len())),
                }),
            },
    {
        if let AppState::Initialized { selected_book, books, .. } = self {
            let current: usize = match *selected_book {
                Some(p) => p,
                None => 0,
            };
            let mut new_pos: i32 = current as i32 - 1;
            if new_pos < 0 {
                new_pos = books.len() as i32 - 1;
            }
            *selected_book = Some(new_pos as usize);
        }
    }
}

/// The refresh delay is always within 1..=10 seconds after it is lengthened
/// or shortened, whatever it was before; within that range each step moves it
/// by one second, so lengthening then shortening gives back a delay under 10
/// seconds, and shortening then lengthening gives back one over 1 second.
pub proof fn lemma_delay_in_range(secs: int)
    ensures
        1 <= clamp_delay(secs) <= 10,
        1 <= secs < 10 ==> clamp_delay(secs + 1) == secs + 1,
        1 < secs <= 10 ==> clamp_delay(secs - 1) == secs - 1,
        1 <= secs < 10 ==> clamp_delay(clamp_delay(secs + 1) - 1) == secs,
        1 < secs <= 10 ==> clamp_delay(clamp_delay(secs - 1) + 1) == secs,
{
}

/// Moving to the next book and then to the previous one gives back the book
/// that was selected, when the selection is within the list and the list's
/// length fits in an `i32`; and so does moving back and then forward.
pub proof fn lemma_next_previous_book(selected: usize, len: usize)
    requires
        selected < len,
        len <= i32::MAX,
    ensures
        next_book_position(Some(selected), len) < len,
        previous_book_position(Some(selected), len) < len,
        previous_book_position(Some(next_book_position(Some(selected), len)), len) == selected,
        next_book_position(Some(previous_book_position(Some(selected), len)), len) == selected,
{
    assert((selected as i32) as int == selected as int);
    assert((len as i32) as int == len as int);
    let n = next_book_position(Some(selected), len);
    let p = previous_book_position(Some(selected), len);
    assert((n as i32) as int == n as int);
    assert((p as i32) as int == p as int);
}

impl Default for AppState {
    fn default() -> (r: Self)
        ensures
            r is Init,
    {
        AppState::Init
    }
}

} // verus!

verus! {

/// What a key of the console can ask for.
#[derive(Clone, Copy, Debug, PartialEq, Eq, Structural)]
pub enum Action {
    Quit,
    Refresh,
    PreviousBook,
    NextBook,
}

/// The actions that the console offers at a given time.
#[derive(Debug)]
pub struct Actions {
    pub actions: Vec<Action>,
}

/// Work that the console hands to its input/output loop.
#[derive(Clone, Copy, Debug, PartialEq, Eq, Structural)]
pub enum IoEvent {
    GetBooks,
}

/// The console application: its actions, whether it waits on its
/// input/output loop, and its state.
pub struct App {
    pub actions: Actions,
    pub is_loading: bool,
    pub state: AppState,
}

/// What handling an action gives: whether to go on, and the work to hand to
/// the input/output loop, if any.
#[derive(Debug)]
pub struct ActionOutcome {
    pub app_return: AppReturn,
    pub dispatch: Option<IoEvent>,
}

impl App {
    /// The console before initialization: only Quit is offered.
    pub fn new() -> (r: App)
        ensures
            r.actions.actions@ == seq![Action::Quit],
            !r.is_loading,
            r.state is Init,
    {
        let mut actions: Vec<Action> = Vec::new();
        actions.push(Action::Quit);
        App { actions: Actions { actions }, is_loading: false, state: AppState::Init }
    }

    /// Handles the action that the pressed key is bound to, if any: Quit
    /// exits; Refresh hands the loading of the books to the input/output loop;
    /// Previous and Next move the selection of books.
    pub fn do_action(&mut self, action: Option<Action>) -> (r: ActionOutcome)
        requires
            action == Some(Action::PreviousBook) ==> (old(self).state matches AppState::Initialized {
                selected_book,
                books,
                ..
            } ==> (selected_book.unwrap_or(0) as i32) > i32::MIN && ((selected_book.unwrap_or(0)
                as i32) - 1 < 0 ==> (books.len() as i32) > i32::MIN)),
            action == Some(Action::NextBook) ==> (old(self).state matches AppState::Initialized {
                selected_book,
                ..
            } ==> (selected_book.unwrap_or(0) as i32) < i32::MAX),
        ensures
            final(self).actions == old(self).actions,
            match action {
                Some(Action::Quit) => r.app_return == AppReturn::Exit && r.dispatch is None
                    && *final(self) == *old(self),
                Some(Action::Refresh) => r.app_return == AppReturn::Continue && r.dispatch
                    == Some(IoEvent::GetBooks) && final(self).is_loading && final(self).state
                    == old(self).state,
                Some(Action::PreviousBook) => r.app_return == AppReturn::Continue && r.dispatch
                    is None && *final(self) == (App {
                    state: after_previous_book(old(self).state),
                    ..*old(self)
                }),
                Some(Action::NextBook) => r.app_return == AppReturn::Continue && r.dispatch
                    is None && *final(self) == (App {
                    state: after_next_book(old(self).state),
                    ..*old(self)
                }),
                None => r.app_return == AppReturn::Continue && r.dispatch is None && *final(self)
                    == *old(self),
            },
    {
        match action {
            Some(Action::Quit) => ActionOutcome { app_return: AppReturn::Exit, dispatch: None },
            Some(Action::Refresh) => {
                let event = self.dispatch(IoEvent::GetBooks);
                ActionOutcome { app_return: AppReturn::Continue, dispatch: Some(event) }
            },
            Some(Action::PreviousBook) => {
                self.state.previous_book();
                ActionOutcome { app_return: AppReturn::Continue, dispatch: None }
            },
            Some(Action::NextBook) => {
                self.state.next_book();
                ActionOutcome { app_return: AppReturn::Continue, dispatch: None }
            },
            None => ActionOutcome { app_return: AppReturn::Continue, dispatch: None },
        }
    }

    /// A tick of the console loop: the tick counter goes up.
    pub fn update_on_tick(&mut self) -> (r: AppReturn)
        requires
            old(self).state matches AppState::Initialized { counter_tick, .. } ==> counter_tick
                < u64::MAX,
        ensures
            r == AppReturn::Continue,
            *final(self) == (App { state: after_tick(old(self).state), ..*old(self) }),
    {
        self.state.incr_tick();
        AppReturn::Continue
    }

    /// Hands work to the input/output loop: the console waits until it is
    /// done. Returns the work to send.
    pub fn dispatch(&mut self, action: IoEvent) -> (r: IoEvent)
        ensures
            r == action,
            *final(self) == (App { is_loading: true, ..*old(self) }),
    {
        self.is_loading = true;
        action
    }

    /// Takes the outcome of sending dispatched work: if it could not be sent,
    /// the console no longer waits.
    pub fn dispatch_sent(&mut self, sent: bool)
        ensures
            *final(self) == (App { is_loading: if sent { old(self).is_loading } else { false }, ..*old(self) }),
    {
        if !sent {
            self.is_loading = false;
        }
    }

    pub fn actions(&self) -> (r: &Actions)
        ensures
            *r == self.actions,
    {
        &self.actions
    }

    pub fn state(&self) -> (r: &AppState)
        ensures
            *r == self.state,
    {
        &self.state
    }

    pub fn state_mut(&mut self) -> (r: &mut AppState)
        ensures
            *r == old(self).state,
            *final(self) == (App { state: *final(r), ..*old(self) }),
    {
        &mut self.state
    }

    pub fn is_loading(&self) -> (r: bool)
        ensures
            r == self.is_loading,
    {
        self.is_loading
    }

    /// The console once initialized: all actions are offered and the state
    /// is that of `AppState::initialized`.
    pub fn initialized(&mut self, db: sea_orm::DatabaseConnection)
        ensures
            final(self).actions.actions@ == seq![
                Action::Quit,
                Action::Refresh,
                Action::PreviousBook,
                Action::NextBook,
            ],
            final(self).is_loading == old(self).is_loading,
            final(self).state matches AppState::Initialized {
                duration,
                counter_sleep,
                counter_tick,
                db: d,
                books,
                selected_book,
            } && duration == 1 && counter_sleep == 0 && counter_tick == 0 && d == db
                && books@.len() == 0 && selected_book is None,
    {
        let mut actions: Vec<Action> = Vec::new();
        actions.push(Action::Quit);
        actions.push(Action::Refresh);
        actions.push(Action::PreviousBook);
        actions.push(Action::NextBook);
        self.actions = Actions { actions };
        self.state = AppState::initialized(db);
    }

    /// The input/output loop has finished the work it was handed.
    pub fn loaded(&mut self)
        ensures
            *final(self) == (App { is_loading: false, ..*old(self) }),
    {
        self.is_loading = false;
    }

    /// The console loop has slept once more.
    pub fn slept(&mut self)
        requires
            old(self).state matches AppState::Initialized { counter_sleep, .. } ==> counter_sleep
                < u32::MAX,
        ensures
            *final(self) == (App { state: after_sleep(old(self).state), ..*old(self) }),
    {
        self.state.incr_sleep();
    }
}

} // verus!
