use vstd::prelude::*;

use crate::app_state::{AppMode, AppState, StatusMessage};
use crate::expense::Expense;
use crate::submission::{form_outcome, has_three_fields, read_form, NewExpense};

verus! {

/// The id that the delete key removes: deletion does not follow the
/// selection yet.
pub const DELETE_TARGET_ID: i64 = 1;

/// A key press, as the controller reads it.
#[derive(Clone, Copy, Debug, PartialEq, Eq, Structural)]
pub enum Key {
    Char(char),
    Enter,
    Esc,
    /// Any other key; in the creation form it is an editing key.
    Other,
}

/// What the loop around the controller does next.
#[derive(Clone, Debug)]
pub enum AppAction {
    /// Redraw and wait for the next key.
    Continue,
    /// Leave the loop.
    Quit,
    /// Delete the record with this id, then report through `delete_done`.
    Delete(i64),
    /// Store this record, then report through `insert_done`.
    Insert(NewExpense),
    /// Fetch this page, then hand it to `refresh_expenses`.
    Fetch(i64),
    /// Hand the key event to the creation field's own editing.
    EditInput,
}

/// The cursor after moving down: an absent cursor lands on index 1.
pub open spec fn cursor_down(c: Option<usize>) -> Option<usize> {
    match c {
        None => Some(1usize),
        Some(i) => if i < usize::MAX {
            Some((i + 1) as usize)
        } else {
            Some(i)
        },
    }
}

/// The cursor after moving up: it stays at 0, and an absent cursor lands on
/// index 1.
pub open spec fn cursor_up(c: Option<usize>) -> Option<usize> {
    match c {
        None => Some(1usize),
        Some(i) => if i > 0 {
            Some((i - 1) as usize)
        } else {
            Some(0usize)
        },
    }
}

/// Cursor, page and loaded records are kept.
pub open spec fn keeps_list(o: AppState, f: AppState) -> bool {
    &&& f.idx == o.idx
    &&& f.expense_page == o.expense_page
    &&& f.expenses == o.expenses
}

pub open spec fn normal_step(o: AppState, f: AppState, key: Key, r: AppAction) -> bool {
    match key {
        Key::Char(c) => if c == 'q' {
            r == AppAction::Quit && f == o
        } else if c == 'a' {
            &&& r == AppAction::Continue
            &&& f.app_mode == AppMode::Creating
            &&& f.app_input.text() == Seq::<char>::empty()
            &&& f.status_message is None
            &&& f.detail_idx is None
            &&& keeps_list(o, f)
        } else if c == 'd' {
            r == AppAction::Delete(DELETE_TARGET_ID) && f == o
        } else if c == 'j' {
            r == AppAction::Continue && f == (AppState { idx: cursor_down(o.idx), ..o })
        } else if c == 'k' {
            r == AppAction::Continue && f == (AppState { idx: cursor_up(o.idx), ..o })
        } else if c == 'l' {
            if o.expense_page < i64::MAX {
                let p = (o.expense_page + 1) as i64;
                r == AppAction::Fetch(p) && f == (AppState { idx: None, expense_page: p, ..o })
            } else {
                r == AppAction::Continue && f == o
            }
        } else if c == 'h' {
            if o.expense_page > 1 {
                let p = (o.expense_page - 1) as i64;
                r == AppAction::Fetch(p) && f == (AppState { idx: None, expense_page: p, ..o })
            } else {
                r == AppAction::Continue && f == o
            }
        } else {
            r == AppAction::Continue && f == o
        },
        Key::Enter => r == AppAction::Continue && f == (AppState {
            detail_idx: o.idx,
            app_mode: AppMode::Detail,
            ..o
        }),
        _ => r == AppAction::Continue && f == o,
    }
}

pub open spec fn creating_step(o: AppState, f: AppState, key: Key, r: AppAction) -> bool {
    match key {
        Key::Esc => {
            &&& r == AppAction::Continue
            &&& f.app_mode == AppMode::Normal
            &&& f.app_input.text() == Seq::<char>::empty()
            &&& f.detail_idx is None
            &&& f.status_message == o.status_message
            &&& keeps_list(o, f)
        },
        Key::Enter => {
            &&& f.app_mode == AppMode::Creating
            &&& f.app_input.text() == Seq::<char>::empty()
            &&& f.detail_idx == o.detail_idx
            &&& keeps_list(o, f)
            &&& match form_outcome(o.app_input.text()) {
                Err(e) => r == AppAction::Continue && f.status_message == Some(
                    StatusMessage::Rejected(e),
                ),
                Ok(fields) => (r matches AppAction::Insert(ne) && ne.fields() == fields)
                    && f.status_message == o.status_message,
            }
        },
        _ => r == AppAction::EditInput && f == o,
    }
}

pub open spec fn detail_step(o: AppState, f: AppState, key: Key, r: AppAction) -> bool {
    &&& r == AppAction::Continue
    &&& match key {
        Key::Enter | Key::Esc => f == (AppState { detail_idx: None, app_mode: AppMode::Normal, ..o }),
        _ => f == o,
    }
}

/// One key press in the current mode: the next state and what the loop does.
pub open spec fn event_step(o: AppState, f: AppState, key: Key, r: AppAction) -> bool {
    match o.app_mode {
        AppMode::Normal => normal_step(o, f, key, r),
        AppMode::Editing => r == AppAction::Continue && f == o,
        AppMode::Creating => creating_step(o, f, key, r),
        AppMode::Detail => detail_step(o, f, key, r),
    }
}

/// Reads one key press in the current mode.
pub fn handle_event(state: &mut AppState, key: Key) -> (r: AppAction)
    requires
        old(state).wf(),
    ensures
        final(state).wf(),
        event_step(*old(state), *final(state), key, r),
{
    match state.app_mode {
        AppMode::Normal => handle_normal(state, key),
        AppMode::Editing => handle_editing(state, key),
        AppMode::Creating => handle_creating(state, key),
        AppMode::Detail => handle_detail(state, key),
    }
}

/// A key in the list: quit, open the form or the detail, delete, move the
/// cursor or change page.
pub fn handle_normal(state: &mut AppState, key: Key) -> (r: AppAction)
    requires
        old(state).wf(),
        old(state).app_mode == AppMode::Normal,
    ensures
        final(state).wf(),
        normal_step(*old(state), *final(state), key, r),
{
    match key {
        Key::Char(c) => {
            if c == 'q' {
                return AppAction::Quit;
            } else if c == 'a' {
                state.start_creating();
            } else if c == 'd' {
                return AppAction::Delete(DELETE_TARGET_ID);
            } else if c == 'j' {
                state.idx = match state.idx {
                    Some(i) => if i < usize::MAX {
                        Some(i + 1)
                    } else {
                        Some(i)
                    },
                    None => Some(1),
                };
            } else if c == 'k' {
                state.idx = match state.idx {
                    Some(i) => if i > 0 {
                        Some(i - 1)
                    } else {
                        Some(0)
                    },
                    None => Some(1),
                };
            } else if c == 'l' {
                if state.expense_page < i64::MAX {
                    state.expense_page = state.expense_page + 1;
                    state.idx = None;
                    return AppAction::Fetch(state.expense_page);
                }
            } else if c == 'h' {
                if state.expense_page > 1 {
                    state.expense_page = state.expense_page - 1;
                    state.idx = None;
                    return AppAction::Fetch(state.expense_page);
                }
            }
        },
        Key::Enter => {
            let idx = state.idx;
            state.start_detail(idx);
        },
        _ => {},
    }
    AppAction::Continue
}

/// The editing mode takes keys without effect.
pub fn handle_editing(state: &mut AppState, key: Key) -> (r: AppAction)
    requires
        old(state).wf(),
        old(state).app_mode == AppMode::Editing,
    ensures
        final(state).wf(),
        r == AppAction::Continue && *final(state) == *old(state),
{
    AppAction::Continue
}

/// A key in the creation form: cancel, submit the field's line, or edit it.
pub fn handle_creating(state: &mut AppState, key: Key) -> (r: AppAction)
    requires
        old(state).wf(),
        old(state).app_mode == AppMode::Creating,
    ensures
        final(state).wf(),
        creating_step(*old(state), *final(state), key, r),
{
    match key {
        Key::Esc => {
            state.stop_editing();
            AppAction::Continue
        },
        Key::Enter => {
            let line = state.app_input.push_message();
            match read_form(line.as_str()) {
                Ok(e) => AppAction::Insert(e),
                Err(e) => {
                    state.status_message = Some(StatusMessage::Rejected(e));
                    AppAction::Continue
                },
            }
        },
        _ => AppAction::EditInput,
    }
}

/// A key in the detail view: confirm or cancel returns to the list.
pub fn handle_detail(state: &mut AppState, key: Key) -> (r: AppAction)
    requires
        old(state).wf(),
        old(state).app_mode == AppMode::Detail,
    ensures
        final(state).wf(),
        detail_step(*old(state), *final(state), key, r),
{
    match key {
        Key::Enter | Key::Esc => state.stop_detail(),
        _ => {},
    }
    AppAction::Continue
}

/// Takes the store's answer to `AppAction::Insert`: on success the form
/// closes with a success line and the page is fetched again; on failure the
/// form stays open with the store's error.
pub fn insert_done(state: &mut AppState, outcome: Result<(), String>) -> (r: AppAction)
    requires
        old(state).wf(),
    ensures
        final(state).wf(),
        outcome is Ok ==> {
            &&& r == AppAction::Fetch(old(state).expense_page)
            &&& final(state).status_message == Some(StatusMessage::Saved)
            &&& final(state).app_mode == AppMode::Normal
            &&& final(state).app_input.text() == Seq::<char>::empty()
            &&& final(state).detail_idx is None
            &&& keeps_list(*old(state), *final(state))
        },
        outcome matches Err(e) ==> r == AppAction::Continue && *final(state) == (AppState {
            status_message: Some(StatusMessage::InsertFailed(e)),
            ..*old(state)
        }),
{
    match outcome {
        Ok(()) => {
            state.status_message = Some(StatusMessage::Saved);
            state.stop_editing();
            AppAction::Fetch(state.expense_page)
        },
        Err(e) => {
            state.status_message = Some(StatusMessage::InsertFailed(e));
            AppAction::Continue
        },
    }
}

/// Takes the store's answer to `AppAction::Delete`. The page is not fetched
/// again; a failure becomes the status line.
pub fn delete_done(state: &mut AppState, outcome: Result<(), String>) -> (r: AppAction)
    requires
        old(state).wf(),
    ensures
        final(state).wf(),
        r == AppAction::Continue,
        outcome is Ok ==> *final(state) == *old(state),
        outcome matches Err(e) ==> *final(state) == (AppState {
            status_message: Some(StatusMessage::DeleteFailed(e)),
            ..*old(state)
        }),
{
    if let Err(e) = outcome {
        state.status_message = Some(StatusMessage::DeleteFailed(e));
    }
    AppAction::Continue
}

/// Takes the store's answer to `AppAction::Fetch`: the fetched page, or
/// nothing where the fetch failed.
pub fn refresh_expenses(state: &mut AppState, page: Option<Vec<Expense>>)
    requires
        old(state).wf(),
    ensures
        final(state).wf(),
        *final(state) == (AppState { expenses: page, ..*old(state) }),
{
    state.expenses = page;
}

/// A line of the creation form without exactly three fields is never sent
/// to the store, and it always leaves a status line that is not empty.
pub proof fn lemma_field_count_never_inserts(o: AppState, f: AppState, r: AppAction)
    requires
        o.wf(),
        o.app_mode == AppMode::Creating,
        event_step(o, f, Key::Enter, r),
        !has_three_fields(o.app_input.text()),
    ensures
        !(r is Insert),
        f.status_message matches Some(m) && m.describes().len() > 0,
{
    reveal_strlit("Formato: descrizione | importo | DD-MM-YYYY");
}

/// Opening the detail view with no selection shows no record, and the
/// confirm key then returns to the list.
pub proof fn lemma_detail_without_selection(
    o: AppState,
    f1: AppState,
    r1: AppAction,
    f2: AppState,
    r2: AppAction,
)
    requires
        o.wf(),
        o.app_mode == AppMode::Normal,
        o.idx is None,
        event_step(o, f1, Key::Enter, r1),
        event_step(f1, f2, Key::Enter, r2),
    ensures
        f1.app_mode == AppMode::Detail,
        f1.detail_record() is None,
        f2.app_mode == AppMode::Normal,
        f2.detail_idx is None,
        r1 == AppAction::Continue && r2 == AppAction::Continue,
{
}

/// Moving the cursor up never takes it below 0: from any index it goes one
/// up, and at 0 it stays.
pub proof fn lemma_cursor_up_never_underflows(o: AppState, f: AppState, r: AppAction, i: usize)
    requires
        o.wf(),
        o.app_mode == AppMode::Normal,
        o.idx == Some(i),
        event_step(o, f, Key::Char('k'), r),
    ensures
        i == 0 ==> f.idx == Some(0usize),
        i > 0 ==> f.idx == Some((i - 1) as usize),
{
}

} // verus!
